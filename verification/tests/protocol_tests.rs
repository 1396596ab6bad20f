//! The wire shapes: encoding built by the library, decoding through the
//! real JSON parser, and the agreement between the two.

use erpc::protocol::{
    decode_parameters, decode_request, decode_socket_message, encode_parameters, encode_request,
    encode_socket_message, encode_socket_request, encode_socket_response, Request, Response,
    SocketMessage, SocketRequest, SocketResponse,
};

fn req(identifier: &str, parameters: Option<Vec<&str>>) -> Request {
    Request {
        identifier: identifier.to_owned(),
        parameters: parameters.map(|ps| ps.into_iter().map(|p| p.to_owned()).collect()),
    }
}

#[test]
fn encode_request_with_parameters() {
    let r = req("add", Some(vec!["2", "3"]));
    assert_eq!(
        encode_request(&r),
        "{\"identifier\":\"add\",\"parameters\":[2,3]}"
    );
}

#[test]
fn encode_request_without_parameters() {
    let r = req("ping", None);
    assert_eq!(encode_request(&r), "{\"identifier\":\"ping\"}");
}

#[test]
fn encode_request_escapes_identifier() {
    let r = req("a\"b\\c\nd", None);
    assert_eq!(
        encode_request(&r),
        "{\"identifier\":\"a\\\"b\\\\c\\nd\"}"
    );
}

#[test]
fn encode_request_escapes_control_characters() {
    let r = req("a\u{1}b", None);
    assert_eq!(encode_request(&r), "{\"identifier\":\"a\\u0001b\"}");
}

#[test]
fn encode_parameters_builds_json_array() {
    let ps: Vec<String> = vec!["1".to_owned(), "\"x\"".to_owned(), "null".to_owned()];
    assert_eq!(encode_parameters(&ps), "[1,\"x\",null]");
    let empty: Vec<String> = Vec::new();
    assert_eq!(encode_parameters(&empty), "[]");
}

#[test]
fn encode_socket_request_frame() {
    let frame = SocketRequest {
        id: "c1".to_owned(),
        request: req("add", Some(vec!["2", "3"])),
    };
    assert_eq!(
        encode_socket_request(&frame),
        "{\"id\":\"c1\",\"request\":{\"identifier\":\"add\",\"parameters\":[2,3]}}"
    );
}

#[test]
fn encode_socket_response_ok_frame() {
    let frame = SocketResponse {
        id: "c1".to_owned(),
        body: Ok(Response { body: "5".to_owned() }),
    };
    assert_eq!(
        encode_socket_response(&frame),
        "{\"id\":\"c1\",\"body\":{\"Ok\":{\"body\":5}}}"
    );
}

#[test]
fn encode_socket_response_err_frame() {
    let frame = SocketResponse {
        id: "c1".to_owned(),
        body: Err("boom".to_owned()),
    };
    assert_eq!(
        encode_socket_response(&frame),
        "{\"id\":\"c1\",\"body\":{\"Err\":\"boom\"}}"
    );
}

#[test]
fn decode_parameters_accepts_bodies() {
    assert_eq!(decode_parameters(""), Some(None));
    assert_eq!(decode_parameters("[]"), Some(None));
    let two = decode_parameters("[2,3]").expect("decodes").expect("present");
    assert_eq!(two, vec!["2".to_owned(), "3".to_owned()]);
    let one = decode_parameters("[\"hello\"]").expect("decodes").expect("present");
    assert_eq!(one, vec!["\"hello\"".to_owned()]);
}

#[test]
fn decode_parameters_rejects_malformed_bodies() {
    assert_eq!(decode_parameters("{"), None);
    assert_eq!(decode_parameters("5"), None);
    assert_eq!(decode_parameters("{\"a\":1}"), None);
}

#[test]
fn decode_request_reads_fields() {
    let r = decode_request("{\"identifier\":\"add\",\"parameters\":[2,3]}").expect("decodes");
    assert_eq!(r.identifier, "add");
    assert_eq!(r.parameters, Some(vec!["2".to_owned(), "3".to_owned()]));
}

#[test]
fn decode_request_empty_and_null_parameters_mean_absent() {
    let r = decode_request("{\"identifier\":\"ping\"}").expect("decodes");
    assert_eq!(r.parameters, None);
    let r = decode_request("{\"identifier\":\"ping\",\"parameters\":[]}").expect("decodes");
    assert_eq!(r.parameters, None);
    let r = decode_request("{\"identifier\":\"ping\",\"parameters\":null}").expect("decodes");
    assert_eq!(r.parameters, None);
}

#[test]
fn decode_request_rejects_bad_shapes() {
    assert!(decode_request("[]").is_none());
    assert!(decode_request("{\"parameters\":[1]}").is_none());
    assert!(decode_request("{\"identifier\":5}").is_none());
    assert!(decode_request("{\"identifier\":\"x\",\"parameters\":5}").is_none());
}

#[test]
fn decode_socket_message_call_frame() {
    let m = decode_socket_message(
        "{\"id\":\"c1\",\"request\":{\"identifier\":\"add\",\"parameters\":[2,3]}}",
    )
    .expect("decodes");
    match m {
        SocketMessage::Request(sr) => {
            assert_eq!(sr.id, "c1");
            assert_eq!(sr.request.identifier, "add");
            assert_eq!(sr.request.parameters, Some(vec!["2".to_owned(), "3".to_owned()]));
        }
        SocketMessage::Response(_) => panic!("classified as a reply"),
    }
}

#[test]
fn decode_socket_message_reply_frames() {
    let m = decode_socket_message("{\"id\":\"c1\",\"body\":{\"Ok\":{\"body\":5}}}")
        .expect("decodes");
    match m {
        SocketMessage::Response(sr) => {
            assert_eq!(sr.id, "c1");
            assert_eq!(sr.body.expect("success reply").body, "5");
        }
        SocketMessage::Request(_) => panic!("classified as a call"),
    }
    let m = decode_socket_message("{\"id\":\"c1\",\"body\":{\"Err\":\"boom\"}}")
        .expect("decodes");
    match m {
        SocketMessage::Response(sr) => {
            assert_eq!(sr.body.expect_err("error reply"), "boom");
        }
        SocketMessage::Request(_) => panic!("classified as a call"),
    }
}

#[test]
fn decode_socket_message_rejects_bad_frames() {
    assert!(decode_socket_message("not json").is_none());
    assert!(decode_socket_message("{\"id\":\"c1\"}").is_none());
    assert!(decode_socket_message("{\"request\":{\"identifier\":\"x\"}}").is_none());
    assert!(decode_socket_message("{\"id\":5,\"body\":{\"Err\":\"e\"}}").is_none());
}

#[test]
fn reply_bodies_missing_their_fields_are_rejected() {
    assert!(decode_socket_message("{\"id\":\"c\",\"body\":{}}").is_none());
    assert!(decode_socket_message("{\"id\":\"c\",\"body\":{\"Ok\":{}}}").is_none());
    assert!(decode_socket_message("{\"id\":\"c\",\"body\":{\"Ok\":5}}").is_none());
    assert!(decode_socket_message("{\"id\":\"c\",\"body\":{\"Err\":5}}").is_none());
}

#[test]
fn frames_survive_an_encode_decode_round_trip() {
    let call = SocketMessage::Request(SocketRequest {
        id: "id-1".to_owned(),
        request: req("echo he\"llo", Some(vec!["{\"k\":[1,2]}"])),
    });
    let text = encode_socket_message(&call);
    match decode_socket_message(&text).expect("round trip decodes") {
        SocketMessage::Request(sr) => {
            assert_eq!(sr.id, "id-1");
            assert_eq!(sr.request.identifier, "echo he\"llo");
            assert_eq!(sr.request.parameters, Some(vec!["{\"k\":[1,2]}".to_owned()]));
        }
        SocketMessage::Response(_) => panic!("classified as a reply"),
    }

    let reply = SocketMessage::Response(SocketResponse {
        id: "id-1".to_owned(),
        body: Err("no \\ luck".to_owned()),
    });
    let text = encode_socket_message(&reply);
    match decode_socket_message(&text).expect("round trip decodes") {
        SocketMessage::Response(sr) => {
            assert_eq!(sr.id, "id-1");
            assert_eq!(sr.body.expect_err("error reply"), "no \\ luck");
        }
        SocketMessage::Request(_) => panic!("classified as a call"),
    }
}
