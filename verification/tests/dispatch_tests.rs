//! The unary dispatch path: registry lookup, handler invocation, the HTTP
//! mapping, and replacement semantics.

use erpc::errors::DispatchError;
use erpc::handler::{AddHandler, ConstHandler, EchoHandler};
use erpc::registry::{dispatch, http_reply, HandlerRegistry};

#[test]
fn echo_scenario_returns_the_first_parameter() {
    let mut registry: HandlerRegistry<EchoHandler> = HandlerRegistry::new();
    registry.register("echo".to_owned(), EchoHandler);
    let outcome = dispatch(&registry, "echo", "[\"hello\"]");
    let reply = http_reply(outcome);
    assert_eq!(reply.status, 200);
    assert_eq!(reply.body, "\"hello\"");
}

#[test]
fn missing_handler_scenario_is_404() {
    let registry: HandlerRegistry<EchoHandler> = HandlerRegistry::new();
    let outcome = dispatch(&registry, "missing", "[]");
    assert!(matches!(outcome, Err(DispatchError::HandlerNotFound)));
    let reply = http_reply(outcome);
    assert_eq!(reply.status, 404);
    assert_eq!(reply.body, "Handler not found.");
}

#[test]
fn unknown_identifier_beats_registered_neighbours() {
    let mut registry: HandlerRegistry<EchoHandler> = HandlerRegistry::new();
    registry.register("echo".to_owned(), EchoHandler);
    let outcome = dispatch(&registry, "Echo", "[1]");
    assert!(matches!(outcome, Err(DispatchError::HandlerNotFound)));
}

#[test]
fn add_scenario_dispatches_to_five() {
    let mut registry: HandlerRegistry<AddHandler> = HandlerRegistry::new();
    registry.register("add".to_owned(), AddHandler);
    let outcome = dispatch(&registry, "add", "[2,3]").expect("dispatch succeeds");
    assert_eq!(outcome.body, "5");
}

#[test]
fn malformed_body_is_a_decode_error() {
    let mut registry: HandlerRegistry<EchoHandler> = HandlerRegistry::new();
    registry.register("echo".to_owned(), EchoHandler);
    let outcome = dispatch(&registry, "echo", "{oops");
    assert!(matches!(outcome, Err(DispatchError::Decode)));
    let reply = http_reply(outcome);
    assert_eq!(reply.status, 500);
    assert_eq!(reply.body, "Please see the server logs.");
}

#[test]
fn handler_failure_is_a_handler_error() {
    let mut registry: HandlerRegistry<EchoHandler> = HandlerRegistry::new();
    registry.register("echo".to_owned(), EchoHandler);
    let outcome = dispatch(&registry, "echo", "");
    match outcome {
        Err(DispatchError::Handler(msg)) => {
            assert_eq!(msg, "expected at least one parameter");
        }
        other => panic!("expected a handler error, got {:?}", matches!(other, Ok(_))),
    }
}

#[test]
fn invalid_handler_output_is_an_encode_error() {
    let mut registry: HandlerRegistry<ConstHandler> = HandlerRegistry::new();
    registry.register(
        "bad".to_owned(),
        ConstHandler { value: "not json at all".to_owned() },
    );
    let outcome = dispatch(&registry, "bad", "[]");
    assert!(matches!(outcome, Err(DispatchError::Encode)));
    let reply = http_reply(outcome);
    assert_eq!(reply.status, 500);
}

#[test]
fn re_registration_overwrites_the_prior_handler() {
    let mut registry: HandlerRegistry<ConstHandler> = HandlerRegistry::new();
    registry.register("answer".to_owned(), ConstHandler { value: "1".to_owned() });
    let first = dispatch(&registry, "answer", "[]").expect("first handler runs");
    assert_eq!(first.body, "1");
    registry.register("answer".to_owned(), ConstHandler { value: "2".to_owned() });
    let second = dispatch(&registry, "answer", "[]").expect("second handler runs");
    assert_eq!(second.body, "2");
}

#[test]
fn lookup_reads_do_not_change_the_registry() {
    let mut registry: HandlerRegistry<ConstHandler> = HandlerRegistry::new();
    registry.register("a".to_owned(), ConstHandler { value: "10".to_owned() });
    assert!(registry.lookup("a").is_some());
    assert!(registry.lookup("b").is_none());
    assert!(registry.lookup("a").is_some());
    let outcome = dispatch(&registry, "a", "").expect("still dispatches");
    assert_eq!(outcome.body, "10");
}
