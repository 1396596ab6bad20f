//! The wire protocol: the four message shapes and their JSON texts.
//!
//! A parameter or result value is carried as the raw text of one JSON value;
//! the engine never looks inside it.  A request's parameter list is either
//! absent or non-empty: on the wire, an omitted field, `null` and `[]` all
//! mean "no parameters supplied", so a present list always has at least one
//! element.  Encoding is verified string building; decoding is verified
//! classification over the trusted JSON readers.

use vstd::prelude::*;

use crate::json::{
    json_array_items, json_object_items, json_string_value, json_quote, spec_json_array_items,
    spec_json_object_items, spec_json_string_value, append_quoted,
};
use crate::text::str_eq;

verus! {

/// One inbound call: the handler identifier and the parameter values, each
/// the raw text of one JSON value.  `parameters` is `None` when no
/// parameters were supplied; a present list is non-empty (`wf`).
pub struct Request {
    pub identifier: String,
    pub parameters: Option<Vec<String>>,
}

/// The mathematical shape of a [`Request`].
pub struct RequestModel {
    pub identifier: Seq<char>,
    pub parameters: Option<Seq<Seq<char>>>,
}

impl View for Request {
    type V = RequestModel;

    open spec fn view(&self) -> RequestModel {
        RequestModel {
            identifier: self.identifier@,
            parameters: match self.parameters {
                Some(ps) => Some(ps@.map_values(|p: String| p@)),
                None => None,
            },
        }
    }
}

impl RequestModel {
    /// A present parameter list is non-empty.
    pub open spec fn wf(self) -> bool {
        self.parameters matches Some(ps) ==> ps.len() > 0
    }
}

impl Request {
    pub open spec fn wf(self) -> bool {
        self@.wf()
    }
}

/// One reply value: the raw text of the JSON value a handler produced.
#[derive(Debug)]
pub struct Response {
    pub body: String,
}

impl View for Response {
    type V = Seq<char>;

    open spec fn view(&self) -> Seq<char> {
        self.body@
    }
}

/// A call sent over the persistent transport, tagged with a correlation id.
pub struct SocketRequest {
    pub id: String,
    pub request: Request,
}

pub struct SocketRequestModel {
    pub id: Seq<char>,
    pub request: RequestModel,
}

impl View for SocketRequest {
    type V = SocketRequestModel;

    open spec fn view(&self) -> SocketRequestModel {
        SocketRequestModel { id: self.id@, request: self.request@ }
    }
}

/// A reply on the persistent transport: the result for the call with the
/// same correlation id, or the peer's error message.
pub struct SocketResponse {
    pub id: String,
    pub body: Result<Response, String>,
}

pub struct SocketResponseModel {
    pub id: Seq<char>,
    pub body: Result<Seq<char>, Seq<char>>,
}

impl View for SocketResponse {
    type V = SocketResponseModel;

    open spec fn view(&self) -> SocketResponseModel {
        SocketResponseModel {
            id: self.id@,
            body: match self.body {
                Ok(ref resp) => Ok(resp.body@),
                Err(ref msg) => Err(msg@),
            },
        }
    }
}

/// A frame of the persistent transport, distinguished by shape on decode.
pub enum SocketMessage {
    Request(SocketRequest),
    Response(SocketResponse),
}

pub enum SocketMessageModel {
    Request(SocketRequestModel),
    Response(SocketResponseModel),
}

impl View for SocketMessage {
    type V = SocketMessageModel;

    open spec fn view(&self) -> SocketMessageModel {
        match self {
            SocketMessage::Request(r) => SocketMessageModel::Request(r@),
            SocketMessage::Response(r) => SocketMessageModel::Response(r@),
        }
    }
}

// ------------------------------------------------------------------
// Encoding
// ------------------------------------------------------------------

/// The elements joined by commas, in order.
pub open spec fn spec_join_comma(items: Seq<Seq<char>>) -> Seq<char>
    decreases items.len(),
{
    if items.len() == 0 {
        Seq::empty()
    } else if items.len() == 1 {
        items[0]
    } else {
        spec_join_comma(items.drop_last()) + (",")@ + items.last()
    }
}

/// A JSON array holding the given raw texts.
pub open spec fn spec_encode_array(items: Seq<Seq<char>>) -> Seq<char> {
    ("[")@ + spec_join_comma(items) + ("]")@
}

/// The JSON text of a request: `{"identifier":...}` with a `parameters`
/// field exactly when parameters are present.
pub open spec fn spec_encode_request(m: RequestModel) -> Seq<char> {
    match m.parameters {
        None => ("{\"identifier\":")@ + json_quote(m.identifier) + ("}")@,
        Some(ps) => ("{\"identifier\":")@ + json_quote(m.identifier) + (",\"parameters\":")@
            + spec_encode_array(ps) + ("}")@,
    }
}

/// The JSON text of a call frame.
pub open spec fn spec_encode_socket_request(m: SocketRequestModel) -> Seq<char> {
    ("{\"id\":")@ + json_quote(m.id) + (",\"request\":")@ + spec_encode_request(m.request) + ("}")@
}

/// The JSON text of a reply frame.
pub open spec fn spec_encode_socket_response(m: SocketResponseModel) -> Seq<char> {
    ("{\"id\":")@ + json_quote(m.id) + (",\"body\":")@ + (match m.body {
        Ok(body) => ("{\"Ok\":{\"body\":")@ + body + ("}}")@,
        Err(msg) => ("{\"Err\":")@ + json_quote(msg) + ("}")@,
    }) + ("}")@
}

/// The JSON text of a frame.
pub open spec fn spec_encode_socket_message(m: SocketMessageModel) -> Seq<char> {
    match m {
        SocketMessageModel::Request(r) => spec_encode_socket_request(r),
        SocketMessageModel::Response(r) => spec_encode_socket_response(r),
    }
}

/// Appends `[e1,e2,...]` for the given raw texts.
fn append_array(out: &mut String, items: &Vec<String>)
    ensures
        final(out)@ == old(out)@ + spec_encode_array(items@.map_values(|p: String| p@)),
{
    let ghost view = items@.map_values(|p: String| p@);
    out.append("[");
    let n: usize = items.len();
    let mut i: usize = 0;
    while i < n
        invariant
            n == items@.len(),
            i <= n,
            view == items@.map_values(|p: String| p@),
            out@ == old(out)@ + ("[")@ + spec_join_comma(view.take(i as int)),
        decreases n - i,
    {
        if i > 0 {
            out.append(",");
        }
        out.append(items[i].as_str());
        proof {
            assert(view[i as int] == items@[i as int]@);
            if i == 0 {
                assert(spec_join_comma(view.take(1)) =~= view[0]);
                assert(out@ =~= old(out)@ + ("[")@ + spec_join_comma(view.take(i as int + 1)));
            } else {
                assert(view.take(i as int + 1).drop_last() =~= view.take(i as int));
                assert(view.take(i as int + 1).last() == view[i as int]);
                assert(out@ =~= old(out)@ + ("[")@ + spec_join_comma(view.take(i as int + 1)));
            }
        }
        i += 1;
    }
    out.append("]");
    proof {
        assert(view.take(n as int) =~= view);
        assert(out@ =~= old(out)@ + spec_encode_array(view));
    }
}

/// Encodes a parameter list as the JSON array of its raw texts, proved
/// equal to [`spec_encode_array`].
pub fn encode_parameters(items: &Vec<String>) -> (r: String)
    ensures
        r@ == spec_encode_array(items@.map_values(|p: String| p@)),
{
    let mut out = String::new();
    append_array(&mut out, items);
    proof {
        assert(out@ =~= spec_encode_array(items@.map_values(|p: String| p@)));
    }
    out
}

/// Encodes a request, proved equal to [`spec_encode_request`].
pub fn encode_request(req: &Request) -> (r: String)
    ensures
        r@ == spec_encode_request(req@),
{
    let mut out = String::new();
    out.append("{\"identifier\":");
    append_quoted(&mut out, req.identifier.as_str());
    match &req.parameters {
        None => {
            out.append("}");
        },
        Some(ps) => {
            out.append(",\"parameters\":");
            append_array(&mut out, ps);
            out.append("}");
        },
    }
    proof {
        assert(out@ =~= spec_encode_request(req@));
    }
    out
}

/// Encodes a call frame, proved equal to [`spec_encode_socket_request`].
pub fn encode_socket_request(sr: &SocketRequest) -> (r: String)
    ensures
        r@ == spec_encode_socket_request(sr@),
{
    let mut out = String::new();
    out.append("{\"id\":");
    append_quoted(&mut out, sr.id.as_str());
    out.append(",\"request\":");
    let req = encode_request(&sr.request);
    out.append(req.as_str());
    out.append("}");
    proof {
        assert(out@ =~= spec_encode_socket_request(sr@));
    }
    out
}

/// Encodes a reply frame, proved equal to [`spec_encode_socket_response`].
pub fn encode_socket_response(sr: &SocketResponse) -> (r: String)
    ensures
        r@ == spec_encode_socket_response(sr@),
{
    let mut out = String::new();
    out.append("{\"id\":");
    append_quoted(&mut out, sr.id.as_str());
    out.append(",\"body\":");
    match &sr.body {
        Ok(resp) => {
            out.append("{\"Ok\":{\"body\":");
            out.append(resp.body.as_str());
            out.append("}}");
        },
        Err(msg) => {
            out.append("{\"Err\":");
            append_quoted(&mut out, msg.as_str());
            out.append("}");
        },
    }
    out.append("}");
    proof {
        assert(out@ =~= spec_encode_socket_response(sr@));
    }
    out
}

/// Encodes a frame, proved equal to [`spec_encode_socket_message`].
pub fn encode_socket_message(m: &SocketMessage) -> (r: String)
    ensures
        r@ == spec_encode_socket_message(m@),
{
    match m {
        SocketMessage::Request(r) => encode_socket_request(r),
        SocketMessage::Response(r) => encode_socket_response(r),
    }
}

// ------------------------------------------------------------------
// Decoding
// ------------------------------------------------------------------

/// The raw text under the first field named `k`, if any.
pub open spec fn spec_assoc(items: Seq<(Seq<char>, Seq<char>)>, k: Seq<char>) -> Option<Seq<char>>
    decreases items.len(),
{
    if items.len() == 0 {
        None
    } else if items[0].0 == k {
        Some(items[0].1)
    } else {
        spec_assoc(items.drop_first(), k)
    }
}

fn find_field<'a>(entries: &'a Vec<(String, String)>, key: &str) -> (r: Option<&'a String>)
    ensures
        match r {
            Some(v) => spec_assoc(
                entries@.map_values(|p: (String, String)| (p.0@, p.1@)),
                key@,
            ) == Some(v@),
            None => spec_assoc(
                entries@.map_values(|p: (String, String)| (p.0@, p.1@)),
                key@,
            ) is None,
        },
{
    let ghost items = entries@.map_values(|p: (String, String)| (p.0@, p.1@));
    proof {
        assert(items.skip(0) =~= items);
    }
    let n: usize = entries.len();
    let mut i: usize = 0;
    while i < n
        invariant
            n == entries@.len(),
            i <= n,
            items == entries@.map_values(|p: (String, String)| (p.0@, p.1@)),
            spec_assoc(items, key@) == spec_assoc(items.skip(i as int), key@),
        decreases n - i,
    {
        proof {
            assert(items.skip(i as int)[0] == items[i as int]);
        }
        if str_eq(entries[i].0.as_str(), key) {
            return Some(&entries[i].1);
        }
        proof {
            assert(items.skip(i as int).drop_first() =~= items.skip(i as int + 1));
        }
        i += 1;
    }
    proof {
        assert(items.skip(n as int) =~= Seq::<(Seq<char>, Seq<char>)>::empty());
    }
    None
}

/// The parameter model carried by an optional list of raw texts.
pub open spec fn params_model(p: Option<Vec<String>>) -> Option<Seq<Seq<char>>> {
    match p {
        Some(v) => Some(v@.map_values(|x: String| x@)),
        None => None,
    }
}

/// What a unary call body denotes: `None` on a malformed body; otherwise
/// the parameter model, where an empty body and an empty array both mean
/// "no parameters supplied".
pub open spec fn spec_decode_parameters(s: Seq<char>) -> Option<Option<Seq<Seq<char>>>> {
    if s.len() == 0 {
        Some(None)
    } else {
        match spec_json_array_items(s) {
            None => None,
            Some(items) => if items.len() == 0 {
                Some(None)
            } else {
                Some(Some(items))
            },
        }
    }
}

/// Decodes a unary call body, proved equal to [`spec_decode_parameters`].
pub fn decode_parameters(s: &str) -> (r: Option<Option<Vec<String>>>)
    ensures
        match r {
            Some(p) => spec_decode_parameters(s@) == Some(params_model(p)) && (p matches Some(v)
                ==> v@.len() > 0),
            None => spec_decode_parameters(s@) is None,
        },
{
    if s.is_empty() {
        return Some(None);
    }
    match json_array_items(s) {
        None => None,
        Some(items) => {
            if items.is_empty() {
                Some(None)
            } else {
                Some(Some(items))
            }
        },
    }
}

/// What a request object denotes, `None` on a malformed one.
pub open spec fn spec_decode_request(s: Seq<char>) -> Option<RequestModel> {
    match spec_json_object_items(s) {
        None => None,
        Some(fields) => match spec_assoc(fields, ("identifier")@) {
            None => None,
            Some(idtext) => match spec_json_string_value(idtext) {
                None => None,
                Some(ident) => match spec_assoc(fields, ("parameters")@) {
                    None => Some(RequestModel { identifier: ident, parameters: None }),
                    Some(ptext) => if ptext == ("null")@ {
                        Some(RequestModel { identifier: ident, parameters: None })
                    } else {
                        match spec_json_array_items(ptext) {
                            None => None,
                            Some(items) => Some(
                                RequestModel {
                                    identifier: ident,
                                    parameters: if items.len() == 0 {
                                        None
                                    } else {
                                        Some(items)
                                    },
                                },
                            ),
                        }
                    },
                },
            },
        },
    }
}

/// Decodes a request object, proved equal to [`spec_decode_request`].
pub fn decode_request(s: &str) -> (r: Option<Request>)
    ensures
        match r {
            Some(req) => spec_decode_request(s@) == Some(req@) && req.wf(),
            None => spec_decode_request(s@) is None,
        },
{
    let fields = match json_object_items(s) {
        Some(f) => f,
        None => {
            return None;
        },
    };
    let idtext = match find_field(&fields, "identifier") {
        Some(t) => t,
        None => {
            return None;
        },
    };
    let ident = match json_string_value(idtext.as_str()) {
        Some(v) => v,
        None => {
            return None;
        },
    };
    match find_field(&fields, "parameters") {
        None => Some(Request { identifier: ident, parameters: None }),
        Some(ptext) => {
            if str_eq(ptext.as_str(), "null") {
                return Some(Request { identifier: ident, parameters: None });
            }
            match json_array_items(ptext.as_str()) {
                None => None,
                Some(items) => {
                    if items.is_empty() {
                        Some(Request { identifier: ident, parameters: None })
                    } else {
                        Some(Request { identifier: ident, parameters: Some(items) })
                    }
                },
            }
        },
    }
}

/// The raw result text inside a reply's `Ok` wrapper: the `body` field.
pub open spec fn spec_decode_response_body(s: Seq<char>) -> Option<Seq<char>> {
    match spec_json_object_items(s) {
        None => None,
        Some(fields) => spec_assoc(fields, ("body")@),
    }
}

/// What a reply's `body` object denotes: the call's result or the peer's
/// error message, `None` on a malformed one.
pub open spec fn spec_decode_result(s: Seq<char>) -> Option<Result<Seq<char>, Seq<char>>> {
    match spec_json_object_items(s) {
        None => None,
        Some(fields) => match spec_assoc(fields, ("Ok")@) {
            Some(oktext) => match spec_decode_response_body(oktext) {
                Some(body) => Some(Ok(body)),
                None => None,
            },
            None => match spec_assoc(fields, ("Err")@) {
                Some(errtext) => match spec_json_string_value(errtext) {
                    Some(msg) => Some(Err(msg)),
                    None => None,
                },
                None => None,
            },
        },
    }
}

fn decode_result(s: &str) -> (r: Option<Result<Response, String>>)
    ensures
        match r {
            Some(body) => spec_decode_result(s@) == Some(
                match body {
                    Ok(resp) => Ok::<Seq<char>, Seq<char>>(resp.body@),
                    Err(msg) => Err::<Seq<char>, Seq<char>>(msg@),
                },
            ),
            None => spec_decode_result(s@) is None,
        },
{
    let fields = match json_object_items(s) {
        Some(f) => f,
        None => {
            return None;
        },
    };
    match find_field(&fields, "Ok") {
        Some(oktext) => {
            let okfields = match json_object_items(oktext.as_str()) {
                Some(f) => f,
                None => {
                    return None;
                },
            };
            match find_field(&okfields, "body") {
                Some(body) => Some(Ok(Response { body: body.clone() })),
                None => None,
            }
        },
        None => match find_field(&fields, "Err") {
            Some(errtext) => match json_string_value(errtext.as_str()) {
                Some(msg) => Some(Err(msg)),
                None => None,
            },
            None => None,
        },
    }
}

/// What a frame denotes, `None` on a malformed one.  A frame with a
/// `request` field is a call; otherwise one with a `body` field is a reply.
pub open spec fn spec_decode_socket_message(s: Seq<char>) -> Option<SocketMessageModel> {
    match spec_json_object_items(s) {
        None => None,
        Some(fields) => match spec_assoc(fields, ("id")@) {
            None => None,
            Some(idtext) => match spec_json_string_value(idtext) {
                None => None,
                Some(id) => match spec_assoc(fields, ("request")@) {
                    Some(reqtext) => match spec_decode_request(reqtext) {
                        Some(req) => Some(
                            SocketMessageModel::Request(SocketRequestModel { id: id, request: req }),
                        ),
                        None => None,
                    },
                    None => match spec_assoc(fields, ("body")@) {
                        Some(bodytext) => match spec_decode_result(bodytext) {
                            Some(body) => Some(
                                SocketMessageModel::Response(
                                    SocketResponseModel { id: id, body: body },
                                ),
                            ),
                            None => None,
                        },
                        None => None,
                    },
                },
            },
        },
    }
}

/// Decodes a frame, proved equal to [`spec_decode_socket_message`]; a
/// decoded call carries a well-formed request.
pub fn decode_socket_message(s: &str) -> (r: Option<SocketMessage>)
    ensures
        match r {
            Some(m) => spec_decode_socket_message(s@) == Some(m@) && (m matches
                SocketMessage::Request(sr) ==> sr.request.wf()),
            None => spec_decode_socket_message(s@) is None,
        },
{
    let fields = match json_object_items(s) {
        Some(f) => f,
        None => {
            return None;
        },
    };
    let idtext = match find_field(&fields, "id") {
        Some(t) => t,
        None => {
            return None;
        },
    };
    let id = match json_string_value(idtext.as_str()) {
        Some(v) => v,
        None => {
            return None;
        },
    };
    match find_field(&fields, "request") {
        Some(reqtext) => match decode_request(reqtext.as_str()) {
            Some(req) => Some(SocketMessage::Request(SocketRequest { id: id, request: req })),
            None => None,
        },
        None => match find_field(&fields, "body") {
            Some(bodytext) => match decode_result(bodytext.as_str()) {
                Some(body) => Some(
                    SocketMessage::Response(SocketResponse { id: id, body: body }),
                ),
                None => None,
            },
            None => None,
        },
    }
}

} // verus!
