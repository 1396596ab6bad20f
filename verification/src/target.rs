//! The caller: a target holds the transport configuration and, for the
//! persistent kind, the bound connection and the pending-call table.
//!
//! Issuing a call is split into decisions and transport.  For the unary
//! kind the target builds the URL and the JSON body of one POST exchange
//! and interprets the reply status; the exchange itself is the embedding
//! layer's, one attempt per call, no retry.  For the persistent kind the
//! target demands a bound connection, registers the completion slot under
//! the call's correlation id, and encodes the call frame; the embedding
//! layer sends the frame, feeds every inbound frame back through the
//! target, and performs the resolutions the target decides.  A pending call
//! whose reply never arrives stays pending: the table never resolves it by
//! itself, so callers own their timeout.

use vstd::prelude::*;

use crate::connections::{Socket, SocketModel};
use crate::errors::CallError;
use crate::json::{json_valid, spec_json_valid};
use crate::pending::{route_message, InboundAction, PendingCalls};
use crate::protocol::{
    encode_parameters, encode_socket_request, params_model, spec_encode_array,
    spec_encode_socket_request, Request, RequestModel, Response, SocketMessage, SocketRequest,
    SocketRequestModel,
};
use crate::text::{spec_u64_digits, u64_to_string};

verus! {

/// The transport a target calls over.
#[derive(Clone, Copy, PartialEq, Eq, Structural, Debug)]
pub enum TargetType {
    /// One-shot request/response exchanges against an HTTP server.
    HTTPServer,
    /// A persistent bidirectional connection to a browser-side peer.
    Browser,
}

/// Construction options for a target: where the peer lives.
pub struct TargetOptions {
    pub port: u16,
    pub address: String,
}

/// Whether every parameter is the text of one well-formed JSON value.
pub open spec fn all_params_valid(params: Option<Seq<Seq<char>>>) -> bool {
    match params {
        Some(ps) => forall|i: int| 0 <= i < ps.len() ==> #[trigger] spec_json_valid(ps[i]),
        None => true,
    }
}

fn vec_params_valid(ps: &Vec<String>) -> (r: bool)
    ensures
        r == all_params_valid(Some(ps@.map_values(|x: String| x@))),
{
    let ghost model = ps@.map_values(|x: String| x@);
    let n: usize = ps.len();
    let mut i: usize = 0;
    while i < n
        invariant
            n == ps@.len(),
            model == ps@.map_values(|x: String| x@),
            i <= n,
            forall|j: int| 0 <= j < i ==> spec_json_valid(#[trigger] model[j]),
        decreases n - i,
    {
        proof {
            assert(model[i as int] == ps@[i as int]@);
        }
        if !json_valid(ps[i].as_str()) {
            proof {
                assert(model.len() == ps@.len());
                assert(!spec_json_valid(model[i as int]));
                assert(!(forall|j: int|
                    0 <= j < model.len() ==> #[trigger] spec_json_valid(model[j])));
                assert(Some(model) matches Some(q) && q == model);
                assert(!all_params_valid(Some(model)));
            }
            return false;
        }
        i += 1;
    }
    true
}

fn params_valid(params: &Option<Vec<String>>) -> (r: bool)
    ensures
        r == all_params_valid(params_model(*params)),
{
    match params {
        Some(ps) => vec_params_valid(ps),
        None => true,
    }
}

/// The URL of one unary call: `<address>:<port>/endpoints/<identifier>`.
pub open spec fn spec_http_url(address: Seq<char>, port: u16, identifier: Seq<char>) -> Seq<char> {
    address + (":")@ + spec_u64_digits(port as nat) + ("/endpoints/")@ + identifier
}

/// The two halves of one unary exchange the embedding layer performs.
pub struct HttpCall {
    pub url: String,
    pub body: String,
}

/// What one unary reply means to the caller: the raw JSON result on status
/// 200, and the peer's reported failure — its plain-text body — otherwise.
pub fn interpret_http_reply(status: u16, body: String) -> (r: Result<Response, CallError>)
    ensures
        match r {
            Ok(resp) => status == 200 && resp.body@ == body@,
            Err(e) => status != 200 && (e matches CallError::Remote(msg) && msg@ == body@),
        },
{
    if status == 200 {
        Ok(Response { body })
    } else {
        Err(CallError::Remote(body))
    }
}

/// A caller configuration: address, port, transport kind, and — for the
/// persistent kind — the bound connection and the pending-call table.
pub struct ERPCTarget<S> {
    address: String,
    port: u16,
    target_type: TargetType,
    socket: Option<Socket>,
    requests: PendingCalls<S>,
}

impl<S> ERPCTarget<S> {
    pub closed spec fn wf(self) -> bool {
        self.requests.wf()
    }

    /// The peer's address, any single trailing slash stripped.
    pub closed spec fn spec_address(&self) -> Seq<char> {
        self.address@
    }

    pub closed spec fn spec_port(&self) -> u16 {
        self.port
    }

    /// The transport kind this target calls over.
    pub closed spec fn spec_kind(&self) -> TargetType {
        self.target_type
    }

    /// The bound connection, if any.
    pub closed spec fn bound_socket(&self) -> Option<SocketModel> {
        match self.socket {
            Some(s) => Some(s@),
            None => None,
        }
    }

    /// The outstanding calls, by correlation id.
    pub closed spec fn pending(&self) -> Map<Seq<char>, S> {
        self.requests@
    }

    /// The transport kind, for the embedding layer to pick the exchange.
    pub fn kind(&self) -> (r: TargetType)
        ensures
            r == self.spec_kind(),
    {
        self.target_type
    }

    /// A fresh target with no bound connection and no outstanding calls.
    /// One trailing slash of the address is stripped.
    pub fn new(options: TargetOptions, target_type: TargetType) -> (r: Self)
        ensures
            r.wf(),
            r.spec_port() == options.port,
            r.spec_kind() == target_type,
            r.bound_socket() is None,
            r.pending() == Map::<Seq<char>, S>::empty(),
            ({
                let a = options.address@;
                if a.len() > 0 && a.last() == '/' {
                    r.spec_address() == a.drop_last()
                } else {
                    r.spec_address() == a
                }
            }),
    {
        let n: usize = options.address.as_str().unicode_len();
        let address = if n > 0 && options.address.as_str().get_char(n - 1) == '/' {
            let trimmed = options.address.as_str().substring_char(0, n - 1);
            proof {
                assert(trimmed@ =~= options.address@.drop_last());
            }
            trimmed.to_owned()
        } else {
            options.address
        };
        ERPCTarget {
            address,
            port: options.port,
            target_type,
            socket: None,
            requests: PendingCalls::new(),
        }
    }

    /// Builds the URL and body of one unary call: the body is the JSON
    /// array of the parameters, each of which must be one well-formed JSON
    /// text; a parameter that is not is an encode error, and nothing is
    /// sent.
    pub fn prepare_http_call(&self, identifier: &str, parameters: &Vec<String>) -> (r: Result<
        HttpCall,
        CallError,
    >)
        ensures
            match r {
                Ok(call) => {
                    &&& all_params_valid(Some(parameters@.map_values(|x: String| x@)))
                    &&& call.url@ == spec_http_url(
                        self.spec_address(),
                        self.spec_port(),
                        identifier@,
                    )
                    &&& call.body@ == spec_encode_array(parameters@.map_values(|x: String| x@))
                },
                Err(e) => {
                    &&& e is Encode
                    &&& !all_params_valid(Some(parameters@.map_values(|x: String| x@)))
                },
            },
    {
        if !vec_params_valid(parameters) {
            return Err(CallError::Encode);
        }
        let mut url = String::new();
        url.append(self.address.as_str());
        url.append(":");
        let digits = u64_to_string(self.port as u64);
        url.append(digits.as_str());
        url.append("/endpoints/");
        url.append(identifier);
        proof {
            assert(url@ =~= spec_http_url(self.spec_address(), self.spec_port(), identifier@));
        }
        let body = encode_parameters(parameters);
        Ok(HttpCall { url, body })
    }

    /// Binds the connection this target calls over; calls before this bind
    /// are refused rather than made to wait.
    pub fn bind_socket(&mut self, socket: Socket)
        requires
            old(self).wf(),
        ensures
            final(self).wf(),
            final(self).bound_socket() == Some(socket@),
            final(self).pending() == old(self).pending(),
            final(self).spec_address() == old(self).spec_address(),
            final(self).spec_port() == old(self).spec_port(),
            final(self).spec_kind() == old(self).spec_kind(),
    {
        self.socket = Some(socket);
    }

    /// Opens one persistent-transport call: with no bound connection the
    /// call is refused as `NotBound`; a parameter that is not one
    /// well-formed JSON text is an encode error; otherwise the completion
    /// slot is registered under `id` — at most one entry per id — and the
    /// call frame to send is returned.
    pub fn begin_call(
        &mut self,
        id: String,
        slot: S,
        identifier: String,
        parameters: Option<Vec<String>>,
    ) -> (r: Result<String, CallError>)
        requires
            old(self).wf(),
            params_model(parameters) matches Some(ps) ==> ps.len() > 0,
        ensures
            final(self).wf(),
            final(self).spec_address() == old(self).spec_address(),
            final(self).spec_port() == old(self).spec_port(),
            final(self).spec_kind() == old(self).spec_kind(),
            final(self).bound_socket() == old(self).bound_socket(),
            match r {
                Ok(frame) => {
                    &&& old(self).bound_socket() is Some
                    &&& all_params_valid(params_model(parameters))
                    &&& final(self).pending() == old(self).pending().insert(id@, slot)
                    &&& frame@ == spec_encode_socket_request(
                        SocketRequestModel {
                            id: id@,
                            request: RequestModel {
                                identifier: identifier@,
                                parameters: params_model(parameters),
                            },
                        },
                    )
                },
                Err(e) => {
                    &&& final(self).pending() == old(self).pending()
                    &&& (old(self).bound_socket() is None ==> e is NotBound)
                    &&& (old(self).bound_socket() is Some ==> e is Encode && !all_params_valid(
                        params_model(parameters),
                    ))
                },
            },
    {
        if self.socket.is_none() {
            return Err(CallError::NotBound);
        }
        if !params_valid(&parameters) {
            return Err(CallError::Encode);
        }
        let frame_id = id.clone();
        self.requests.insert(id, slot);
        let request = Request { identifier, parameters };
        let sr = SocketRequest { id: frame_id, request };
        let frame = encode_socket_request(&sr);
        Ok(frame)
    }

    /// Classifies one inbound frame for this target: a reply that matches
    /// an outstanding call removes exactly its own entry and resolves that
    /// slot; an unmatched reply is dropped with the table untouched; an
    /// inbound call is an explicit unsupported-operation outcome.
    pub fn handle_socket_message(&mut self, msg: SocketMessage) -> (r: InboundAction<S>)
        requires
            old(self).wf(),
        ensures
            final(self).wf(),
            final(self).spec_address() == old(self).spec_address(),
            final(self).spec_port() == old(self).spec_port(),
            final(self).spec_kind() == old(self).spec_kind(),
            final(self).bound_socket() == old(self).bound_socket(),
            match r {
                InboundAction::Resolve(slot, body) => {
                    &&& msg matches SocketMessage::Response(resp)
                    &&& old(self).pending().contains_key(resp.id@)
                    &&& slot == old(self).pending()[resp.id@]
                    &&& body == resp.body
                    &&& final(self).pending() == old(self).pending().remove(resp.id@)
                },
                InboundAction::DropUnmatched(dropped) => {
                    &&& msg matches SocketMessage::Response(resp)
                    &&& !old(self).pending().contains_key(resp.id@)
                    &&& dropped == resp
                    &&& final(self).pending() == old(self).pending()
                },
                InboundAction::UnsupportedRequest(req) => {
                    &&& msg matches SocketMessage::Request(sr)
                    &&& req == sr
                    &&& final(self).pending() == old(self).pending()
                },
            },
    {
        route_message(&mut self.requests, msg)
    }

    /// Whether a call with this correlation id is outstanding.
    pub fn has_pending(&self, id: &str) -> (r: bool)
        requires
            self.wf(),
        ensures
            r == self.pending().contains_key(id@),
    {
        self.requests.contains(id)
    }
}

/// Relies on `nanoid::format` with `nanoid::rngs::default` and the URL-safe
/// alphabet: a random correlation id of 21 characters.  The characters are
/// random, so nothing is promised of them beyond their count.
#[verifier::external_body]
pub fn fresh_correlation_id() -> (r: String)
    ensures
        r@.len() == 21,
{
    nanoid::format(nanoid::rngs::default, &nanoid::alphabet::SAFE, 21)
}

} // verus!
