//! The handler registry and the unary dispatch path.
//!
//! `register` inserts or replaces under an identifier (last write wins);
//! `lookup` is a pure read.  `dispatch` decodes the call body, looks the
//! handler up, invokes it exactly once, and checks that its output encodes;
//! `http_reply` maps the outcome onto the HTTP surface.

use vstd::prelude::*;

use crate::errors::{DispatchError, DispatchErrorModel};
use crate::handler::Handler;
use crate::json::{json_valid, spec_json_valid};
use crate::protocol::{decode_parameters, spec_decode_parameters, Response};
use crate::strmap::StringMap;

verus! {

/// The concurrent map from identifier to handler owned by the engine.
pub struct HandlerRegistry<H> {
    map: StringMap<H>,
}

impl<H> View for HandlerRegistry<H> {
    type V = Map<Seq<char>, H>;

    closed spec fn view(&self) -> Map<Seq<char>, H> {
        self.map@
    }
}

impl<H> HandlerRegistry<H> {
    pub closed spec fn wf(self) -> bool {
        self.map.wf()
    }

    /// The empty registry.
    pub fn new() -> (r: Self)
        ensures
            r.wf(),
            r@ == Map::<Seq<char>, H>::empty(),
    {
        HandlerRegistry { map: StringMap::new() }
    }

    /// Inserts or replaces the handler under `identifier`; no duplicate-key
    /// error is raised, the last write wins.
    pub fn register(&mut self, identifier: String, handler: H)
        requires
            old(self).wf(),
        ensures
            final(self).wf(),
            final(self)@ == old(self)@.insert(identifier@, handler),
    {
        self.map.insert(identifier, handler);
    }

    /// The handler under `identifier`, if any; a pure read.
    pub fn lookup(&self, identifier: &str) -> (r: Option<&H>)
        requires
            self.wf(),
        ensures
            match r {
                Some(h) => self@.contains_key(identifier@) && *h == self@[identifier@],
                None => !self@.contains_key(identifier@),
            },
    {
        self.map.get(identifier)
    }
}

/// What a unary call returns: the raw JSON text of the handler's value, or
/// the dispatch error, for a registry, an identifier and a raw call body.
pub open spec fn spec_dispatch<H: Handler>(
    handlers: Map<Seq<char>, H>,
    identifier: Seq<char>,
    body: Seq<char>,
) -> Result<Seq<char>, DispatchErrorModel> {
    match spec_decode_parameters(body) {
        None => Err(DispatchErrorModel::Decode),
        Some(params) => if !handlers.contains_key(identifier) {
            Err(DispatchErrorModel::HandlerNotFound)
        } else {
            match handlers[identifier].result_of(params) {
                Err(msg) => Err(DispatchErrorModel::Handler(msg)),
                Ok(out) => if spec_json_valid(out) {
                    Ok(out)
                } else {
                    Err(DispatchErrorModel::Encode)
                },
            }
        },
    }
}

/// Dispatches one unary call: decode, look up, invoke once, encode.
/// Proved equal to [`spec_dispatch`]; the handler is invoked only in the
/// registered case, never on an unknown identifier or a malformed body.
pub fn dispatch<H: Handler>(registry: &HandlerRegistry<H>, identifier: &str, body: &str) -> (r:
    Result<Response, DispatchError>)
    requires
        registry.wf(),
    ensures
        match r {
            Ok(resp) => spec_dispatch(registry@, identifier@, body@) == Ok::<
                Seq<char>,
                DispatchErrorModel,
            >(resp.body@),
            Err(e) => spec_dispatch(registry@, identifier@, body@) == Err::<
                Seq<char>,
                DispatchErrorModel,
            >(e@),
        },
{
    let params = match decode_parameters(body) {
        Some(p) => p,
        None => {
            return Err(DispatchError::Decode);
        },
    };
    let handler = match registry.lookup(identifier) {
        Some(h) => h,
        None => {
            return Err(DispatchError::HandlerNotFound);
        },
    };
    let out = match handler.invoke(&params) {
        Ok(o) => o,
        Err(msg) => {
            return Err(DispatchError::Handler(msg));
        },
    };
    if json_valid(out.as_str()) {
        Ok(Response { body: out })
    } else {
        Err(DispatchError::Encode)
    }
}

/// One reply on the HTTP surface: a status code and a plain body.
pub struct HttpReply {
    pub status: u16,
    pub body: String,
}

/// The HTTP mapping of a dispatch outcome: the handler's JSON result with
/// status 200; "Handler not found." with 404; every other failure as
/// "Please see the server logs." with 500.
pub open spec fn spec_http_reply(r: Result<Seq<char>, DispatchErrorModel>) -> (int, Seq<char>) {
    match r {
        Ok(body) => (200int, body),
        Err(DispatchErrorModel::HandlerNotFound) => (404int, ("Handler not found.")@),
        Err(_) => (500int, ("Please see the server logs.")@),
    }
}

/// Maps a dispatch outcome onto the HTTP surface, proved equal to
/// [`spec_http_reply`].  Failures never escape as anything but a status
/// and a plain body, so one failed call leaves the dispatcher serving.
pub fn http_reply(r: Result<Response, DispatchError>) -> (rep: HttpReply)
    ensures
        ({
            let m = spec_http_reply(
                match r {
                    Ok(resp) => Ok(resp.body@),
                    Err(e) => Err(e@),
                },
            );
            rep.status == m.0 && rep.body@ == m.1
        }),
{
    match r {
        Ok(resp) => HttpReply { status: 200, body: resp.body },
        Err(DispatchError::HandlerNotFound) => HttpReply {
            status: 404,
            body: String::from_str("Handler not found."),
        },
        Err(_) => HttpReply { status: 500, body: String::from_str("Please see the server logs.") },
    }
}

/// Round trip: a call to a registered handler with a body that decodes
/// returns exactly the result the handler declares for those parameters —
/// its value when that value is one well-formed JSON text, its reported
/// error otherwise.
pub proof fn lemma_dispatch_round_trip<H: Handler>(
    handlers: Map<Seq<char>, H>,
    identifier: Seq<char>,
    body: Seq<char>,
    params: Option<Seq<Seq<char>>>,
)
    requires
        handlers.contains_key(identifier),
        spec_decode_parameters(body) == Some(params),
    ensures
        spec_dispatch(handlers, identifier, body) == (match handlers[identifier].result_of(
            params,
        ) {
            Err(msg) => Err::<Seq<char>, DispatchErrorModel>(DispatchErrorModel::Handler(msg)),
            Ok(out) => if spec_json_valid(out) {
                Ok::<Seq<char>, DispatchErrorModel>(out)
            } else {
                Err::<Seq<char>, DispatchErrorModel>(DispatchErrorModel::Encode)
            },
        }),
{
}

/// Unknown identifier: a call whose body decodes but whose identifier has
/// no registered handler returns exactly `HandlerNotFound`.
pub proof fn lemma_dispatch_unknown_identifier<H: Handler>(
    handlers: Map<Seq<char>, H>,
    identifier: Seq<char>,
    body: Seq<char>,
)
    requires
        !handlers.contains_key(identifier),
        spec_decode_parameters(body) is Some,
    ensures
        spec_dispatch(handlers, identifier, body) == Err::<Seq<char>, DispatchErrorModel>(
            DispatchErrorModel::HandlerNotFound,
        ),
{
}

/// Replacement: re-registering an identifier overwrites the prior handler,
/// so every later call dispatches as if only the latest registration had
/// ever happened.
pub proof fn lemma_register_replaces<H: Handler>(
    handlers: Map<Seq<char>, H>,
    identifier: Seq<char>,
    first: H,
    second: H,
    body: Seq<char>,
)
    ensures
        spec_dispatch(handlers.insert(identifier, first).insert(identifier, second), identifier,
            body) == spec_dispatch(handlers.insert(identifier, second), identifier, body),
{
    assert(handlers.insert(identifier, first).insert(identifier, second) =~= handlers.insert(
        identifier,
        second,
    ));
}

} // verus!
