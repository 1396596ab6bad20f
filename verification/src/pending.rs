//! The pending-call table: correlation ids of outstanding persistent
//! transport calls, each mapped to a single-use completion slot, and the
//! routing of inbound frames against that table.
//!
//! The slot type is the embedder's: a completion channel, a token, anything
//! that resolves one suspended caller.  An entry is inserted immediately
//! before its call frame is sent and removed by the first matching reply; a
//! reply with no matching entry leaves the table untouched and is dropped.

use vstd::prelude::*;

use crate::protocol::{Response, SocketMessage, SocketRequest, SocketResponse};
use crate::strmap::StringMap;

verus! {

/// The table of outstanding calls, keyed by correlation id.
pub struct PendingCalls<S> {
    map: StringMap<S>,
}

impl<S> View for PendingCalls<S> {
    type V = Map<Seq<char>, S>;

    closed spec fn view(&self) -> Map<Seq<char>, S> {
        self.map@
    }
}

impl<S> PendingCalls<S> {
    pub closed spec fn wf(self) -> bool {
        self.map.wf()
    }

    /// The empty table.
    pub fn new() -> (r: Self)
        ensures
            r.wf(),
            r@ == Map::<Seq<char>, S>::empty(),
    {
        PendingCalls { map: StringMap::new() }
    }

    /// Registers the completion slot for a call about to be sent.  At most
    /// one entry per id: a second insert under one id replaces the first.
    pub fn insert(&mut self, id: String, slot: S)
        requires
            old(self).wf(),
        ensures
            final(self).wf(),
            final(self)@ == old(self)@.insert(id@, slot),
    {
        self.map.insert(id, slot);
    }

    /// Whether a call with this correlation id is outstanding.
    pub fn contains(&self, id: &str) -> (r: bool)
        requires
            self.wf(),
        ensures
            r == self@.contains_key(id@),
    {
        self.map.contains_key(id)
    }

    /// Removes and returns the slot for this id, if one is outstanding.
    pub fn remove(&mut self, id: &str) -> (r: Option<S>)
        requires
            old(self).wf(),
        ensures
            final(self).wf(),
            match r {
                Some(slot) => old(self)@.contains_key(id@) && slot == old(self)@[id@]
                    && final(self)@ == old(self)@.remove(id@),
                None => !old(self)@.contains_key(id@) && final(self)@ == old(self)@,
            },
    {
        self.map.remove(id)
    }
}

/// What the inbound loop does with one classified frame.
pub enum InboundAction<S> {
    /// A reply matched this outstanding call: resolve its slot with the
    /// call's result.
    Resolve(S, Result<Response, String>),
    /// A reply whose id has no pending entry: logged and dropped, never an
    /// error to the peer.
    DropUnmatched(SocketResponse),
    /// A call arrived, but this side does not serve requests over the
    /// persistent transport: an explicit unsupported-operation outcome.
    UnsupportedRequest(SocketRequest),
}

/// Classifies one inbound frame against the pending-call table: a matching
/// reply removes exactly its own entry; an unmatched reply and a call
/// leave the table untouched.
pub fn route_message<S>(pending: &mut PendingCalls<S>, msg: SocketMessage) -> (r: InboundAction<S>)
    requires
        old(pending).wf(),
    ensures
        final(pending).wf(),
        match r {
            InboundAction::Resolve(slot, body) => {
                &&& msg matches SocketMessage::Response(resp)
                &&& old(pending)@.contains_key(resp.id@)
                &&& slot == old(pending)@[resp.id@]
                &&& body == resp.body
                &&& final(pending)@ == old(pending)@.remove(resp.id@)
            },
            InboundAction::DropUnmatched(dropped) => {
                &&& msg matches SocketMessage::Response(resp)
                &&& !old(pending)@.contains_key(resp.id@)
                &&& dropped == resp
                &&& final(pending)@ == old(pending)@
            },
            InboundAction::UnsupportedRequest(req) => {
                &&& msg matches SocketMessage::Request(sr)
                &&& req == sr
                &&& final(pending)@ == old(pending)@
            },
        },
{
    match msg {
        SocketMessage::Request(sr) => InboundAction::UnsupportedRequest(sr),
        SocketMessage::Response(resp) => {
            match pending.remove(resp.id.as_str()) {
                Some(slot) => InboundAction::Resolve(slot, resp.body),
                None => InboundAction::DropUnmatched(resp),
            }
        },
    }
}

/// Concurrent correlation: while several calls with distinct ids are
/// outstanding, resolving one removes exactly its own entry; every other
/// outstanding call keeps its own slot, whatever order replies arrive in.
pub proof fn lemma_correlation_independence<S>(
    table: Map<Seq<char>, S>,
    resolved: Seq<char>,
    other: Seq<char>,
)
    requires
        table.contains_key(resolved),
        table.contains_key(other),
        resolved != other,
    ensures
        !table.remove(resolved).contains_key(resolved),
        table.remove(resolved).contains_key(other),
        table.remove(resolved)[other] == table[other],
{
}

} // verus!
