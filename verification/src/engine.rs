//! The engine: one value owning the handler registry and the connection
//! registry, with a construct → run → stop lifecycle.  No process-wide
//! state: several engines may coexist, and the embedding layer decides how
//! an engine is shared (registration is expected before serving starts, or
//! behind the embedder's own exclusion).
//!
//! `run` and `stop` are the decision half of the lifecycle: `run` refuses a
//! second start and hands the embedding layer the serving configuration to
//! bind; `stop` refuses to stop an engine that is not running and otherwise
//! marks it stopped, upon which the embedder signals its graceful shutdown.

use vstd::prelude::*;

use crate::connections::{ConnectionRegistry, Socket, SocketModel};
use crate::errors::{DispatchError, LifecycleError};
use crate::handler::Handler;
use crate::protocol::Response;
use crate::registry::{dispatch, HandlerRegistry};
use crate::text::str_eq;

verus! {

/// Construction options: the port to serve on and the allowed CORS
/// origins, where the entry `"*"` stands for any origin.
pub struct ServerOptions {
    pub port: u16,
    pub allowed_cors_origins: Vec<String>,
}

/// The views of a sequence of strings, in order.
pub open spec fn string_views(s: Seq<String>) -> Seq<Seq<char>> {
    s.map_values(|x: String| x@)
}

/// Whether some origin entry is the wildcard `"*"`.
pub open spec fn contains_wildcard(origins: Seq<Seq<char>>) -> bool {
    exists|i: int| 0 <= i < origins.len() && origins[i] == ("*")@
}

/// The cross-origin policy the embedding layer applies: any origin when the
/// wildcard entry is present, exactly the listed origins otherwise.
/// Credentials are always permitted alongside either policy.
pub enum CorsPolicy {
    AllowAny,
    AllowList(Vec<String>),
}

fn cors_policy_of(origins: &Vec<String>) -> (r: CorsPolicy)
    ensures
        contains_wildcard(string_views(origins@)) ==> r is AllowAny,
        !contains_wildcard(string_views(origins@)) ==> (r matches CorsPolicy::AllowList(l)
            && string_views(l@) == string_views(origins@)),
{
    let n: usize = origins.len();
    let mut i: usize = 0;
    while i < n
        invariant
            n == origins@.len(),
            i <= n,
            forall|j: int| 0 <= j < i ==> (#[trigger] origins@[j])@ != ("*")@,
        decreases n - i,
    {
        if str_eq(origins[i].as_str(), "*") {
            proof {
                assert(string_views(origins@)[i as int] == origins@[i as int]@);
            }
            return CorsPolicy::AllowAny;
        }
        i += 1;
    }
    proof {
        assert forall|j: int| 0 <= j < origins@.len() implies string_views(origins@)[j] != ("*")@
            by {
            assert(string_views(origins@)[j] == origins@[j]@);
        }
    }
    let mut list: Vec<String> = Vec::new();
    let mut i: usize = 0;
    while i < n
        invariant
            n == origins@.len(),
            i <= n,
            list@.len() == i,
            string_views(list@) =~= string_views(origins@).take(i as int),
        decreases n - i,
    {
        list.push(origins[i].clone());
        proof {
            assert forall|j: int| 0 <= j < i + 1 implies string_views(list@)[j] == string_views(
                origins@,
            ).take(i as int + 1)[j] by {
                assert(string_views(list@)[j] == list@[j]@);
                assert(string_views(origins@)[j] == origins@[j]@);
            }
            assert(string_views(list@) =~= string_views(origins@).take(i as int + 1));
        }
        i += 1;
    }
    proof {
        assert(string_views(origins@).take(n as int) =~= string_views(origins@));
    }
    CorsPolicy::AllowList(list)
}

/// What the embedding layer binds when the engine starts serving.
pub struct ServeConfig {
    pub port: u16,
    pub enabled_sockets: bool,
    pub cors: CorsPolicy,
}

/// The RPC engine: handler registry, connection registry, lifecycle.
pub struct ERPCServer<H, CB> {
    port: u16,
    allowed_cors_origins: Vec<String>,
    enabled_sockets: bool,
    running: bool,
    handlers: HandlerRegistry<H>,
    connections: ConnectionRegistry<CB>,
}

impl<H: Handler, CB> ERPCServer<H, CB> {
    pub closed spec fn wf(self) -> bool {
        self.handlers.wf()
    }

    /// The registered handlers, by identifier.
    pub closed spec fn handlers(&self) -> Map<Seq<char>, H> {
        self.handlers@
    }

    /// The live connections, in connection order.
    pub closed spec fn connections(&self) -> Seq<SocketModel> {
        self.connections.connections()
    }

    /// The on-connect subscribers, in subscription order.
    pub closed spec fn subscribers(&self) -> Seq<CB> {
        self.connections.subscribers()
    }

    pub closed spec fn spec_port(&self) -> u16 {
        self.port
    }

    pub closed spec fn spec_origins(&self) -> Seq<Seq<char>> {
        string_views(self.allowed_cors_origins@)
    }

    pub closed spec fn spec_sockets_enabled(&self) -> bool {
        self.enabled_sockets
    }

    /// Whether the engine is serving.
    pub closed spec fn is_running(&self) -> bool {
        self.running
    }

    /// A stopped engine with no handlers, no connections, no subscribers.
    pub fn new(options: ServerOptions, enable_sockets: bool) -> (r: Self)
        ensures
            r.wf(),
            !r.is_running(),
            r.spec_port() == options.port,
            r.spec_origins() == string_views(options.allowed_cors_origins@),
            r.spec_sockets_enabled() == enable_sockets,
            r.handlers() == Map::<Seq<char>, H>::empty(),
            r.connections() == Seq::<SocketModel>::empty(),
            r.subscribers() == Seq::<CB>::empty(),
    {
        ERPCServer {
            port: options.port,
            allowed_cors_origins: options.allowed_cors_origins,
            enabled_sockets: enable_sockets,
            running: false,
            handlers: HandlerRegistry::new(),
            connections: ConnectionRegistry::new(),
        }
    }

    /// Registers `handler` under `identifier`, replacing any prior handler
    /// under that identifier; everything else is untouched.
    pub fn register_handler(&mut self, identifier: String, handler: H)
        requires
            old(self).wf(),
        ensures
            final(self).wf(),
            final(self).handlers() == old(self).handlers().insert(identifier@, handler),
            final(self).connections() == old(self).connections(),
            final(self).subscribers() == old(self).subscribers(),
            final(self).is_running() == old(self).is_running(),
            final(self).spec_port() == old(self).spec_port(),
            final(self).spec_origins() == old(self).spec_origins(),
            final(self).spec_sockets_enabled() == old(self).spec_sockets_enabled(),
    {
        self.handlers.register(identifier, handler);
    }

    /// Dispatches one unary call against the registered handlers; see
    /// [`crate::registry::dispatch`].
    pub fn dispatch_call(&self, identifier: &str, body: &str) -> (r: Result<
        Response,
        DispatchError,
    >)
        requires
            self.wf(),
        ensures
            match r {
                Ok(resp) => crate::registry::spec_dispatch(self.handlers(), identifier@, body@)
                    == Ok::<Seq<char>, crate::errors::DispatchErrorModel>(resp.body@),
                Err(e) => crate::registry::spec_dispatch(self.handlers(), identifier@, body@)
                    == Err::<Seq<char>, crate::errors::DispatchErrorModel>(e@),
            },
    {
        dispatch(&self.handlers, identifier, body)
    }

    /// Subscribes an on-connect callback and hands back every connection
    /// already live, in connection order, for immediate replay.
    pub fn register_socket_connection_callback(&mut self, cb: CB) -> (replay: Vec<Socket>)
        requires
            old(self).wf(),
        ensures
            final(self).wf(),
            final(self).subscribers() == old(self).subscribers().push(cb),
            crate::connections::socket_views(replay@) == old(self).connections(),
            final(self).connections() == old(self).connections(),
            final(self).handlers() == old(self).handlers(),
            final(self).is_running() == old(self).is_running(),
            final(self).spec_port() == old(self).spec_port(),
            final(self).spec_origins() == old(self).spec_origins(),
            final(self).spec_sockets_enabled() == old(self).spec_sockets_enabled(),
    {
        self.connections.subscribe(cb)
    }

    /// Records a new live connection; the embedding layer then announces it
    /// to every subscriber, in subscription order.
    pub fn socket_connected(&mut self, socket: Socket)
        requires
            old(self).wf(),
        ensures
            final(self).wf(),
            final(self).connections() == old(self).connections().push(socket@),
            final(self).subscribers() == old(self).subscribers(),
            final(self).handlers() == old(self).handlers(),
            final(self).is_running() == old(self).is_running(),
            final(self).spec_port() == old(self).spec_port(),
            final(self).spec_origins() == old(self).spec_origins(),
            final(self).spec_sockets_enabled() == old(self).spec_sockets_enabled(),
    {
        self.connections.add_connection(socket);
    }

    /// How many subscribers are present.
    pub fn subscriber_count(&self) -> (r: usize)
        ensures
            r == self.subscribers().len(),
    {
        self.connections.subscriber_count()
    }

    /// The subscriber at `i`, in subscription order.
    pub fn subscriber_at(&self, i: usize) -> (r: &CB)
        requires
            i < self.subscribers().len(),
        ensures
            *r == self.subscribers()[i as int],
    {
        self.connections.subscriber_at(i)
    }

    /// Whether the persistent transport accepts upgrades at all.
    pub fn sockets_enabled(&self) -> (r: bool)
        ensures
            r == self.spec_sockets_enabled(),
    {
        self.enabled_sockets
    }

    /// Starts serving: refused while already running; otherwise the engine
    /// is marked running and the embedding layer receives the port, the
    /// socket switch and the CORS policy to bind.
    pub fn run(&mut self) -> (r: Result<ServeConfig, LifecycleError>)
        requires
            old(self).wf(),
        ensures
            final(self).wf(),
            final(self).handlers() == old(self).handlers(),
            final(self).connections() == old(self).connections(),
            final(self).subscribers() == old(self).subscribers(),
            final(self).spec_port() == old(self).spec_port(),
            final(self).spec_origins() == old(self).spec_origins(),
            final(self).spec_sockets_enabled() == old(self).spec_sockets_enabled(),
            match r {
                Ok(c) => {
                    &&& !old(self).is_running()
                    &&& final(self).is_running()
                    &&& c.port == old(self).spec_port()
                    &&& c.enabled_sockets == old(self).spec_sockets_enabled()
                    &&& (contains_wildcard(old(self).spec_origins()) ==> c.cors is AllowAny)
                    &&& (!contains_wildcard(old(self).spec_origins()) ==> (c.cors matches
                        CorsPolicy::AllowList(l) && string_views(l@) == old(self).spec_origins()))
                },
                Err(e) => {
                    &&& old(self).is_running()
                    &&& e is AlreadyRunning
                    &&& final(self).is_running()
                },
            },
    {
        if self.running {
            return Err(LifecycleError::AlreadyRunning);
        }
        self.running = true;
        let cors = cors_policy_of(&self.allowed_cors_origins);
        Ok(ServeConfig { port: self.port, enabled_sockets: self.enabled_sockets, cors })
    }

    /// Signals graceful shutdown: refused — an explicit error, not a crash
    /// and not a silent success — while nothing is running; otherwise the
    /// engine is marked stopped.
    pub fn stop(&mut self) -> (r: Result<(), LifecycleError>)
        requires
            old(self).wf(),
        ensures
            final(self).wf(),
            final(self).handlers() == old(self).handlers(),
            final(self).connections() == old(self).connections(),
            final(self).subscribers() == old(self).subscribers(),
            final(self).spec_port() == old(self).spec_port(),
            final(self).spec_origins() == old(self).spec_origins(),
            final(self).spec_sockets_enabled() == old(self).spec_sockets_enabled(),
            match r {
                Ok(()) => old(self).is_running() && !final(self).is_running(),
                Err(e) => !old(self).is_running() && e is NotRunning && !final(self).is_running(),
            },
    {
        if !self.running {
            return Err(LifecycleError::NotRunning);
        }
        self.running = false;
        Ok(())
    }
}

} // verus!
