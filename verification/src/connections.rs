//! Live persistent-transport connections and the on-connect subscribers.
//!
//! The engine sees one connection as its role label and a numeric handle;
//! the duplex stream and its two queue-driven loops live with the embedding
//! layer under the same handle.  Subscribers are the embedder's callback
//! values; the registry only fixes which connections each subscriber is
//! told about and in what order: every live connection is replayed to a new
//! subscriber at once, and a new connection is announced to every
//! subscriber already present, in subscription order.

use vstd::prelude::*;

verus! {

/// The engine's view of one live persistent-transport peer: the role label
/// the peer supplied at connect time, and the embedder's handle for the
/// underlying stream.
pub struct Socket {
    pub role: String,
    pub conn_id: u64,
}

pub struct SocketModel {
    pub role: Seq<char>,
    pub conn_id: u64,
}

impl View for Socket {
    type V = SocketModel;

    open spec fn view(&self) -> SocketModel {
        SocketModel { role: self.role@, conn_id: self.conn_id }
    }
}

/// The views of a sequence of sockets, in order.
pub open spec fn socket_views(s: Seq<Socket>) -> Seq<SocketModel> {
    s.map_values(|x: Socket| x@)
}

proof fn lemma_socket_views_index(s: Seq<Socket>, j: int)
    requires
        0 <= j < s.len(),
    ensures
        socket_views(s).len() == s.len(),
        socket_views(s)[j] == s[j]@,
{
}

/// The set of live connections and the list of on-connect subscribers.
pub struct ConnectionRegistry<CB> {
    connections: Vec<Socket>,
    subscribers: Vec<CB>,
}

impl<CB> ConnectionRegistry<CB> {
    /// The live connections, in the order they connected.
    pub closed spec fn connections(&self) -> Seq<SocketModel> {
        socket_views(self.connections@)
    }

    /// The subscribers, in subscription order.
    pub closed spec fn subscribers(&self) -> Seq<CB> {
        self.subscribers@
    }

    /// No connections, no subscribers.
    pub fn new() -> (r: Self)
        ensures
            r.connections() == Seq::<SocketModel>::empty(),
            r.subscribers() == Seq::<CB>::empty(),
    {
        let r = ConnectionRegistry { connections: Vec::new(), subscribers: Vec::new() };
        proof {
            assert(r.connections() =~= Seq::<SocketModel>::empty());
        }
        r
    }

    /// Adds a subscriber and hands back every connection that is already
    /// live, in connection order, so that no connection announcement is
    /// ever missed however late the subscription comes.
    pub fn subscribe(&mut self, cb: CB) -> (replay: Vec<Socket>)
        ensures
            final(self).subscribers() == old(self).subscribers().push(cb),
            final(self).connections() == old(self).connections(),
            socket_views(replay@) == old(self).connections(),
    {
        let mut replay: Vec<Socket> = Vec::new();
        let n: usize = self.connections.len();
        let mut i: usize = 0;
        while i < n
            invariant
                n == self.connections@.len(),
                i <= n,
                replay@.len() == i,
                socket_views(replay@) =~= socket_views(self.connections@).take(i as int),
            decreases n - i,
        {
            let c = &self.connections[i];
            let copy = Socket { role: c.role.clone(), conn_id: c.conn_id };
            proof {
                assert(copy@ == self.connections@[i as int]@);
            }
            replay.push(copy);
            proof {
                assert forall|j: int| 0 <= j < i + 1 implies socket_views(replay@)[j]
                    == socket_views(self.connections@).take(i as int + 1)[j] by {
                    lemma_socket_views_index(replay@, j);
                    lemma_socket_views_index(self.connections@, j);
                }
                assert(socket_views(replay@) =~= socket_views(self.connections@).take(
                    i as int + 1,
                ));
            }
            i += 1;
        }
        self.subscribers.push(cb);
        proof {
            assert(socket_views(self.connections@).take(n as int) =~= socket_views(
                self.connections@,
            ));
        }
        replay
    }

    /// Records a new live connection.  The embedding layer then announces
    /// it to `subscriber_count` subscribers, in subscription order.
    pub fn add_connection(&mut self, socket: Socket)
        ensures
            final(self).connections() == old(self).connections().push(socket@),
            final(self).subscribers() == old(self).subscribers(),
    {
        let ghost before = self.connections@;
        self.connections.push(socket);
        proof {
            assert(socket_views(self.connections@) =~= socket_views(before).push(
                self.connections@.last()@,
            ));
        }
    }

    /// How many subscribers are present.
    pub fn subscriber_count(&self) -> (r: usize)
        ensures
            r == self.subscribers().len(),
    {
        self.subscribers.len()
    }

    /// The subscriber at `i`, in subscription order.
    pub fn subscriber_at(&self, i: usize) -> (r: &CB)
        requires
            i < self.subscribers().len(),
        ensures
            *r == self.subscribers()[i as int],
    {
        &self.subscribers[i]
    }

    /// How many connections are live.
    pub fn connection_count(&self) -> (r: usize)
        ensures
            r == self.connections().len(),
    {
        self.connections.len()
    }

    /// The connection at `i`, in connection order.
    pub fn connection_at(&self, i: usize) -> (r: &Socket)
        requires
            i < self.connections().len(),
        ensures
            r@ == self.connections()[i as int],
    {
        &self.connections[i]
    }
}

} // verus!
