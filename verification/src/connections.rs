//! The table of live connections.
//!
//! Its value is a multiset: a peer may hold several connections, and two of
//! them may agree in peer, remote address and direction.

use vstd::prelude::*;
use vstd::multiset::Multiset;
use crate::address::PeerId;
use crate::event::{ConnectionView, PeerConnection};

verus! {

/// The values of a list of connections, in order.
pub open spec fn connection_views(list: Seq<PeerConnection>) -> Seq<ConnectionView> {
    list.map_values(|c: PeerConnection| c@)
}

/// Some live connection belongs to `peer`.
pub open spec fn peer_connected(live: Multiset<ConnectionView>, peer: Seq<char>) -> bool {
    exists|c: ConnectionView| live.count(c) > 0 && c.peer == peer
}

/// Live connections, oldest first.
pub struct ConnectionTable {
    live: Vec<PeerConnection>,
}

impl View for ConnectionTable {
    type V = Multiset<ConnectionView>;

    closed spec fn view(&self) -> Multiset<ConnectionView> {
        connection_views(self.live@).to_multiset()
    }
}

impl ConnectionTable {
    /// The empty table.
    pub fn new() -> (table: ConnectionTable)
        ensures
            table@ == Multiset::<ConnectionView>::empty(),
    {
        let table = ConnectionTable { live: Vec::new() };
        proof {
            assert(connection_views(table.live@) =~= Seq::<ConnectionView>::empty());
            broadcast use vstd::seq_lib::group_to_multiset_ensures;
            assert(table@ =~= Multiset::<ConnectionView>::empty());
        }
        table
    }

    /// Records one more live connection.
    pub fn open(&mut self, connection: PeerConnection)
        ensures
            final(self)@ == old(self)@.insert(connection@),
    {
        proof {
            assert(connection_views(self.live@.push(connection)) =~= connection_views(
                self.live@,
            ).push(connection@));
            vstd::seq_lib::to_multiset_build(connection_views(self.live@), connection@);
        }
        self.live.push(connection);
    }

    /// Takes one connection equal to `connection` out of the table, the
    /// oldest such, and says whether there was one.
    pub fn close(&mut self, connection: &PeerConnection) -> (was_live: bool)
        ensures
            was_live == (old(self)@.count(connection@) > 0),
            final(self)@ == old(self)@.remove(connection@),
    {
        let n: usize = self.live.len();
        let mut i: usize = 0;
        while i < n
            invariant
                n == self.live@.len(),
                i <= n,
                *self == *old(self),
                forall|j: int| 0 <= j < i ==> self.live@[j]@ != connection@,
            decreases n - i,
        {
            if self.live[i] == *connection {
                proof {
                    let before = connection_views(self.live@);
                    assert(connection_views(self.live@.remove(i as int)) =~= before.remove(
                        i as int,
                    ));
                    vstd::seq_lib::to_multiset_remove(before, i as int);
                    before.to_multiset_ensures();
                    assert(before.contains(connection@)) by {
                        assert(before[i as int] == connection@);
                    }
                }
                self.live.remove(i);
                return true;
            }
            i += 1;
        }
        proof {
            let before = connection_views(self.live@);
            before.to_multiset_ensures();
            assert(!before.contains(connection@));
            assert(self@ =~= self@.remove(connection@));
        }
        false
    }

    /// Whether `peer` holds at least one live connection.
    pub fn is_connected(&self, peer: &PeerId) -> (connected: bool)
        ensures
            connected == peer_connected(self@, peer@),
    {
        let n: usize = self.live.len();
        let mut i: usize = 0;
        while i < n
            invariant
                n == self.live@.len(),
                i <= n,
                forall|j: int| 0 <= j < i ==> self.live@[j].peer@ != peer@,
            decreases n - i,
        {
            if self.live[i].peer == *peer {
                proof {
                    let all = connection_views(self.live@);
                    all.to_multiset_ensures();
                    assert(all.contains(all[i as int]));
                    assert(self@.count(all[i as int]) > 0 && all[i as int].peer == peer@);
                }
                return true;
            }
            i += 1;
        }
        proof {
            let all = connection_views(self.live@);
            all.to_multiset_ensures();
            assert forall|c: ConnectionView| self@.count(c) > 0 implies c.peer != peer@ by {
                assert(all.contains(c));
                let j = choose|j: int| 0 <= j < all.len() && all[j] == c;
                assert(self.live@[j].peer@ != peer@);
            }
        }
        false
    }

    /// How many live connections there are.
    pub fn len(&self) -> (n: usize)
        ensures
            n == self@.len(),
    {
        proof {
            connection_views(self.live@).to_multiset_ensures();
        }
        self.live.len()
    }

    /// How many live connections equal `connection`.
    pub fn count(&self, connection: &PeerConnection) -> (n: usize)
        ensures
            n == self@.count(connection@),
    {
        let total: usize = self.live.len();
        let mut n: usize = 0;
        let mut i: usize = 0;
        proof {
            let none = connection_views(self.live@).subrange(0, 0);
            none.to_multiset_ensures();
            assert(none.to_multiset().len() == 0);
            assert(none.to_multiset().count(connection@) == 0);
        }
        while i < total
            invariant
                total == self.live@.len(),
                i <= total,
                n <= i,
                n == connection_views(self.live@).subrange(0, i as int).to_multiset().count(
                    connection@,
                ),
            decreases total - i,
        {
            proof {
                let all = connection_views(self.live@);
                assert(all.subrange(0, i + 1) =~= all.subrange(0, i as int).push(all[i as int]));
                vstd::seq_lib::to_multiset_build(all.subrange(0, i as int), all[i as int]);
            }
            if self.live[i] == *connection {
                n += 1;
            }
            i += 1;
        }
        proof {
            let all = connection_views(self.live@);
            assert(all.subrange(0, total as int) =~= all);
        }
        n
    }
}

} // verus!
