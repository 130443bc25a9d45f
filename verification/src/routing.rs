//! The routing entries this node has fed to its routing table: for each
//! peer, the set of addresses it may be reached at.

use vstd::prelude::*;
use crate::address::{address_set, distinct_addresses, Address, PeerId};

verus! {

/// The table after `address` has been added to the entry of `peer`; the entry
/// is created when the peer had none.
pub open spec fn with_address(
    table: Map<Seq<char>, Set<Seq<char>>>,
    peer: Seq<char>,
    address: Seq<char>,
) -> Map<Seq<char>, Set<Seq<char>>> {
    let known = if table.dom().contains(peer) {
        table[peer]
    } else {
        Set::empty()
    };
    table.insert(peer, known.insert(address))
}

/// One peer with the addresses known for it, in the order they were learnt.
#[derive(Debug)]
pub struct RoutingEntry {
    pub peer: PeerId,
    pub addresses: Vec<Address>,
}

/// One address of one peer.
struct Link {
    peer: PeerId,
    address: Address,
}

impl Clone for Link {
    fn clone(&self) -> (copy: Self)
        ensures
            copy == *self,
    {
        Link { peer: self.peer.clone(), address: self.address.clone() }
    }
}

spec fn joins(link: Link, peer: Seq<char>, address: Seq<char>) -> bool {
    link.peer@ == peer && link.address@ == address
}

spec fn has_link(links: Seq<Link>, peer: Seq<char>, address: Seq<char>) -> bool {
    exists|i: int| 0 <= i < links.len() && joins(#[trigger] links[i], peer, address)
}

spec fn has_peer(links: Seq<Link>, peer: Seq<char>) -> bool {
    exists|i: int| 0 <= i < links.len() && (#[trigger] links[i]).peer@ == peer
}

spec fn distinct_links(links: Seq<Link>) -> bool {
    forall|i: int, j: int|
        0 <= i < j < links.len() ==> !joins(#[trigger] links[i], links[j].peer@, (#[trigger] links[j]).address@)
}

proof fn lemma_has_peer(links: Seq<Link>, peer: Seq<char>)
    ensures
        has_peer(links, peer) <==> exists|a: Seq<char>| has_link(links, peer, a),
{
    if has_peer(links, peer) {
        let i = choose|i: int| 0 <= i < links.len() && (#[trigger] links[i]).peer@ == peer;
        assert(joins(links[i], peer, links[i].address@));
        assert(has_link(links, peer, links[i].address@));
    }
    if exists|a: Seq<char>| has_link(links, peer, a) {
        let a = choose|a: Seq<char>| has_link(links, peer, a);
        let i = choose|i: int| 0 <= i < links.len() && joins(#[trigger] links[i], peer, a);
        assert(links[i].peer@ == peer);
    }
}

proof fn lemma_push(links: Seq<Link>, link: Link, peer: Seq<char>, address: Seq<char>)
    ensures
        has_link(links.push(link), peer, address) <==> has_link(links, peer, address) || joins(
            link,
            peer,
            address,
        ),
{
    let more = links.push(link);
    if has_link(links, peer, address) {
        let i = choose|i: int| 0 <= i < links.len() && joins(#[trigger] links[i], peer, address);
        assert(joins(more[i], peer, address));
    }
    if joins(link, peer, address) {
        assert(joins(more[links.len() as int], peer, address));
    }
    if has_link(more, peer, address) {
        let i = choose|i: int| 0 <= i < more.len() && joins(#[trigger] more[i], peer, address);
        if i < links.len() {
            assert(joins(links[i], peer, address));
        }
    }
}

/// Routing entries, as links in the order they were learnt.
pub struct RoutingTable {
    links: Vec<Link>,
}

impl View for RoutingTable {
    type V = Map<Seq<char>, Set<Seq<char>>>;

    closed spec fn view(&self) -> Map<Seq<char>, Set<Seq<char>>> {
        Map::new(
            |peer: Seq<char>| has_peer(self.links@, peer),
            |peer: Seq<char>| Set::new(|address: Seq<char>| has_link(self.links@, peer, address)),
        )
    }
}

impl RoutingTable {
    /// No link is held twice.
    pub closed spec fn wf(&self) -> bool {
        distinct_links(self.links@)
    }

    /// The table with no entry.
    pub fn new() -> (table: RoutingTable)
        ensures
            table.wf(),
            table@ == Map::<Seq<char>, Set<Seq<char>>>::empty(),
    {
        let table = RoutingTable { links: Vec::new() };
        assert(table@ =~= Map::<Seq<char>, Set<Seq<char>>>::empty());
        table
    }

    /// Whether `address` is known for `peer`.
    pub fn has_address(&self, peer: &PeerId, address: &Address) -> (known: bool)
        ensures
            known == (self@.dom().contains(peer@) && self@[peer@].contains(address@)),
    {
        let n: usize = self.links.len();
        let mut i: usize = 0;
        while i < n
            invariant
                n == self.links@.len(),
                i <= n,
                forall|j: int| 0 <= j < i ==> !joins(#[trigger] self.links@[j], peer@, address@),
            decreases n - i,
        {
            if self.links[i].peer == *peer && self.links[i].address == *address {
                proof {
                    assert(joins(self.links@[i as int], peer@, address@));
                    lemma_has_peer(self.links@, peer@);
                }
                return true;
            }
            i += 1;
        }
        false
    }

    /// Whether the table holds an entry for `peer`.
    pub fn contains_peer(&self, peer: &PeerId) -> (known: bool)
        ensures
            known == self@.dom().contains(peer@),
    {
        let n: usize = self.links.len();
        let mut i: usize = 0;
        while i < n
            invariant
                n == self.links@.len(),
                i <= n,
                forall|j: int| 0 <= j < i ==> (#[trigger] self.links@[j]).peer@ != peer@,
            decreases n - i,
        {
            if self.links[i].peer == *peer {
                return true;
            }
            i += 1;
        }
        false
    }

    /// Adds `address` to the entry of `peer`, creating the entry if there is
    /// none.  An address already known is not added again.
    pub fn add_address(&mut self, peer: &PeerId, address: &Address)
        requires
            old(self).wf(),
        ensures
            final(self).wf(),
            final(self)@ == with_address(old(self)@, peer@, address@),
    {
        let known = self.has_address(peer, address);
        let ghost before = self.links@;
        if !known {
            let link = Link { peer: peer.clone(), address: address.clone() };
            self.links.push(link);
            proof {
                assert forall|i: int, j: int| 0 <= i < j < self.links@.len() implies !joins(
                    #[trigger] self.links@[i],
                    self.links@[j].peer@,
                    (#[trigger] self.links@[j]).address@,
                ) by {
                    if j == before.len() {
                        assert(self.links@[i] == before[i]);
                        if joins(before[i], peer@, address@) {
                            assert(has_link(before, peer@, address@));
                            lemma_has_peer(before, peer@);
                        }
                    } else {
                        assert(self.links@[i] == before[i] && self.links@[j] == before[j]);
                    }
                }
            }
        }
        proof {
            let after = self.links@;
            let goal = with_address(old(self)@, peer@, address@);
            assert forall|p: Seq<char>, a: Seq<char>| has_link(after, p, a) <==> has_link(
                before,
                p,
                a,
            ) || (p == peer@ && a == address@) by {
                if known {
                    lemma_has_peer(before, peer@);
                } else {
                    lemma_push(before, after[before.len() as int], p, a);
                    assert(after =~= before.push(after[before.len() as int]));
                }
            }
            assert forall|p: Seq<char>| has_peer(after, p) <==> has_peer(before, p) || p
                == peer@ by {
                lemma_has_peer(after, p);
                lemma_has_peer(before, p);
                if p == peer@ {
                    assert(has_link(after, p, address@));
                }
            }
            assert forall|p: Seq<char>| #[trigger] goal.dom().contains(p) implies self@[p]
                =~= goal[p] by {
                lemma_has_peer(before, p);
            }
            assert(self@ =~~= goal);
        }
    }

    /// Drops the entry of `peer`, and says whether there was one.
    pub fn remove_peer(&mut self, peer: &PeerId) -> (removed: bool)
        requires
            old(self).wf(),
        ensures
            final(self).wf(),
            removed == old(self)@.dom().contains(peer@),
            final(self)@ == old(self)@.remove(peer@),
    {
        let n: usize = self.links.len();
        let mut kept: Vec<Link> = Vec::new();
        let mut removed = false;
        let mut i: usize = 0;
        while i < n
            invariant
                n == self.links@.len(),
                i <= n,
                *self == *old(self),
                self.wf(),
                distinct_links(kept@),
                removed == has_peer(self.links@.subrange(0, i as int), peer@),
                forall|p: Seq<char>, a: Seq<char>|
                    #![trigger has_link(kept@, p, a)]
                    #![trigger has_link(self.links@.subrange(0, i as int), p, a)]
                    has_link(kept@, p, a) <==> p != peer@ && has_link(
                        self.links@.subrange(0, i as int),
                        p,
                        a,
                    ),
            decreases n - i,
        {
            let ghost seen = self.links@.subrange(0, i as int);
            let ghost next = self.links@.subrange(0, i + 1);
            let ghost link = self.links@[i as int];
            let ghost kept_before = kept@;
            proof {
                assert(next =~= seen.push(link));
                assert forall|p: Seq<char>, a: Seq<char>| has_link(next, p, a) <==> has_link(
                    seen,
                    p,
                    a,
                ) || joins(link, p, a) by {
                    lemma_push(seen, link, p, a);
                }
                lemma_has_peer(next, peer@);
                lemma_has_peer(seen, peer@);
            }
            if self.links[i].peer == *peer {
                removed = true;
                proof {
                    assert(joins(link, peer@, link.address@));
                    assert(has_link(next, peer@, link.address@));
                    assert forall|p: Seq<char>, a: Seq<char>|
                        #![trigger has_link(kept@, p, a)]
                        #![trigger has_link(next, p, a)]
                        has_link(kept@, p, a) <==> p != peer@ && has_link(next, p, a) by {
                        lemma_push(seen, link, p, a);
                    }
                }
            } else {
                let copy = self.links[i].clone();
                kept.push(copy);
                proof {
                    assert(kept@ =~= kept_before.push(link));
                    assert forall|p: Seq<char>, a: Seq<char>|
                        #![trigger has_link(kept@, p, a)]
                        #![trigger has_link(next, p, a)]
                        has_link(kept@, p, a) <==> p != peer@ && has_link(next, p, a) by {
                        lemma_push(kept_before, link, p, a);
                        lemma_push(seen, link, p, a);
                    }
                    assert forall|x: int, y: int| 0 <= x < y < kept@.len() implies !joins(
                        #[trigger] kept@[x],
                        kept@[y].peer@,
                        (#[trigger] kept@[y]).address@,
                    ) by {
                        if y == kept_before.len() {
                            assert(kept@[x] == kept_before[x]);
                            if joins(kept_before[x], link.peer@, link.address@) {
                                assert(has_link(kept_before, link.peer@, link.address@));
                                let w = choose|w: int|
                                    0 <= w < seen.len() && joins(
                                        #[trigger] seen[w],
                                        link.peer@,
                                        link.address@,
                                    );
                                assert(self.links@[w] == seen[w]);
                                assert(joins(self.links@[w], link.peer@, link.address@));
                            }
                        } else {
                            assert(kept@[x] == kept_before[x] && kept@[y] == kept_before[y]);
                        }
                    }
                }
            }
            i += 1;
        }
        proof {
            assert(self.links@.subrange(0, n as int) =~= self.links@);
            let before = self.links@;
            assert forall|p: Seq<char>| has_peer(kept@, p) <==> p != peer@ && has_peer(
                before,
                p,
            ) by {
                lemma_has_peer(kept@, p);
                lemma_has_peer(before, p);
                if has_peer(kept@, p) {
                    let a = choose|a: Seq<char>| has_link(kept@, p, a);
                    assert(has_link(before, p, a));
                }
                if p != peer@ && has_peer(before, p) {
                    let a = choose|a: Seq<char>| has_link(before, p, a);
                    assert(has_link(kept@, p, a));
                }
            }
        }
        let ghost goal = self@.remove(peer@);
        self.links = kept;
        proof {
            assert forall|p: Seq<char>| #[trigger] goal.dom().contains(p) implies self@[p]
                =~= goal[p] by {}
            assert(self@ =~~= goal);
        }
        removed
    }

    /// The entry of `peer`, if the table holds one.
    pub fn entry(&self, peer: &PeerId) -> (found: Option<RoutingEntry>)
        requires
            self.wf(),
        ensures
            found is Some <==> self@.dom().contains(peer@),
            found matches Some(entry) ==> {
                &&& entry.peer@ == peer@
                &&& address_set(entry.addresses@) == self@[peer@]
                &&& distinct_addresses(entry.addresses@)
            },
    {
        let n: usize = self.links.len();
        let mut addresses: Vec<Address> = Vec::new();
        let mut i: usize = 0;
        while i < n
            invariant
                n == self.links@.len(),
                i <= n,
                self.wf(),
                distinct_addresses(addresses@),
                forall|a: Seq<char>|
                    address_set(addresses@).contains(a) <==> has_link(
                        self.links@.subrange(0, i as int),
                        peer@,
                        a,
                    ),
            decreases n - i,
        {
            let ghost seen = self.links@.subrange(0, i as int);
            let ghost next = self.links@.subrange(0, i + 1);
            let ghost link = self.links@[i as int];
            let ghost had = addresses@;
            proof {
                assert(next =~= seen.push(link));
                assert forall|a: Seq<char>| has_link(next, peer@, a) <==> has_link(
                    seen,
                    peer@,
                    a,
                ) || joins(link, peer@, a) by {
                    lemma_push(seen, link, peer@, a);
                }
            }
            if self.links[i].peer == *peer {
                let copy = self.links[i].address.clone();
                addresses.push(copy);
                proof {
                    assert forall|a: Seq<char>| address_set(addresses@).contains(a)
                        <==> has_link(next, peer@, a) by {
                        lemma_push(seen, link, peer@, a);
                        assert(address_set(had).contains(a) <==> has_link(seen, peer@, a));
                        if address_set(had).contains(a) {
                            let k = choose|k: int| 0 <= k < had.len() && #[trigger] had[k]@ == a;
                            assert(addresses@[k]@ == a);
                        }
                        if a == link.address@ {
                            assert(addresses@[had.len() as int]@ == a);
                        }
                        if address_set(addresses@).contains(a) {
                            let k = choose|k: int|
                                0 <= k < addresses@.len() && #[trigger] addresses@[k]@ == a;
                            if k < had.len() {
                                assert(had[k]@ == a);
                            }
                        }
                    }
                    assert forall|x: int, y: int| 0 <= x < y < addresses@.len() implies #[trigger] addresses@[x]@
                        != #[trigger] addresses@[y]@ by {
                        if y == had.len() {
                            assert(addresses@[x] == had[x]);
                            if had[x]@ == link.address@ {
                                assert(address_set(had).contains(link.address@));
                                let w = choose|w: int|
                                    0 <= w < seen.len() && joins(
                                        #[trigger] seen[w],
                                        peer@,
                                        link.address@,
                                    );
                                assert(self.links@[w] == seen[w]);
                                assert(joins(self.links@[w], link.peer@, link.address@));
                            }
                        } else {
                            assert(addresses@[x] == had[x] && addresses@[y] == had[y]);
                        }
                    }
                }
            } else {
                proof {
                    assert forall|a: Seq<char>| address_set(addresses@).contains(a)
                        <==> has_link(next, peer@, a) by {
                        lemma_push(seen, link, peer@, a);
                        assert(address_set(had).contains(a) <==> has_link(seen, peer@, a));
                    }
                }
            }
            i += 1;
        }
        proof {
            assert(self.links@.subrange(0, n as int) =~= self.links@);
            lemma_has_peer(self.links@, peer@);
            if addresses@.len() > 0 {
                assert(address_set(addresses@).contains(addresses@[0]@));
            }
            if has_peer(self.links@, peer@) {
                let a = choose|a: Seq<char>| has_link(self.links@, peer@, a);
                assert(address_set(addresses@).contains(a));
            }
        }
        if addresses.len() == 0 {
            None
        } else {
            proof {
                assert(address_set(addresses@) =~= self@[peer@]);
            }
            Some(RoutingEntry { peer: peer.clone(), addresses })
        }
    }
}

} // verus!
