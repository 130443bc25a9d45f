//! Peer identifiers and network addresses, held by their textual form.
//!
//! Two identifiers, or two addresses, are the same exactly when their texts
//! are equal; the view of each is that text.

use vstd::prelude::*;
use vstd::std_specs::cmp::PartialEqSpecImpl;
use crate::text::{chars_of, contains_chars, contains_text};

verus! {

/// Identifier of a peer: the base58 text of its public-key hash.
#[derive(Debug)]
pub struct PeerId {
    pub text: String,
}

/// A network address in its textual multiaddress form, such as
/// `/ip4/192.0.2.7/tcp/4001`.
#[derive(Debug)]
pub struct Address {
    pub text: String,
}

impl View for PeerId {
    type V = Seq<char>;

    open spec fn view(&self) -> Seq<char> {
        self.text@
    }
}

impl View for Address {
    type V = Seq<char>;

    open spec fn view(&self) -> Seq<char> {
        self.text@
    }
}

impl Clone for PeerId {
    fn clone(&self) -> (copy: Self)
        ensures
            copy == *self,
    {
        PeerId { text: self.text.clone() }
    }
}

impl Clone for Address {
    fn clone(&self) -> (copy: Self)
        ensures
            copy == *self,
    {
        Address { text: self.text.clone() }
    }
}

impl PartialEq for PeerId {
    fn eq(&self, other: &Self) -> (same: bool) {
        self.text == other.text
    }
}

impl PartialEqSpecImpl for PeerId {
    open spec fn obeys_eq_spec() -> bool {
        true
    }

    open spec fn eq_spec(&self, other: &Self) -> bool {
        self@ == other@
    }
}

impl Eq for PeerId {}

impl PartialEq for Address {
    fn eq(&self, other: &Self) -> (same: bool) {
        self.text == other.text
    }
}

impl PartialEqSpecImpl for Address {
    open spec fn obeys_eq_spec() -> bool {
        true
    }

    open spec fn eq_spec(&self, other: &Self) -> bool {
        self@ == other@
    }
}

impl Eq for Address {}

/// The text whose presence marks an address as loopback: `127.0.0.1`.
pub open spec fn loopback_marker() -> Seq<char> {
    seq!['1', '2', '7', '.', '0', '.', '0', '.', '1']
}

/// An address text is loopback when the marker stands anywhere in it.
pub open spec fn is_loopback_text(text: Seq<char>) -> bool {
    contains_text(text, loopback_marker())
}

/// The addresses that occur in `list`.
pub open spec fn address_set(list: Seq<Address>) -> Set<Seq<char>> {
    Set::new(|text: Seq<char>| exists|i: int| 0 <= i < list.len() && #[trigger] list[i]@ == text)
}

/// No address occurs twice in `list`.
pub open spec fn distinct_addresses(list: Seq<Address>) -> bool {
    forall|i: int, j: int| 0 <= i < j < list.len() ==> #[trigger] list[i]@ != #[trigger] list[j]@
}

/// Whether `address` occurs in `list`.
pub fn contains_address(list: &Vec<Address>, address: &Address) -> (found: bool)
    ensures
        found == address_set(list@).contains(address@),
{
    let n: usize = list.len();
    let mut i: usize = 0;
    while i < n
        invariant
            n == list@.len(),
            i <= n,
            forall|j: int| 0 <= j < i ==> #[trigger] list@[j]@ != address@,
        decreases n - i,
    {
        if list[i] == *address {
            return true;
        }
        i += 1;
    }
    false
}

/// Adds `address` to `list` unless it occurs there already.
pub fn insert_address(list: &mut Vec<Address>, address: Address)
    requires
        distinct_addresses(old(list)@),
    ensures
        distinct_addresses(final(list)@),
        address_set(final(list)@) == address_set(old(list)@).insert(address@),
{
    let ghost before = list@;
    let ghost text = address@;
    if !contains_address(list, &address) {
        list.push(address);
        proof {
            assert(list@[before.len() as int]@ == text);
            assert forall|t: Seq<char>| address_set(list@).contains(t) <==> address_set(
                before,
            ).contains(t) || t == text by {
                if address_set(before).contains(t) {
                    let k = choose|k: int| 0 <= k < before.len() && #[trigger] before[k]@ == t;
                    assert(list@[k]@ == t);
                }
                if address_set(list@).contains(t) {
                    let k = choose|k: int| 0 <= k < list@.len() && #[trigger] list@[k]@ == t;
                    if k < before.len() {
                        assert(before[k]@ == t);
                    }
                }
            }
            assert forall|i: int, j: int| 0 <= i < j < list@.len() implies #[trigger] list@[i]@
                != #[trigger] list@[j]@ by {
                if j == before.len() {
                    assert(list@[i] == before[i]);
                } else {
                    assert(list@[i] == before[i] && list@[j] == before[j]);
                }
            }
        }
    }
    assert(address_set(list@) =~= address_set(before).insert(text));
}

impl PeerId {
    /// The identifier with the given text.
    pub fn new(text: &str) -> (peer: PeerId)
        ensures
            peer@ == text@,
    {
        PeerId { text: text.to_owned() }
    }

    /// The identifier's text.
    pub fn as_str(&self) -> (text: &str)
        ensures
            text@ == self@,
    {
        self.text.as_str()
    }
}

impl Address {
    /// The address with the given text.
    pub fn new(text: &str) -> (address: Address)
        ensures
            address@ == text@,
    {
        Address { text: text.to_owned() }
    }

    /// The address's text.
    pub fn as_str(&self) -> (text: &str)
        ensures
            text@ == self@,
    {
        self.text.as_str()
    }

    /// Whether this address is local-only: its text holds the loopback
    /// marker.
    pub fn is_loopback(&self) -> (local: bool)
        ensures
            local == is_loopback_text(self@),
    {
        let marker = chars_of("127.0.0.1");
        proof {
            reveal_strlit("127.0.0.1");
            assert(marker@ =~= loopback_marker());
        }
        let text = chars_of(self.text.as_str());
        contains_chars(&text, &marker)
    }
}

} // verus!
