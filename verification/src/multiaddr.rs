//! The multiaddress text syntax, as decided by the `libp2p` parser.

use vstd::prelude::*;

verus! {

/// Whether the multiaddress parser accepts `text`.
///
/// The grammar has some forty protocols, each with its own argument syntax;
/// it is not restated here.  The parser reads nothing but the text, so the
/// same text always gets the same answer.
pub uninterp spec fn multiaddr_accepts(text: Seq<char>) -> bool;

/// Runs `<libp2p::Multiaddr as FromStr>::from_str` on `text` and reports
/// whether it returned `Ok`.  The claim, taken on trust: the answer is
/// [`multiaddr_accepts`] of the text.  The parser returns an error on every
/// malformed input and does not panic.
#[verifier::external_body]
pub(crate) fn parses_as_multiaddr(text: &str) -> (accepted: bool)
    ensures
        accepted == multiaddr_accepts(text@),
{
    text.parse::<libp2p::Multiaddr>().is_ok()
}

} // verus!
