use std::str::FromStr;
use vstd::prelude::*;

verus! {

/// What `PeerId::from_str` of libp2p makes of a text: `true` when the text is
/// the base-58 form of a peer identifier.
pub uninterp spec fn peer_id_text_is_valid(s: Seq<char>) -> bool;

/// Relies on `libp2p::PeerId::from_str`: whether the text parses depends on
/// its characters alone.
#[verifier::external_body]
fn parse_peer_id_text(s: &str) -> (r: bool)
    ensures
        r == peer_id_text_is_valid(s@),
{
    libp2p::PeerId::from_str(s).is_ok()
}

/// The overlay address of a node: the base-58 text of its libp2p peer
/// identifier. Two identifiers are the same peer exactly when their texts
/// are equal.
#[derive(Debug)]
pub struct PeerId {
    text: String,
}

impl View for PeerId {
    type V = Seq<char>;

    closed spec fn view(&self) -> Seq<char> {
        self.text@
    }
}

impl Clone for PeerId {
    fn clone(&self) -> (r: PeerId)
        ensures
            r@ == self@,
    {
        PeerId { text: self.text.clone() }
    }
}

impl PartialEq for PeerId {
    fn eq(&self, other: &PeerId) -> (r: bool) {
        self.text == other.text
    }
}

impl vstd::std_specs::cmp::PartialEqSpecImpl for PeerId {
    open spec fn obeys_eq_spec() -> bool {
        true
    }

    open spec fn eq_spec(&self, other: &PeerId) -> bool {
        self@ == other@
    }
}

impl PeerId {
    /// Reads a peer identifier from its base-58 text; `None` when the text is
    /// not one.
    pub fn parse(s: &str) -> (r: Option<PeerId>)
        ensures
            r is Some <==> peer_id_text_is_valid(s@),
            r matches Some(p) ==> p@ == s@,
    {
        if parse_peer_id_text(s) {
            Some(PeerId { text: s.to_owned() })
        } else {
            None
        }
    }

    /// Builds a peer identifier from text that is known to be one, such as
    /// the text derived from a keypair.
    pub(crate) fn from_checked_text(text: String) -> (r: PeerId)
        ensures
            r@ == text@,
    {
        PeerId { text }
    }

    /// The base-58 text of the identifier.
    pub fn as_str(&self) -> (r: &str)
        ensures
            r@ == self@,
    {
        self.text.as_str()
    }

    /// Whether two identifiers name the same peer.
    pub fn same_as(&self, other: &PeerId) -> (r: bool)
        ensures
            r == (self@ == other@),
    {
        self.text == other.text
    }
}

} // verus!
