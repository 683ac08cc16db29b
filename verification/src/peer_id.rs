//! Peer identities: the handle by which a node of the mixnet is named.

use vstd::prelude::*;

verus! {

/// The base58 text in which `libp2p_identity` prints the peer identity that
/// it reads from a text; nothing where it reads none.
pub uninterp spec fn peer_id_text(input: Seq<char>) -> Option<Seq<char>>;

/// Reads `input` as a peer identity with `libp2p_identity::PeerId::from_str`
/// and prints what was read with `to_base58`.
#[verifier::external_body]
fn canonical_base58(input: &str) -> (r: Option<String>)
    ensures
        r.deep_view() == peer_id_text(input@),
{
    match <libp2p_identity::PeerId as std::str::FromStr>::from_str(input) {
        Ok(id) => Some(id.to_base58()),
        Err(_) => None,
    }
}

/// A peer identity, held as the base58 text that names it. Two identities
/// are the same where their texts are.
#[derive(Clone, Debug, PartialEq)]
pub struct PeerId {
    id: String,
}

impl DeepView for PeerId {
    type V = Seq<char>;

    open spec fn deep_view(&self) -> Seq<char> {
        self.text()
    }
}

impl View for PeerId {
    type V = Seq<char>;

    open spec fn view(&self) -> Seq<char> {
        self.text()
    }
}

/// Whether `text` is the base58 text of a peer identity, as it is printed.
pub open spec fn is_peer_id(text: Seq<char>) -> bool {
    peer_id_text(text) == Some(text)
}

impl PeerId {
    /// The base58 text of the identity.
    pub closed spec fn text(&self) -> Seq<char> {
        self.id@
    }

    /// Every identity is held in the text in which it is printed.
    pub open spec fn valid(&self) -> bool {
        is_peer_id(self@)
    }

    /// Reads a peer identity from its base58 text. A text is taken only
    /// where its printed form reads back as itself.
    pub fn from_base58(input: &str) -> (r: Option<PeerId>)
        ensures
            r is Some <==> (peer_id_text(input@) matches Some(text) && is_peer_id(text)),
            r matches Some(id) ==> id.valid() && Some(id@) == peer_id_text(input@),
    {
        match canonical_base58(input) {
            Some(text) => {
                match canonical_base58(text.as_str()) {
                    Some(again) => {
                        if again == text {
                            Some(PeerId { id: text })
                        } else {
                            None
                        }
                    },
                    None => None,
                }
            },
            None => None,
        }
    }

    /// The base58 text of the identity.
    pub fn to_base58(&self) -> (r: String)
        ensures
            r@ == self@,
    {
        self.id.clone()
    }

    /// The base58 text of the identity.
    pub fn as_str(&self) -> (r: &str)
        ensures
            r@ == self@,
    {
        self.id.as_str()
    }

    /// A copy of the identity.
    pub fn duplicate(&self) -> (r: PeerId)
        ensures
            r@ == self@,
            r.valid() == self.valid(),
    {
        PeerId { id: self.id.clone() }
    }

    /// Whether two identities are the same.
    pub fn same(&self, other: &PeerId) -> (r: bool)
        ensures
            r == (self@ == other@),
    {
        self.id == other.id
    }
}

} // verus!
