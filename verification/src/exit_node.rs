//! The exit node: the peer at which sessions leave the mixnet.

use crate::peer_id::PeerId;
use vstd::prelude::*;

verus! {

/// What is known of the exit node while the daemon runs.
#[derive(Clone, Debug, PartialEq)]
pub struct ExitNode {
    pub peer_id: PeerId,
}

impl DeepView for ExitNode {
    type V = Seq<char>;

    open spec fn deep_view(&self) -> Seq<char> {
        self.peer_id@
    }
}

impl View for ExitNode {
    type V = Seq<char>;

    open spec fn view(&self) -> Seq<char> {
        self.peer_id@
    }
}

} // verus!
