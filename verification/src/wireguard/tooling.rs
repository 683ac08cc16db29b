//! Driving the interface with the tools `wg` and `wg-quick`.

use crate::wireguard::Error;
use crate::wireguard::ErrorView;
use vstd::prelude::*;

verus! {

/// The way of driving the interface with `wg` and `wg-quick`.
#[derive(Clone, Debug, PartialEq)]
pub struct Tooling {}

/// The name of the configuration file that `wg-quick` is run with.
pub const TMP_FILE: &'static str = "wg0_gnosisvpn.conf";

/// Whether the interface can be driven this way: whether `wg-quick` was
/// found. Where the search itself failed, that is an IO error.
pub fn available(found: Result<bool, String>) -> (r: Result<bool, Error>)
    ensures
        match found {
            Ok(found) => r == Ok::<bool, Error>(found),
            Err(text) => r matches Err(e) && e@ == ErrorView::IO(text@),
        },
{
    match found {
        Ok(found) => Ok(found),
        Err(text) => Err(Error::IO(text)),
    }
}

impl Tooling {
    /// This way of driving the interface.
    pub fn new() -> (r: Tooling)
        ensures
            r == (Tooling {  }),
    {
        Tooling {  }
    }
}

} // verus!
