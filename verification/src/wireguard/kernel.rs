//! Driving the interface through the kernel's netlink access, which is
//! still to come.

use crate::wireguard::ConnectSession;
use crate::wireguard::Error;
use crate::wireguard::ErrorView;
use crate::wireguard::WireGuard;
use vstd::prelude::*;
use vstd::string::*;

verus! {

/// The way of driving the interface through the kernel.
#[derive(Clone, Debug, PartialEq)]
pub struct Kernel {}

/// What every probe of this way answers.
pub open spec fn pending() -> ErrorView {
    ErrorView::NotYetImplemented("netlink kernel module"@)
}

/// Whether the interface can be driven this way.
pub fn available() -> (r: Result<bool, Error>)
    ensures
        r matches Err(e) && e@ == pending(),
{
    Err(Error::NotYetImplemented(String::from_str("netlink kernel module")))
}

impl Kernel {
    /// This way of driving the interface.
    pub fn new() -> (r: Kernel)
        ensures
            r == (Kernel {  }),
    {
        Kernel {  }
    }
}

impl WireGuard for Kernel {
    fn generate_key(&self) -> (r: Result<String, Error>)
        ensures
            r matches Err(e) && e@ == ErrorView::NotYetImplemented("netlink kernel module"@),
    {
        Err(Error::NotYetImplemented(String::from_str("netlink kernel module")))
    }

    fn connect_session(&self, _session: &ConnectSession) -> (r: Result<(), Error>)
        ensures
            r matches Err(e) && e@ == ErrorView::NotYetImplemented("connect_session"@),
    {
        Err(Error::NotYetImplemented(String::from_str("connect_session")))
    }

    fn public_key(&self, _priv_key: &str) -> (r: Result<String, Error>)
        ensures
            r matches Err(e) && e@ == ErrorView::NotYetImplemented("connect_session"@),
    {
        Err(Error::NotYetImplemented(String::from_str("connect_session")))
    }
}

} // verus!
