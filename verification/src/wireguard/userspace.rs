//! Driving the interface from userspace, which is still to come.

use crate::wireguard::ConnectSession;
use crate::wireguard::Error;
use crate::wireguard::ErrorView;
use crate::wireguard::WireGuard;
use vstd::prelude::*;
use vstd::string::*;

verus! {

/// The way of driving the interface from userspace.
#[derive(Clone, Debug, PartialEq)]
pub struct UserSpace {}

/// What every probe of this way answers.
pub open spec fn pending() -> ErrorView {
    ErrorView::NotYetImplemented("userspace"@)
}

/// Whether the interface can be driven this way.
pub fn available() -> (r: Result<bool, Error>)
    ensures
        r matches Err(e) && e@ == pending(),
{
    Err(Error::NotYetImplemented(String::from_str("userspace")))
}

impl UserSpace {
    /// This way of driving the interface.
    pub fn new() -> (r: UserSpace)
        ensures
            r == (UserSpace {  }),
    {
        UserSpace {  }
    }
}

impl WireGuard for UserSpace {
    fn generate_key(&self) -> (r: Result<String, Error>)
        ensures
            r matches Err(e) && e@ == ErrorView::NotYetImplemented("userspace"@),
    {
        Err(Error::NotYetImplemented(String::from_str("userspace")))
    }

    fn connect_session(&self, _session: &ConnectSession) -> (r: Result<(), Error>)
        ensures
            r matches Err(e) && e@ == ErrorView::NotYetImplemented("connect_session"@),
    {
        Err(Error::NotYetImplemented(String::from_str("connect_session")))
    }

    fn public_key(&self, _priv_key: &str) -> (r: Result<String, Error>)
        ensures
            r matches Err(e) && e@ == ErrorView::NotYetImplemented("connect_session"@),
    {
        Err(Error::NotYetImplemented(String::from_str("connect_session")))
    }
}

} // verus!
