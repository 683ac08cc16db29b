//! The local WireGuard interface: what is asked of it, the three ways in
//! which it can be driven, and which of them is taken.

use crate::text::find_nth;
use crate::text::nth_index;
use vstd::prelude::*;
use vstd::string::*;

pub mod kernel;
pub mod tooling;
pub mod userspace;

verus! {

/// What went wrong with WireGuard.
#[derive(Clone, Debug, PartialEq)]
pub enum Error {
    NotYetImplemented(String),
    IO(String),
    FromUtf8Error(String),
    Toml(String),
    Monitoring(String),
    WgError(String),
}

/// What an `Error` stands for.
pub enum ErrorView {
    NotYetImplemented(Seq<char>),
    IO(Seq<char>),
    FromUtf8Error(Seq<char>),
    Toml(Seq<char>),
    Monitoring(Seq<char>),
    WgError(Seq<char>),
}

impl DeepView for Error {
    type V = ErrorView;

    open spec fn deep_view(&self) -> ErrorView {
        match self {
            Error::NotYetImplemented(text) => ErrorView::NotYetImplemented(text@),
            Error::IO(text) => ErrorView::IO(text@),
            Error::FromUtf8Error(text) => ErrorView::FromUtf8Error(text@),
            Error::Toml(text) => ErrorView::Toml(text@),
            Error::Monitoring(text) => ErrorView::Monitoring(text@),
            Error::WgError(text) => ErrorView::WgError(text@),
        }
    }
}

impl View for Error {
    type V = ErrorView;

    open spec fn view(&self) -> ErrorView {
        self.deep_view()
    }
}

impl ErrorView {
    /// The message of the error.
    pub open spec fn message(self) -> Seq<char> {
        match self {
            ErrorView::NotYetImplemented(text) => "implementation pending: "@ + text,
            ErrorView::IO(text) => "IO error: "@ + text,
            ErrorView::FromUtf8Error(text) => "encoding error: "@ + text,
            ErrorView::Toml(text) => "toml error: "@ + text,
            ErrorView::Monitoring(text) => "monitoring error: "@ + text,
            ErrorView::WgError(text) => "wireguard error: "@ + text,
        }
    }
}

fn prefixed(prefix: &str, text: &str) -> (r: String)
    ensures
        r@ == prefix@ + text@,
{
    let mut s = String::from_str(prefix);
    s.append(text);
    s
}

impl Error {
    /// The message of the error.
    pub fn to_string(&self) -> (r: String)
        ensures
            r@ == self@.message(),
    {
        match self {
            Error::NotYetImplemented(text) => prefixed("implementation pending: ", text.as_str()),
            Error::IO(text) => prefixed("IO error: ", text.as_str()),
            Error::FromUtf8Error(text) => prefixed("encoding error: ", text.as_str()),
            Error::Toml(text) => prefixed("toml error: ", text.as_str()),
            Error::Monitoring(text) => prefixed("monitoring error: ", text.as_str()),
            Error::WgError(text) => prefixed("wireguard error: ", text.as_str()),
        }
    }

    /// A copy of the error.
    pub fn duplicate(&self) -> (r: Error)
        ensures
            r@ == self@,
    {
        match self {
            Error::NotYetImplemented(text) => Error::NotYetImplemented(text.clone()),
            Error::IO(text) => Error::IO(text.clone()),
            Error::FromUtf8Error(text) => Error::FromUtf8Error(text.clone()),
            Error::Toml(text) => Error::Toml(text.clone()),
            Error::Monitoring(text) => Error::Monitoring(text.clone()),
            Error::WgError(text) => Error::WgError(text.clone()),
        }
    }
}

/// The local end of the tunnel.
#[derive(Clone, Debug, PartialEq)]
pub struct InterfaceInfo {
    pub private_key: String,
    pub address: String,
    pub allowed_ips: Option<String>,
}

/// The far end of the tunnel.
#[derive(Clone, Debug, PartialEq)]
pub struct PeerInfo {
    pub public_key: String,
    pub endpoint: String,
}

/// What the interface is programmed with when a session is connected.
#[derive(Clone, Debug, PartialEq)]
pub struct ConnectSession {
    pub interface: InterfaceInfo,
    pub peer: PeerInfo,
}

/// What an `InterfaceInfo` stands for.
pub struct InterfaceInfoView {
    pub private_key: Seq<char>,
    pub address: Seq<char>,
    pub allowed_ips: Option<Seq<char>>,
}

/// What a `PeerInfo` stands for.
pub struct PeerInfoView {
    pub public_key: Seq<char>,
    pub endpoint: Seq<char>,
}

/// What a `ConnectSession` stands for.
pub struct ConnectSessionView {
    pub interface: InterfaceInfoView,
    pub peer: PeerInfoView,
}

impl DeepView for ConnectSession {
    type V = ConnectSessionView;

    open spec fn deep_view(&self) -> ConnectSessionView {
        ConnectSessionView {
            interface: InterfaceInfoView {
                private_key: self.interface.private_key@,
                address: self.interface.address@,
                allowed_ips: self.interface.allowed_ips.deep_view(),
            },
            peer: PeerInfoView {
                public_key: self.peer.public_key@,
                endpoint: self.peer.endpoint@,
            },
        }
    }
}

impl View for ConnectSession {
    type V = ConnectSessionView;

    open spec fn view(&self) -> ConnectSessionView {
        self.deep_view()
    }
}

/// The /24 network of an address: what stands before its third dot, or the
/// whole of it where it has fewer, and `.0/24` behind it.
pub open spec fn network_of(address: Seq<char>) -> Seq<char> {
    (match nth_index(address, '.', 3) {
        Some(dot) => address.subrange(0, dot),
        None => address,
    }) + ".0/24"@
}

impl ConnectSessionView {
    /// The addresses that are routed through the tunnel: those that are
    /// given, else the /24 network of the interface's address.
    pub open spec fn routed(self) -> Seq<char> {
        match self.interface.allowed_ips {
            Some(ips) => ips,
            None => network_of(self.interface.address),
        }
    }

    /// The configuration file that `wg-quick` is run with.
    pub open spec fn file_text(self) -> Seq<char> {
        "[Interface]\nPrivateKey = "@ + self.interface.private_key + "\nAddress = "@
            + self.interface.address + "\n\n[Peer]\nPublicKey = "@ + self.peer.public_key
            + "\nEndpoint = "@ + self.peer.endpoint + "\nAllowedIPs = "@ + self.routed()
            + "\nPersistentKeepalive = 30\n"@
    }
}

impl ConnectSession {
    /// The addresses that are routed through the tunnel.
    pub fn allowed_ips(&self) -> (r: String)
        ensures
            r@ == self@.routed(),
    {
        match &self.interface.allowed_ips {
            Some(ips) => ips.clone(),
            None => {
                let address = self.interface.address.as_str();
                let mut network = match find_nth(address, '.', 3) {
                    Some(dot) => address.substring_char(0, dot).to_owned(),
                    None => address.to_owned(),
                };
                network.append(".0/24");
                network
            },
        }
    }

    /// Renders the configuration file that `wg-quick` is run with.
    pub fn to_file_string(&self) -> (r: String)
        ensures
            r@ == self@.file_text(),
    {
        let mut s = String::from_str("[Interface]\nPrivateKey = ");
        s.append(self.interface.private_key.as_str());
        s.append("\nAddress = ");
        s.append(self.interface.address.as_str());
        s.append("\n\n[Peer]\nPublicKey = ");
        s.append(self.peer.public_key.as_str());
        s.append("\nEndpoint = ");
        s.append(self.peer.endpoint.as_str());
        s.append("\nAllowedIPs = ");
        s.append(self.allowed_ips().as_str());
        s.append("\nPersistentKeepalive = 30\n");
        s
    }
}

/// The three ways in which the interface can be driven.
#[derive(Clone, Copy, Debug, PartialEq, Eq, Structural)]
pub enum Flavor {
    Kernel,
    UserSpace,
    Tooling,
}

/// What a way of driving the interface can be asked to do.
pub trait WireGuard {
    /// Makes a new private key.
    fn generate_key(&self) -> Result<String, Error>;

    /// Brings the interface up for a session.
    fn connect_session(&self, session: &ConnectSession) -> Result<(), Error>;

    /// The public key that belongs to a private key.
    fn public_key(&self, priv_key: &str) -> Result<String, Error>;
}

/// The view of what a probe found.
pub open spec fn probed(probe: Result<bool, Error>) -> Result<bool, ErrorView> {
    match probe {
        Ok(found) => Ok(found),
        Err(error) => Err(error@),
    }
}

/// The failure of a probe, if it failed.
pub open spec fn failure(probe: Result<bool, ErrorView>) -> Seq<ErrorView> {
    match probe {
        Ok(_) => seq![],
        Err(error) => seq![error],
    }
}

/// The way that is taken: the first of kernel, userspace and tooling whose
/// probe found it. With it come the failures of the probes before it, and
/// those of all where none is found.
pub open spec fn selection(
    kernel: Result<bool, ErrorView>,
    userspace: Result<bool, ErrorView>,
    tooling: Result<bool, ErrorView>,
) -> (Option<Flavor>, Seq<ErrorView>) {
    if kernel == Ok::<bool, ErrorView>(true) {
        (Some(Flavor::Kernel), seq![])
    } else if userspace == Ok::<bool, ErrorView>(true) {
        (Some(Flavor::UserSpace), failure(kernel))
    } else if tooling == Ok::<bool, ErrorView>(true) {
        (Some(Flavor::Tooling), failure(kernel) + failure(userspace))
    } else {
        (None, failure(kernel) + failure(userspace) + failure(tooling))
    }
}

/// Picks the way in which the interface is driven from what the three
/// probes found.
pub fn choose_flavor(
    kernel: Result<bool, Error>,
    userspace: Result<bool, Error>,
    tooling: Result<bool, Error>,
) -> (r: (Option<Flavor>, Vec<Error>))
    ensures
        (r.0, r.1.deep_view()) == selection(probed(kernel), probed(userspace), probed(tooling)),
{
    let mut errors: Vec<Error> = Vec::new();
    match kernel {
        Ok(true) => {
            assert(errors.deep_view() =~= seq![]);
            return (Some(Flavor::Kernel), errors);
        },
        Ok(false) => {},
        Err(e) => {
            errors.push(e);
        },
    }
    assert(errors.deep_view() =~= failure(probed(kernel)));
    match userspace {
        Ok(true) => {
            return (Some(Flavor::UserSpace), errors);
        },
        Ok(false) => {},
        Err(e) => {
            errors.push(e);
        },
    }
    assert(errors.deep_view() =~= failure(probed(kernel)) + failure(probed(userspace)));
    match tooling {
        Ok(true) => {
            return (Some(Flavor::Tooling), errors);
        },
        Ok(false) => {},
        Err(e) => {
            errors.push(e);
        },
    }
    assert(errors.deep_view() =~= failure(probed(kernel)) + failure(probed(userspace)) + failure(
        probed(tooling),
    ));
    (None, errors)
}

/// Picks the way in which the interface is driven. The kernel and the
/// userspace way are probed here; what the probe for the tooling found is
/// handed in.
pub fn best_flavor(tooling: Result<bool, Error>) -> (r: (Option<Flavor>, Vec<Error>))
    ensures
        (r.0, r.1.deep_view()) == selection(
            Err(kernel::pending()),
            Err(userspace::pending()),
            probed(tooling),
        ),
{
    choose_flavor(kernel::available(), userspace::available(), tooling)
}

} // verus!
