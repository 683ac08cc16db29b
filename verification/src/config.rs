//! The configuration of the daemon, as its provider hands it over.

use crate::peer_id::PeerId;
use vstd::prelude::*;
use vstd::string::*;

verus! {

/// The one version of the configuration that is understood.
pub const SUPPORTED_CONFIG_VERSION: u8 = 1;

/// The whole configuration.
#[derive(Clone, Debug, PartialEq)]
pub struct Config {
    pub version: u8,
    pub entry_node: Option<EntryNodeConfig>,
    pub connection: Option<SessionConfig>,
    pub wireguard: Option<WireGuardConfig>,
}

/// Where the entry node is reached and the token that it asks for.
#[derive(Clone, Debug, PartialEq)]
pub struct EntryNodeConfig {
    pub endpoint: String,
    pub api_token: String,
    pub internal_connection_port: Option<u16>,
}

/// The session that is to be opened through the entry node.
#[derive(Clone, Debug, PartialEq)]
pub struct SessionConfig {
    pub capabilities: Option<Vec<SessionCapabilitiesConfig>>,
    pub destination: PeerId,
    pub listen_host: Option<String>,
    pub path: Option<SessionPathConfig>,
    pub target: Option<SessionTargetConfig>,
}

/// The local WireGuard interface and the server it talks to.
#[derive(Clone, Debug, PartialEq)]
pub struct WireGuardConfig {
    pub address: String,
    pub server_public_key: String,
    pub allowed_ips: Option<String>,
    pub preshared_key: Option<String>,
    pub private_key: Option<String>,
}

/// What the exit node forwards the session to.
#[derive(Clone, Debug, PartialEq)]
pub struct SessionTargetConfig {
    pub type_: Option<SessionTargetType>,
    pub host: Option<String>,
    pub port: Option<u16>,
}

/// A feature that a session may be opened with.
#[derive(Clone, Copy, Debug, PartialEq, Eq, Structural)]
pub enum SessionCapabilitiesConfig {
    Segmentation,
    Retransmission,
}

/// Whether the target's address is sent in the clear or sealed.
#[derive(Clone, Copy, Debug, PartialEq, Eq, Structural)]
pub enum SessionTargetType {
    Plain,
    Sealed,
}

/// The route through the mixnet: a number of hops, or the relays by name.
#[derive(Clone, Debug, PartialEq)]
pub enum SessionPathConfig {
    Hop(u8),
    Intermediates(Vec<PeerId>),
}

/// Why no configuration could be had.
#[derive(Clone, Debug, PartialEq)]
pub enum Error {
    NoFile,
    IO(String),
    Deserialization(String),
    VersionMismatch(u8),
    /// The listening host or the hops of the connection may not stand.
    InvalidConnection,
}

/// What a `Config` stands for.
pub struct ConfigView {
    pub version: u8,
    pub entry_node: Option<EntryNodeConfigView>,
    pub connection: Option<SessionConfigView>,
    pub wireguard: Option<WireGuardConfigView>,
}

/// What an `EntryNodeConfig` stands for.
pub struct EntryNodeConfigView {
    pub endpoint: Seq<char>,
    pub api_token: Seq<char>,
    pub internal_connection_port: Option<u16>,
}

/// What a `SessionConfig` stands for.
pub struct SessionConfigView {
    pub capabilities: Option<Seq<SessionCapabilitiesConfig>>,
    pub destination: Seq<char>,
    pub listen_host: Option<Seq<char>>,
    pub path: Option<PathView>,
    pub target: Option<SessionTargetView>,
}

/// What a `WireGuardConfig` stands for.
pub struct WireGuardConfigView {
    pub address: Seq<char>,
    pub server_public_key: Seq<char>,
    pub allowed_ips: Option<Seq<char>>,
    pub preshared_key: Option<Seq<char>>,
    pub private_key: Option<Seq<char>>,
}

/// What a `SessionTargetConfig` stands for.
pub struct SessionTargetView {
    pub type_: Option<SessionTargetType>,
    pub host: Option<Seq<char>>,
    pub port: Option<u16>,
}

/// What a `SessionPathConfig` stands for.
pub enum PathView {
    Hop(u8),
    Intermediates(Seq<Seq<char>>),
}

/// What an `Error` stands for.
pub enum ErrorView {
    NoFile,
    IO(Seq<char>),
    Deserialization(Seq<char>),
    VersionMismatch(u8),
    InvalidConnection,
}

impl DeepView for SessionCapabilitiesConfig {
    type V = SessionCapabilitiesConfig;

    open spec fn deep_view(&self) -> SessionCapabilitiesConfig {
        *self
    }
}

impl DeepView for SessionTargetType {
    type V = SessionTargetType;

    open spec fn deep_view(&self) -> SessionTargetType {
        *self
    }
}

impl DeepView for SessionPathConfig {
    type V = PathView;

    open spec fn deep_view(&self) -> PathView {
        match self {
            SessionPathConfig::Hop(n) => PathView::Hop(*n),
            SessionPathConfig::Intermediates(ids) => PathView::Intermediates(ids.deep_view()),
        }
    }
}

impl View for SessionPathConfig {
    type V = PathView;

    open spec fn view(&self) -> PathView {
        self.deep_view()
    }
}

impl DeepView for SessionTargetConfig {
    type V = SessionTargetView;

    open spec fn deep_view(&self) -> SessionTargetView {
        SessionTargetView {
            type_: self.type_,
            host: self.host.deep_view(),
            port: self.port,
        }
    }
}

impl View for SessionTargetConfig {
    type V = SessionTargetView;

    open spec fn view(&self) -> SessionTargetView {
        self.deep_view()
    }
}

impl DeepView for WireGuardConfig {
    type V = WireGuardConfigView;

    open spec fn deep_view(&self) -> WireGuardConfigView {
        WireGuardConfigView {
            address: self.address@,
            server_public_key: self.server_public_key@,
            allowed_ips: self.allowed_ips.deep_view(),
            preshared_key: self.preshared_key.deep_view(),
            private_key: self.private_key.deep_view(),
        }
    }
}

impl View for WireGuardConfig {
    type V = WireGuardConfigView;

    open spec fn view(&self) -> WireGuardConfigView {
        self.deep_view()
    }
}

impl DeepView for SessionConfig {
    type V = SessionConfigView;

    open spec fn deep_view(&self) -> SessionConfigView {
        SessionConfigView {
            capabilities: self.capabilities.deep_view(),
            destination: self.destination@,
            listen_host: self.listen_host.deep_view(),
            path: self.path.deep_view(),
            target: self.target.deep_view(),
        }
    }
}

impl View for SessionConfig {
    type V = SessionConfigView;

    open spec fn view(&self) -> SessionConfigView {
        self.deep_view()
    }
}

impl DeepView for EntryNodeConfig {
    type V = EntryNodeConfigView;

    open spec fn deep_view(&self) -> EntryNodeConfigView {
        EntryNodeConfigView {
            endpoint: self.endpoint@,
            api_token: self.api_token@,
            internal_connection_port: self.internal_connection_port,
        }
    }
}

impl View for EntryNodeConfig {
    type V = EntryNodeConfigView;

    open spec fn view(&self) -> EntryNodeConfigView {
        self.deep_view()
    }
}

impl DeepView for Config {
    type V = ConfigView;

    open spec fn deep_view(&self) -> ConfigView {
        ConfigView {
            version: self.version,
            entry_node: self.entry_node.deep_view(),
            connection: self.connection.deep_view(),
            wireguard: self.wireguard.deep_view(),
        }
    }
}

impl View for Config {
    type V = ConfigView;

    open spec fn view(&self) -> ConfigView {
        self.deep_view()
    }
}

impl DeepView for Error {
    type V = ErrorView;

    open spec fn deep_view(&self) -> ErrorView {
        match self {
            Error::NoFile => ErrorView::NoFile,
            Error::IO(text) => ErrorView::IO(text@),
            Error::Deserialization(text) => ErrorView::Deserialization(text@),
            Error::VersionMismatch(version) => ErrorView::VersionMismatch(*version),
            Error::InvalidConnection => ErrorView::InvalidConnection,
        }
    }
}

impl View for Error {
    type V = ErrorView;

    open spec fn view(&self) -> ErrorView {
        self.deep_view()
    }
}

/// The configuration that stands where none is given.
pub open spec fn default_config() -> ConfigView {
    ConfigView { version: 1, entry_node: None, connection: None, wireguard: None }
}

/// The path that is taken where none is given: one hop.
pub open spec fn default_path() -> PathView {
    PathView::Hop(1)
}

/// The target that is taken where none is given.
pub open spec fn default_target() -> SessionTargetView {
    SessionTargetView {
        type_: Some(SessionTargetType::Plain),
        host: Some("wg-server"@),
        port: Some(51820),
    }
}

/// The host of the target where none is configured.
pub fn default_session_target_host() -> (r: String)
    ensures
        r@ == "wg-server"@,
{
    String::from_str("wg-server")
}

/// The port of the target where none is configured.
pub fn default_session_target_port() -> (r: u16)
    ensures
        r == 51820,
{
    51820
}

impl Default for Config {
    fn default() -> (r: Config)
        ensures
            r@ == default_config(),
    {
        Config { version: 1, entry_node: None, connection: None, wireguard: None }
    }
}

impl Default for SessionPathConfig {
    fn default() -> (r: SessionPathConfig)
        ensures
            r@ == default_path(),
    {
        SessionPathConfig::Hop(1)
    }
}

impl Default for SessionTargetConfig {
    fn default() -> (r: SessionTargetConfig)
        ensures
            r@ == default_target(),
    {
        SessionTargetConfig {
            type_: Some(SessionTargetType::Plain),
            host: Some(default_session_target_host()),
            port: Some(default_session_target_port()),
        }
    }
}

impl SessionTargetType {
    /// The name of the type, as it is written in a request.
    pub open spec fn name(self) -> Seq<char> {
        match self {
            SessionTargetType::Plain => "Plain"@,
            SessionTargetType::Sealed => "Sealed"@,
        }
    }

    /// The name of the type, as it is written in a request.
    pub fn to_string(&self) -> (r: String)
        ensures
            r@ == self.name(),
    {
        match self {
            SessionTargetType::Plain => String::from_str("Plain"),
            SessionTargetType::Sealed => String::from_str("Sealed"),
        }
    }
}

impl SessionCapabilitiesConfig {
    /// The name of the capability, as it is written in a request.
    pub open spec fn name(self) -> Seq<char> {
        match self {
            SessionCapabilitiesConfig::Segmentation => "Segmentation"@,
            SessionCapabilitiesConfig::Retransmission => "Retransmission"@,
        }
    }

    /// The name of the capability, as it is written in a request.
    pub fn to_string(&self) -> (r: String)
        ensures
            r@ == self.name(),
    {
        match self {
            SessionCapabilitiesConfig::Segmentation => String::from_str("Segmentation"),
            SessionCapabilitiesConfig::Retransmission => String::from_str("Retransmission"),
        }
    }
}

impl SessionPathConfig {
    /// A copy of the path.
    pub fn duplicate(&self) -> (r: SessionPathConfig)
        ensures
            r@ == self@,
    {
        match self {
            SessionPathConfig::Hop(n) => SessionPathConfig::Hop(*n),
            SessionPathConfig::Intermediates(ids) => {
                let mut copy: Vec<PeerId> = Vec::new();
                let mut i: usize = 0;
                while i < ids.len()
                    invariant
                        i <= ids.len(),
                        copy@.len() == i,
                        forall|k: int| 0 <= k < i ==> copy@[k]@ == ids@[k]@,
                    decreases ids.len() - i,
                {
                    copy.push(ids[i].duplicate());
                    i = i + 1;
                }
                assert(copy.deep_view() =~= ids.deep_view());
                SessionPathConfig::Intermediates(copy)
            },
        }
    }
}

impl ConfigView {
    /// Whether the configuration may be taken: it is of the version that is
    /// understood, what it gives as the listening host names where to
    /// listen, and its path has three hops at most.
    pub open spec fn valid(self) -> bool {
        &&& self.version == SUPPORTED_CONFIG_VERSION
        &&& self.connection matches Some(connection) ==> {
            &&& crate::cli::listen_host_valid(connection.listen_host)
            &&& connection.path matches Some(PathView::Hop(hops)) ==> hops <= crate::cli::MAX_HOPS
        }
    }
}

impl Config {
    /// Whether the configuration may be taken.
    pub fn is_valid(&self) -> (r: bool)
        ensures
            r == self@.valid(),
    {
        if self.version != SUPPORTED_CONFIG_VERSION {
            return false;
        }
        match &self.connection {
            Some(connection) => {
                let hops_ok = match &connection.path {
                    Some(SessionPathConfig::Hop(hops)) => *hops <= crate::cli::MAX_HOPS,
                    _ => true,
                };
                crate::cli::valid_listen_host(&connection.listen_host) && hops_ok
            },
            None => true,
        }
    }

    /// Whether this is the configuration that stands where none is given.
    pub fn is_default(&self) -> (r: bool)
        ensures
            r == (self@ == default_config()),
    {
        self.version == 1 && self.entry_node.is_none() && self.connection.is_none()
            && self.wireguard.is_none()
    }
}

impl ErrorView {
    /// The message of the error.
    pub open spec fn message(self) -> Seq<char> {
        match self {
            ErrorView::NoFile => "Config file not found"@,
            ErrorView::IO(text) => "IO error: "@ + text,
            ErrorView::Deserialization(text) => "Deserialization error: "@ + text,
            ErrorView::VersionMismatch(_) => "Unsupported config version"@,
            ErrorView::InvalidConnection => "Invalid listen host or hop count"@,
        }
    }
}

impl Error {
    /// The message of the error.
    pub fn to_string(&self) -> (r: String)
        ensures
            r@ == self@.message(),
    {
        match self {
            Error::NoFile => String::from_str("Config file not found"),
            Error::IO(text) => {
                let mut s = String::from_str("IO error: ");
                s.append(text.as_str());
                s
            },
            Error::Deserialization(text) => {
                let mut s = String::from_str("Deserialization error: ");
                s.append(text.as_str());
                s
            },
            Error::VersionMismatch(_) => String::from_str("Unsupported config version"),
            Error::InvalidConnection => String::from_str("Invalid listen host or hop count"),
        }
    }
}

/// Where the configuration is found unless another place is given.
pub const DEFAULT_PATH: &'static str = "/etc/gnosisvpn/config.toml";

/// Where the configuration is found: at the place given, else at the
/// default place.
pub fn path(given: Option<String>) -> (r: String)
    ensures
        r@ == (match given {
            Some(path) => path@,
            None => DEFAULT_PATH@,
        }),
{
    match given {
        Some(path) => path,
        None => String::from_str(DEFAULT_PATH),
    }
}

/// Takes what was read of the configuration: a configuration that may be
/// taken is handed on; one of another version than the one that is
/// understood is refused, and so is one whose connection may not stand; and
/// a failure to read stays what it was.
pub fn read(parsed: Result<Config, Error>) -> (r: Result<Config, Error>)
    ensures
        match parsed {
            Ok(config) => if config.version != SUPPORTED_CONFIG_VERSION {
                r matches Err(e) && e@ == ErrorView::VersionMismatch(config.version)
            } else if !config@.valid() {
                r matches Err(e) && e@ == ErrorView::InvalidConnection
            } else {
                r == Ok::<Config, Error>(config)
            },
            Err(error) => r == Err::<Config, Error>(error),
        },
{
    match parsed {
        Ok(config) => {
            if config.version != SUPPORTED_CONFIG_VERSION {
                Err(Error::VersionMismatch(config.version))
            } else if !config.is_valid() {
                Err(Error::InvalidConnection)
            } else {
                Ok(config)
            }
        },
        Err(error) => Err(error),
    }
}

} // verus!
