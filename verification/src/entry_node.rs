//! The entry node: the relay whose HTTP API opens sessions into the mixnet.

use crate::config::PathView;
use crate::config::SessionPathConfig;
use crate::json::Json;
use crate::json::JsonView;
use crate::remote_data::build_request;
use crate::remote_data::built;
use crate::remote_data::request_for;
use crate::remote_data::Method;
use crate::remote_data::Request;
use crate::remote_data::RequestError;
use vstd::prelude::*;
use vstd::string::*;

verus! {

/// The route through the mixnet that sessions of an entry node take.
pub type Path = SessionPathConfig;

/// The addresses that an entry node gives of itself.
#[derive(Clone, Debug, PartialEq)]
pub struct Addresses {
    pub hopr: String,
    pub native: String,
}

/// What `Addresses` stand for.
pub struct AddressesView {
    pub hopr: Seq<char>,
    pub native: Seq<char>,
}

impl DeepView for Addresses {
    type V = AddressesView;

    open spec fn deep_view(&self) -> AddressesView {
        AddressesView { hopr: self.hopr@, native: self.native@ }
    }
}

impl View for Addresses {
    type V = AddressesView;

    open spec fn view(&self) -> AddressesView {
        self.deep_view()
    }
}

/// What is known of the entry node while the daemon runs.
#[derive(Clone, Debug, PartialEq)]
pub struct EntryNode {
    pub endpoint: String,
    pub api_token: String,
    pub listen_host: Option<String>,
    pub path: Path,
    pub addresses: Option<Addresses>,
}

/// What an `EntryNode` stands for.
pub struct EntryNodeView {
    pub endpoint: Seq<char>,
    pub api_token: Seq<char>,
    pub listen_host: Option<Seq<char>>,
    pub path: PathView,
    pub addresses: Option<AddressesView>,
}

impl DeepView for EntryNode {
    type V = EntryNodeView;

    open spec fn deep_view(&self) -> EntryNodeView {
        EntryNodeView {
            endpoint: self.endpoint@,
            api_token: self.api_token@,
            listen_host: self.listen_host.deep_view(),
            path: self.path@,
            addresses: self.addresses.deep_view(),
        }
    }
}

impl View for EntryNode {
    type V = EntryNodeView;

    open spec fn view(&self) -> EntryNodeView {
        self.deep_view()
    }
}

/// The addresses that a document gives: an object with the texts `hopr` and
/// `native`.
pub open spec fn addresses_of(json: JsonView) -> Option<AddressesView> {
    match (json.member("hopr"@), json.member("native"@)) {
        (Some(JsonView::Text(hopr)), Some(JsonView::Text(native))) => Some(
            AddressesView { hopr, native },
        ),
        _ => None,
    }
}

impl Addresses {
    /// Reads the addresses from the answer of the entry node.
    pub fn from_json(json: &Json) -> (r: Option<Addresses>)
        ensures
            r.deep_view() == addresses_of(json@),
    {
        let hopr = match json.member("hopr") {
            Some(Json::Text(text)) => text.clone(),
            _ => {
                return None;
            },
        };
        let native = match json.member("native") {
            Some(Json::Text(text)) => text.clone(),
            _ => {
                return None;
            },
        };
        Some(Addresses { hopr, native })
    }
}

/// Where the addresses of the entry node are asked for.
pub open spec fn addresses_path() -> Seq<char> {
    "/api/v3/account/addresses"@
}

/// Where sessions are opened and listed.
pub open spec fn sessions_path() -> Seq<char> {
    "/api/v3/session/udp"@
}

impl EntryNodeView {
    /// A new record: nothing is known yet of the node's addresses.
    pub open spec fn new(
        endpoint: Seq<char>,
        api_token: Seq<char>,
        listen_host: Option<Seq<char>>,
        path: PathView,
    ) -> EntryNodeView {
        EntryNodeView { endpoint, api_token, listen_host, path, addresses: None }
    }

    /// The request that asks the node for its addresses.
    pub open spec fn addresses_request(self) -> Result<crate::remote_data::RequestView, RequestError> {
        request_for(Method::Get, self.endpoint, self.api_token, addresses_path(), None)
    }

    /// The request that asks the node for its open sessions.
    pub open spec fn list_request(self) -> Result<crate::remote_data::RequestView, RequestError> {
        request_for(Method::Get, self.endpoint, self.api_token, sessions_path(), None)
    }
}

impl EntryNode {
    /// A new record of an entry node. Its addresses are not known yet.
    pub fn new(endpoint: &str, api_token: &str, listen_host: Option<&str>, path: Path) -> (r:
        EntryNode)
        ensures
            r@ == EntryNodeView::new(
                endpoint@,
                api_token@,
                match listen_host {
                    Some(host) => Some(host@),
                    None => None,
                },
                path@,
            ),
    {
        EntryNode {
            endpoint: endpoint.to_owned(),
            api_token: api_token.to_owned(),
            listen_host: match listen_host {
                Some(host) => Some(host.to_owned()),
                None => None,
            },
            path,
            addresses: None,
        }
    }

    /// The request that asks the node for its addresses.
    pub fn query_addresses(&self) -> (r: Result<Request, RequestError>)
        ensures
            built(r) == self@.addresses_request(),
    {
        build_request(
            Method::Get,
            self.endpoint.as_str(),
            self.api_token.as_str(),
            "/api/v3/account/addresses",
            None,
        )
    }

    /// The request that asks the node for its open sessions.
    pub fn list_sessions(&self) -> (r: Result<Request, RequestError>)
        ensures
            built(r) == self@.list_request(),
    {
        build_request(
            Method::Get,
            self.endpoint.as_str(),
            self.api_token.as_str(),
            "/api/v3/session/udp",
            None,
        )
    }
}

} // verus!
