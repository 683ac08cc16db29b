//! Sessions: the UDP forwardings that the entry node opens into the mixnet,
//! how one is asked for, told apart from others, and closed.

use crate::config::default_session_target_host;
use crate::config::default_session_target_port;
use crate::config::PathView;
use crate::config::SessionCapabilitiesConfig;
use crate::config::SessionPathConfig;
use crate::config::SessionTargetConfig;
use crate::config::SessionTargetType;
use crate::config::SessionTargetView;
use crate::entry_node::sessions_path;
use crate::entry_node::EntryNode;
use crate::entry_node::EntryNodeView;
use crate::json::items_view;
use crate::json::members_view;
use crate::json::Json;
use crate::json::JsonView;
use crate::remote_data::build_request;
use crate::remote_data::built;
use crate::remote_data::request_for;
use crate::remote_data::Method;
use crate::remote_data::Request;
use crate::remote_data::RequestError;
use crate::remote_data::RequestView;
use crate::text::ascii_fold;
use crate::text::decimal;
use crate::text::decimal_string;
use crate::text::eq_ignore_ascii_case;
use vstd::prelude::*;
use vstd::std_specs::cmp::PartialEqSpecImpl;
use vstd::string::*;

verus! {

/// An open session, as the entry node names it.
#[derive(Clone, Debug)]
pub struct Session {
    pub ip: String,
    pub port: u16,
    pub protocol: String,
    pub target: String,
}

/// What a `Session` stands for.
pub struct SessionView {
    pub ip: Seq<char>,
    pub port: u16,
    pub protocol: Seq<char>,
    pub target: Seq<char>,
}

impl DeepView for Session {
    type V = SessionView;

    open spec fn deep_view(&self) -> SessionView {
        SessionView { ip: self.ip@, port: self.port, protocol: self.protocol@, target: self.target@ }
    }
}

impl View for Session {
    type V = SessionView;

    open spec fn view(&self) -> SessionView {
        self.deep_view()
    }
}

impl SessionView {
    /// That by which a session is told apart from others: where it listens,
    /// its protocol, and its target without regard to ASCII case.
    pub open spec fn identity(self) -> (Seq<char>, u16, Seq<char>, Seq<char>) {
        (self.ip, self.port, self.protocol, ascii_fold(self.target))
    }

    /// Whether two sessions are the same session.
    pub open spec fn same(self, other: SessionView) -> bool {
        self.identity() == other.identity()
    }

    /// Whether the session is among those listed.
    pub open spec fn listed(self, sessions: Seq<SessionView>) -> bool {
        exists|i: int| 0 <= i < sessions.len() && self.same(#[trigger] sessions[i])
    }

    /// Where the session is closed.
    pub open spec fn close_path(self) -> Seq<char> {
        sessions_path() + "/"@ + self.ip + "/"@ + decimal(self.port as nat)
    }

    /// The request that closes the session at the entry node given.
    pub open spec fn close_request(self, entry_node: EntryNodeView) -> Result<
        RequestView,
        RequestError,
    > {
        request_for(
            Method::Delete,
            entry_node.endpoint,
            entry_node.api_token,
            self.close_path(),
            None,
        )
    }

    /// How the session is printed.
    pub open spec fn printed(self) -> Seq<char> {
        "Session["@ + self.ip + ":"@ + decimal(self.port as nat) + " "@ + self.protocol + " "@
            + self.target + "]"@
    }
}

/// The session that a document names: an object with the texts `ip`,
/// `protocol` and `target` and a port number.
pub open spec fn session_of(json: JsonView) -> Option<SessionView> {
    match (
        json.member("ip"@),
        json.member("port"@),
        json.member("protocol"@),
        json.member("target"@),
    ) {
        (
            Some(JsonView::Text(ip)),
            Some(JsonView::Number(port)),
            Some(JsonView::Text(protocol)),
            Some(JsonView::Text(target)),
        ) => if port <= u16::MAX {
            Some(SessionView { ip, port: port as u16, protocol, target })
        } else {
            None
        },
        _ => None,
    }
}

/// The sessions that a document lists: an array whose every item names a
/// session.
pub open spec fn sessions_of(json: JsonView) -> Option<Seq<SessionView>> {
    match json {
        JsonView::Array(items) => if forall|i: int|
            0 <= i < items.len() ==> session_of(#[trigger] items[i]) is Some {
            Some(Seq::new(items.len(), |i: int| session_of(items[i])->0))
        } else {
            None
        },
        _ => None,
    }
}

impl Session {
    /// Reads the session that the entry node answered with.
    pub fn from_json(json: &Json) -> (r: Option<Session>)
        ensures
            r.deep_view() == session_of(json@),
    {
        let ip = match json.member("ip") {
            Some(Json::Text(text)) => text.clone(),
            _ => {
                return None;
            },
        };
        let port: u16 = match json.member("port") {
            Some(Json::Number(number)) => {
                if *number <= 65535 {
                    *number as u16
                } else {
                    return None;
                }
            },
            _ => {
                return None;
            },
        };
        let protocol = match json.member("protocol") {
            Some(Json::Text(text)) => text.clone(),
            _ => {
                return None;
            },
        };
        let target = match json.member("target") {
            Some(Json::Text(text)) => text.clone(),
            _ => {
                return None;
            },
        };
        Some(Session { ip, port, protocol, target })
    }

    /// Reads the sessions that the entry node listed.
    pub fn list_from_json(json: &Json) -> (r: Option<Vec<Session>>)
        ensures
            r.deep_view() == sessions_of(json@),
    {
        let items = match json.as_array() {
            Some(items) => items,
            None => {
                return None;
            },
        };
        let ghost views = items_view(items@);
        let mut sessions: Vec<Session> = Vec::new();
        let mut i: usize = 0;
        while i < items.len()
            invariant
                i <= items.len(),
                json@ == JsonView::Array(views),
                views == items_view(items@),
                sessions@.len() == i,
                forall|k: int| 0 <= k < i ==> session_of(#[trigger] views[k]) == Some(sessions@[k]@),
            decreases items.len() - i,
        {
            match Session::from_json(&items[i]) {
                Some(session) => {
                    sessions.push(session);
                },
                None => {
                    assert(session_of(views[i as int]) is None);
                    return None;
                },
            }
            i = i + 1;
        }
        assert(sessions.deep_view() =~= sessions_of(json@)->0);
        Some(sessions)
    }

    /// Whether two sessions are the same session.
    pub fn same(&self, other: &Session) -> (r: bool)
        ensures
            r == self@.same(other@),
    {
        self.ip == other.ip && self.port == other.port && self.protocol == other.protocol
            && eq_ignore_ascii_case(self.target.as_str(), other.target.as_str())
    }

    /// Whether the session is still open: it is among the sessions listed.
    pub fn verify_open(&self, sessions: &[Session]) -> (r: bool)
        ensures
            r == self@.listed(sessions.deep_view()),
    {
        let mut i: usize = 0;
        while i < sessions.len()
            invariant
                i <= sessions.len(),
                forall|k: int| 0 <= k < i ==> !self@.same(#[trigger] sessions.deep_view()[k]),
            decreases sessions.len() - i,
        {
            if self.same(&sessions[i]) {
                assert(self@.same(sessions.deep_view()[i as int]));
                return true;
            }
            i = i + 1;
        }
        false
    }

    /// The request that closes the session at the entry node given.
    pub fn close(&self, entry_node: &EntryNode) -> (r: Result<Request, RequestError>)
        ensures
            built(r) == self@.close_request(entry_node@),
    {
        let mut path = String::from_str("/api/v3/session/udp");
        path.append("/");
        path.append(self.ip.as_str());
        path.append("/");
        path.append(decimal_string(self.port as u64).as_str());
        build_request(
            Method::Delete,
            entry_node.endpoint.as_str(),
            entry_node.api_token.as_str(),
            path.as_str(),
            None,
        )
    }

    /// Prints the session.
    pub fn to_string(&self) -> (r: String)
        ensures
            r@ == self@.printed(),
    {
        let mut s = String::from_str("Session[");
        s.append(self.ip.as_str());
        s.append(":");
        s.append(decimal_string(self.port as u64).as_str());
        s.append(" ");
        s.append(self.protocol.as_str());
        s.append(" ");
        s.append(self.target.as_str());
        s.append("]");
        s
    }

    /// A copy of the session.
    pub fn duplicate(&self) -> (r: Session)
        ensures
            r@ == self@,
    {
        Session {
            ip: self.ip.clone(),
            port: self.port,
            protocol: self.protocol.clone(),
            target: self.target.clone(),
        }
    }
}

impl PartialEq for Session {
    fn eq(&self, other: &Session) -> (r: bool) {
        self.same(other)
    }
}

impl PartialEqSpecImpl for Session {
    open spec fn obeys_eq_spec() -> bool {
        true
    }

    open spec fn eq_spec(&self, other: &Session) -> bool {
        self@.same(other@)
    }
}

/// A session is the same as itself, so a session that is listed as it stands
/// is found.
pub proof fn lemma_listed_is_reflexive(session: SessionView, sessions: Seq<SessionView>, i: int)
    requires
        0 <= i < sessions.len(),
        sessions[i] == session,
    ensures
        session.same(session),
        session.listed(sessions),
{
    assert(session.same(sessions[i]));
}

/// Case in the target does not tell sessions apart: two sessions that differ
/// in nothing but the ASCII case of their targets are the same session, and
/// each is found in a list where the other is.
pub proof fn lemma_listed_ignores_case(a: SessionView, b: SessionView, sessions: Seq<SessionView>)
    requires
        a.ip == b.ip,
        a.port == b.port,
        a.protocol == b.protocol,
        ascii_fold(a.target) == ascii_fold(b.target),
    ensures
        a.same(b),
        a.listed(sessions) == b.listed(sessions),
{
    if a.listed(sessions) {
        let i = choose|i: int| 0 <= i < sessions.len() && a.same(#[trigger] sessions[i]);
        assert(b.same(sessions[i]));
    }
    if b.listed(sessions) {
        let i = choose|i: int| 0 <= i < sessions.len() && b.same(#[trigger] sessions[i]);
        assert(a.same(sessions[i]));
    }
}

/// What is needed to ask for a session.
#[derive(Clone, Debug, PartialEq)]
pub struct OpenSession {
    pub endpoint: String,
    pub api_token: String,
    pub destination: String,
    pub capabilities: Option<Vec<SessionCapabilitiesConfig>>,
    pub listen_host: Option<String>,
    pub path: Option<SessionPathConfig>,
    pub target: Option<SessionTargetConfig>,
}

/// What an `OpenSession` stands for.
pub struct OpenSessionView {
    pub endpoint: Seq<char>,
    pub api_token: Seq<char>,
    pub destination: Seq<char>,
    pub capabilities: Option<Seq<SessionCapabilitiesConfig>>,
    pub listen_host: Option<Seq<char>>,
    pub path: Option<PathView>,
    pub target: Option<SessionTargetView>,
}

impl DeepView for OpenSession {
    type V = OpenSessionView;

    open spec fn deep_view(&self) -> OpenSessionView {
        OpenSessionView {
            endpoint: self.endpoint@,
            api_token: self.api_token@,
            destination: self.destination@,
            capabilities: self.capabilities.deep_view(),
            listen_host: self.listen_host.deep_view(),
            path: self.path.deep_view(),
            target: self.target.deep_view(),
        }
    }
}

impl View for OpenSession {
    type V = OpenSessionView;

    open spec fn view(&self) -> OpenSessionView {
        self.deep_view()
    }
}

/// An object with one member.
pub open spec fn single(name: Seq<char>, value: JsonView) -> JsonView {
    JsonView::Object(seq![(name, value)])
}

/// The target as it is sent: its type, and under it the host and the port.
/// What is not given is `Plain`, `wg-server` and 51820.
pub open spec fn target_json(target: Option<SessionTargetView>) -> JsonView {
    let given = match target {
        Some(target) => target,
        None => crate::config::default_target(),
    };
    let kind = match given.type_ {
        Some(kind) => kind,
        None => SessionTargetType::Plain,
    };
    let host = match given.host {
        Some(host) => host,
        None => "wg-server"@,
    };
    let port: u16 = match given.port {
        Some(port) => port,
        None => 51820,
    };
    single(kind.name(), JsonView::Text(host + ":"@ + decimal(port as nat)))
}

/// The path as it is sent: the number of hops, or the relays by name. Where
/// none is given it is one hop.
pub open spec fn path_json(path: Option<PathView>) -> JsonView {
    match path {
        Some(PathView::Hop(hops)) => single("Hops"@, JsonView::Number(hops as u64)),
        Some(PathView::Intermediates(ids)) => single(
            "IntermediatePath"@,
            JsonView::Array(Seq::new(ids.len(), |i: int| JsonView::Text(ids[i]))),
        ),
        None => single("Hops"@, JsonView::Number(1)),
    }
}

/// The capabilities as they are sent: their names. Where none are given it
/// is segmentation alone.
pub open spec fn capabilities_json(capabilities: Option<Seq<SessionCapabilitiesConfig>>) -> JsonView {
    match capabilities {
        Some(list) => JsonView::Array(Seq::new(list.len(), |i: int| JsonView::Text(list[i].name()))),
        None => JsonView::Array(seq![JsonView::Text("Segmentation"@)]),
    }
}

impl OpenSessionView {
    /// The document that asks for the session.
    pub open spec fn body(self) -> JsonView {
        JsonView::Object(
            seq![
                ("destination"@, JsonView::Text(self.destination)),
                ("target"@, target_json(self.target)),
                ("path"@, path_json(self.path)),
            ] + (match self.listen_host {
                Some(host) => seq![("listenHost"@, JsonView::Text(host))],
                None => seq![],
            }) + seq![("capabilities"@, capabilities_json(self.capabilities))],
        )
    }

    /// The request that asks for the session.
    pub open spec fn request(self) -> Result<RequestView, RequestError> {
        request_for(Method::Post, self.endpoint, self.api_token, sessions_path(), Some(self.body()))
    }
}

fn single_member(name: &str, value: Json) -> (r: Json)
    ensures
        r@ == single(name@, value@),
{
    let mut members: Vec<(String, Json)> = Vec::new();
    members.push((name.to_owned(), value));
    assert(members_view(members@) =~= seq![(name@, value@)]);
    Json::object(members)
}

fn target_document(target: &Option<SessionTargetConfig>) -> (r: Json)
    ensures
        r@ == target_json(target.deep_view()),
{
    let fallback = SessionTargetConfig::default();
    let given = match target {
        Some(target) => target,
        None => &fallback,
    };
    let kind = match given.type_ {
        Some(kind) => kind,
        None => SessionTargetType::Plain,
    };
    let mut address = match &given.host {
        Some(host) => host.clone(),
        None => default_session_target_host(),
    };
    let port = match given.port {
        Some(port) => port,
        None => default_session_target_port(),
    };
    address.append(":");
    address.append(decimal_string(port as u64).as_str());
    single_member(kind.to_string().as_str(), Json::Text(address))
}

fn path_document(path: &Option<SessionPathConfig>) -> (r: Json)
    ensures
        r@ == path_json(path.deep_view()),
{
    match path {
        Some(SessionPathConfig::Hop(hops)) => single_member("Hops", Json::Number(*hops as u64)),
        Some(SessionPathConfig::Intermediates(ids)) => {
            let mut names: Vec<Json> = Vec::new();
            let mut i: usize = 0;
            while i < ids.len()
                invariant
                    i <= ids.len(),
                    names@.len() == i,
                    forall|k: int| 0 <= k < i ==> names@[k]@ == JsonView::Text(ids@[k]@),
                decreases ids.len() - i,
            {
                names.push(Json::Text(ids[i].to_base58()));
                i = i + 1;
            }
            assert(items_view(names@) =~= Seq::new(
                ids.deep_view().len(),
                |i: int| JsonView::Text(ids.deep_view()[i]),
            ));
            single_member("IntermediatePath", Json::array(names))
        },
        None => single_member("Hops", Json::Number(1)),
    }
}

fn capabilities_document(capabilities: &Option<Vec<SessionCapabilitiesConfig>>) -> (r: Json)
    ensures
        r@ == capabilities_json(capabilities.deep_view()),
{
    let mut names: Vec<Json> = Vec::new();
    match capabilities {
        Some(list) => {
            let mut i: usize = 0;
            while i < list.len()
                invariant
                    i <= list.len(),
                    names@.len() == i,
                    forall|k: int| 0 <= k < i ==> names@[k]@ == JsonView::Text(list@[k].name()),
                decreases list.len() - i,
            {
                names.push(Json::Text(list[i].to_string()));
                i = i + 1;
            }
            assert(items_view(names@) =~= Seq::new(
                list.deep_view().len(),
                |i: int| JsonView::Text(list.deep_view()[i].name()),
            ));
        },
        None => {
            names.push(Json::text("Segmentation"));
            assert(items_view(names@) =~= seq![JsonView::Text("Segmentation"@)]);
        },
    }
    Json::array(names)
}

/// The request that asks the entry node for a session: to whom, to what
/// target, by what path, with which capabilities and, where one is
/// configured, on which host to listen.
pub fn open(open_session: &OpenSession) -> (r: Result<Request, RequestError>)
    ensures
        built(r) == open_session@.request(),
{
    let mut members: Vec<(String, Json)> = Vec::new();
    members.push(
        (String::from_str("destination"), Json::Text(open_session.destination.clone())),
    );
    members.push((String::from_str("target"), target_document(&open_session.target)));
    members.push((String::from_str("path"), path_document(&open_session.path)));
    if let Some(host) = &open_session.listen_host {
        members.push((String::from_str("listenHost"), Json::Text(host.clone())));
    }
    members.push(
        (String::from_str("capabilities"), capabilities_document(&open_session.capabilities)),
    );
    let body = Json::object(members);
    assert(body@->Object_0 =~= open_session@.body()->Object_0);
    build_request(
        Method::Post,
        open_session.endpoint.as_str(),
        open_session.api_token.as_str(),
        "/api/v3/session/udp",
        Some(body),
    )
}

} // verus!
