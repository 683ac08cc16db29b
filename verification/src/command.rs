//! The commands that the control tool sends to the daemon.

use crate::cli::hops_ok;
use crate::cli::listen_host_valid;
use crate::cli::maxhop;
use crate::cli::valid_listen_host;
use crate::config::PathView;
use crate::config::SessionPathConfig;
use crate::endpoint::is_url;
use crate::endpoint::url_text;
use crate::json::lookup;
use crate::json::members_view;
use crate::json::Json;
use crate::json::JsonView;
use crate::peer_id::is_peer_id;
use crate::peer_id::peer_id_text;
use crate::peer_id::PeerId;
use crate::session::single;
use vstd::prelude::*;
use vstd::string::*;

verus! {

/// A command to the daemon.
#[derive(Clone, Debug, PartialEq)]
pub enum Command {
    /// Asks what the daemon is doing.
    Status,
    /// Names the entry node.
    EntryNode {
        endpoint: String,
        api_token: String,
        listen_host: Option<String>,
        hop: Option<u8>,
        intermediate_id: Option<PeerId>,
    },
    /// Names the exit node.
    ExitNode { peer_id: PeerId },
}

/// What a `Command` stands for.
pub enum CommandView {
    Status,
    EntryNode {
        endpoint: Seq<char>,
        api_token: Seq<char>,
        listen_host: Option<Seq<char>>,
        hop: Option<u8>,
        intermediate_id: Option<Seq<char>>,
    },
    ExitNode { peer_id: Seq<char> },
}

impl DeepView for Command {
    type V = CommandView;

    open spec fn deep_view(&self) -> CommandView {
        match self {
            Command::Status => CommandView::Status,
            Command::EntryNode { endpoint, api_token, listen_host, hop, intermediate_id } => {
                CommandView::EntryNode {
                    endpoint: endpoint@,
                    api_token: api_token@,
                    listen_host: listen_host.deep_view(),
                    hop: *hop,
                    intermediate_id: intermediate_id.deep_view(),
                }
            },
            Command::ExitNode { peer_id } => CommandView::ExitNode { peer_id: peer_id@ },
        }
    }
}

impl View for Command {
    type V = CommandView;

    open spec fn view(&self) -> CommandView {
        self.deep_view()
    }
}

/// The path that a command asks for: the hops where they are given, else
/// the relay where one is given, else one hop.
pub open spec fn chosen_path(hop: Option<u8>, intermediate_id: Option<Seq<char>>) -> PathView {
    match (hop, intermediate_id) {
        (Some(hops), _) => PathView::Hop(hops),
        (None, Some(id)) => PathView::Intermediates(seq![id]),
        (None, None) => PathView::Hop(1),
    }
}

/// The path that a command asks for.
pub fn choose_path(hop: &Option<u8>, intermediate_id: &Option<PeerId>) -> (r: SessionPathConfig)
    ensures
        r@ == chosen_path(*hop, intermediate_id.deep_view()),
{
    match (hop, intermediate_id) {
        (Some(hops), _) => SessionPathConfig::Hop(*hops),
        (None, Some(id)) => {
            let mut ids: Vec<PeerId> = Vec::new();
            ids.push(id.duplicate());
            assert(ids.deep_view() =~= seq![id@]);
            SessionPathConfig::Intermediates(ids)
        },
        (None, None) => SessionPathConfig::Hop(1),
    }
}

/// A text where there is one, and `null` where there is none.
pub open spec fn text_or_null(text: Option<Seq<char>>) -> JsonView {
    match text {
        Some(text) => JsonView::Text(text),
        None => JsonView::Null,
    }
}

/// The members of the command that names the entry node, as they are sent.
pub open spec fn entry_members(
    endpoint: Seq<char>,
    api_token: Seq<char>,
    listen_host: Option<Seq<char>>,
    hop: Option<u8>,
    intermediate_id: Option<Seq<char>>,
) -> Seq<(Seq<char>, JsonView)> {
    seq![
        ("endpoint"@, JsonView::Text(endpoint)),
        ("api_token"@, JsonView::Text(api_token)),
        ("listen_host"@, text_or_null(listen_host)),
        (
            "hop"@,
            match hop {
                Some(hops) => JsonView::Number(hops as u64),
                None => JsonView::Null,
            },
        ),
        ("intermediate_id"@, text_or_null(intermediate_id)),
    ]
}

impl CommandView {
    /// The document that is sent for the command: the name of the command
    /// alone where it has nothing to say, else an object with the name as its
    /// one member and what the command says under it.
    pub open spec fn json(self) -> JsonView {
        match self {
            CommandView::Status => JsonView::Text("Status"@),
            CommandView::EntryNode { endpoint, api_token, listen_host, hop, intermediate_id } => {
                single(
                    "EntryNode"@,
                    JsonView::Object(
                        entry_members(endpoint, api_token, listen_host, hop, intermediate_id),
                    ),
                )
            },
            CommandView::ExitNode { peer_id } => single(
                "ExitNode"@,
                JsonView::Object(seq![("peer_id"@, JsonView::Text(peer_id))]),
            ),
        }
    }

    /// Whether the command may reach the daemon: its endpoint is a URL, its
    /// peers are peer identities, its listening host names where to listen,
    /// and it asks for three hops at most.
    pub open spec fn valid(self) -> bool {
        match self {
            CommandView::Status => true,
            CommandView::EntryNode { endpoint, listen_host, hop, intermediate_id, .. } => {
                &&& is_url(endpoint)
                &&& listen_host_valid(listen_host)
                &&& hops_ok(hop)
                &&& intermediate_id matches Some(id) ==> is_peer_id(id)
            },
            CommandView::ExitNode { peer_id } => is_peer_id(peer_id),
        }
    }

    /// The command as it is printed: with its token masked.
    pub open spec fn masked(self) -> CommandView {
        match self {
            CommandView::EntryNode { endpoint, api_token, listen_host, hop, intermediate_id } => {
                CommandView::EntryNode {
                    endpoint,
                    api_token: crate::report::masked(),
                    listen_host,
                    hop,
                    intermediate_id,
                }
            },
            other => other,
        }
    }
}

/// The text of a member that may be left out or be `null`. No text is an
/// answer too; a member that is neither has none.
pub open spec fn optional_text(member: Option<JsonView>) -> Option<Option<Seq<char>>> {
    match member {
        None => Some(None),
        Some(JsonView::Null) => Some(None),
        Some(JsonView::Text(text)) => Some(Some(text)),
        _ => None,
    }
}

/// The number of hops of a member that may be left out or be `null`.
pub open spec fn optional_hop(member: Option<JsonView>) -> Option<Option<u8>> {
    match member {
        None => Some(None),
        Some(JsonView::Null) => Some(None),
        Some(JsonView::Number(hops)) => if hops <= u8::MAX {
            Some(Some(hops as u8))
        } else {
            None
        },
        _ => None,
    }
}

/// The peer identity of a member that may be left out or be `null`.
pub open spec fn optional_peer(member: Option<JsonView>) -> Option<Option<Seq<char>>> {
    match optional_text(member) {
        Some(Some(text)) => match peer_id_text(text) {
            Some(id) => if is_peer_id(id) {
                Some(Some(id))
            } else {
                None
            },
            None => None,
        },
        Some(None) => Some(None),
        None => None,
    }
}

/// The command that names the entry node, read from what it says.
pub open spec fn entry_command(body: JsonView) -> Option<CommandView> {
    match (
        body.member("endpoint"@),
        body.member("api_token"@),
        optional_text(body.member("listen_host"@)),
        optional_hop(body.member("hop"@)),
        optional_peer(body.member("intermediate_id"@)),
    ) {
        (
            Some(JsonView::Text(endpoint)),
            Some(JsonView::Text(api_token)),
            Some(listen_host),
            Some(hop),
            Some(intermediate_id),
        ) => match url_text(endpoint) {
            Some(url) => if is_url(url) && listen_host_valid(listen_host) && hops_ok(hop) {
                Some(
                    CommandView::EntryNode {
                        endpoint: url,
                        api_token,
                        listen_host,
                        hop,
                        intermediate_id,
                    },
                )
            } else {
                None
            },
            None => None,
        },
        _ => None,
    }
}

/// The command that names the exit node, read from what it says.
pub open spec fn exit_command(body: JsonView) -> Option<CommandView> {
    match body.member("peer_id"@) {
        Some(JsonView::Text(text)) => match peer_id_text(text) {
            Some(id) => if is_peer_id(id) {
                Some(CommandView::ExitNode { peer_id: id })
            } else {
                None
            },
            None => None,
        },
        _ => None,
    }
}

/// The command that a document stands for, where it stands for one that
/// may reach the daemon.
pub open spec fn command_of(json: JsonView) -> Option<CommandView> {
    match json {
        JsonView::Text(name) => if name == "Status"@ {
            Some(CommandView::Status)
        } else {
            None
        },
        JsonView::Object(members) => if members.len() != 1 {
            None
        } else if members[0].0 == "EntryNode"@ {
            entry_command(members[0].1)
        } else if members[0].0 == "ExitNode"@ {
            exit_command(members[0].1)
        } else {
            None
        },
        _ => None,
    }
}

fn named(name: &str, value: Json) -> (r: (String, Json))
    ensures
        r.0@ == name@,
        r.1@ == value@,
{
    (String::from_str(name), value)
}

fn optional_text_document(text: &Option<String>) -> (r: Json)
    ensures
        r@ == text_or_null(text.deep_view()),
{
    match text {
        Some(text) => Json::Text(text.clone()),
        None => Json::Null,
    }
}

fn read_optional_text(member: Option<&Json>) -> (r: Option<Option<String>>)
    ensures
        r.deep_view() == optional_text(
            match member {
                Some(json) => Some(json@),
                None => None,
            },
        ),
{
    match member {
        None => Some(None),
        Some(Json::Null) => Some(None),
        Some(Json::Text(text)) => Some(Some(text.clone())),
        _ => None,
    }
}

fn read_optional_hop(member: Option<&Json>) -> (r: Option<Option<u8>>)
    ensures
        r == optional_hop(
            match member {
                Some(json) => Some(json@),
                None => None,
            },
        ),
{
    match member {
        None => Some(None),
        Some(Json::Null) => Some(None),
        Some(Json::Number(hops)) => {
            if *hops <= 255 {
                Some(Some(*hops as u8))
            } else {
                None
            }
        },
        _ => None,
    }
}

fn read_optional_peer(member: Option<&Json>) -> (r: Option<Option<PeerId>>)
    ensures
        r.deep_view() == optional_peer(
            match member {
                Some(json) => Some(json@),
                None => None,
            },
        ),
        r matches Some(Some(id)) ==> id.valid(),
{
    match read_optional_text(member) {
        Some(Some(text)) => match PeerId::from_base58(text.as_str()) {
            Some(id) => Some(Some(id)),
            None => None,
        },
        Some(None) => Some(None),
        None => None,
    }
}

impl Command {
    /// Whether the command may reach the daemon.
    pub open spec fn valid(&self) -> bool {
        self@.valid()
    }

    /// Whether the command may reach the daemon: what it says of the
    /// listening host and of the hops may stand. Its endpoint and its peers
    /// are taken as they are.
    pub fn validate(&self) -> (r: bool)
        ensures
            r == match self@ {
                CommandView::EntryNode { listen_host, hop, .. } => listen_host_valid(listen_host)
                    && hops_ok(hop),
                _ => true,
            },
    {
        match self {
            Command::EntryNode { listen_host, hop, .. } => valid_listen_host(listen_host)
                && maxhop(hop),
            _ => true,
        }
    }

    /// The command as it is printed: with its token masked.
    pub fn masked(&self) -> (r: Command)
        ensures
            r@ == self@.masked(),
    {
        match self {
            Command::Status => Command::Status,
            Command::EntryNode { endpoint, listen_host, hop, intermediate_id, .. } => {
                Command::EntryNode {
                    endpoint: endpoint.clone(),
                    api_token: String::from_str("*****"),
                    listen_host: match listen_host {
                        Some(host) => Some(host.clone()),
                        None => None,
                    },
                    hop: *hop,
                    intermediate_id: match intermediate_id {
                        Some(id) => Some(id.duplicate()),
                        None => None,
                    },
                }
            },
            Command::ExitNode { peer_id } => Command::ExitNode { peer_id: peer_id.duplicate() },
        }
    }

    /// The text that is sent for the command.
    pub fn to_wire(&self) -> (r: String)
        ensures
            r@ == crate::json::rendered(self@.json()),
    {
        self.to_json().render()
    }

    /// The text in which the command is printed: what would be sent for it
    /// if its token were the mask.
    pub fn to_string(&self) -> (r: String)
        ensures
            r@ == crate::json::rendered(self@.masked().json()),
    {
        self.masked().to_json().render()
    }

    /// Reads the command that a text stands for. A text that stands for
    /// none, or for one that may not reach the daemon, is refused.
    pub fn from_str(text: &str) -> (r: Option<Command>)
        ensures
            r.deep_view() == (match crate::json::parsed(text@, crate::json::MAX_DEPTH as nat) {
                Some(json) => command_of(json),
                None => None,
            }),
            r matches Some(command) ==> command.valid(),
    {
        match Json::parse(text) {
            Some(json) => Command::from_json(&json),
            None => None,
        }
    }

    /// The document that is sent for the command.
    pub fn to_json(&self) -> (r: Json)
        ensures
            r@ == self@.json(),
    {
        match self {
            Command::Status => Json::text("Status"),
            Command::EntryNode { endpoint, api_token, listen_host, hop, intermediate_id } => {
                let mut members: Vec<(String, Json)> = Vec::new();
                members.push(named("endpoint", Json::Text(endpoint.clone())));
                members.push(named("api_token", Json::Text(api_token.clone())));
                members.push(named("listen_host", optional_text_document(listen_host)));
                members.push(
                    named(
                        "hop",
                        match hop {
                            Some(hops) => Json::Number(*hops as u64),
                            None => Json::Null,
                        },
                    ),
                );
                let id = match intermediate_id {
                    Some(id) => Json::Text(id.to_base58()),
                    None => Json::Null,
                };
                members.push(named("intermediate_id", id));
                assert(members_view(members@) =~= entry_members(
                    endpoint@,
                    api_token@,
                    listen_host.deep_view(),
                    *hop,
                    intermediate_id.deep_view(),
                ));
                let mut outer: Vec<(String, Json)> = Vec::new();
                outer.push(named("EntryNode", Json::object(members)));
                assert(members_view(outer@) =~= seq![
                    (
                        "EntryNode"@,
                        JsonView::Object(
                            entry_members(
                                endpoint@,
                                api_token@,
                                listen_host.deep_view(),
                                *hop,
                                intermediate_id.deep_view(),
                            ),
                        ),
                    ),
                ]);
                Json::object(outer)
            },
            Command::ExitNode { peer_id } => {
                let mut members: Vec<(String, Json)> = Vec::new();
                members.push(named("peer_id", Json::Text(peer_id.to_base58())));
                assert(members_view(members@) =~= seq![("peer_id"@, JsonView::Text(peer_id@))]);
                let mut outer: Vec<(String, Json)> = Vec::new();
                outer.push(named("ExitNode", Json::object(members)));
                assert(members_view(outer@) =~= seq![
                    ("ExitNode"@, JsonView::Object(seq![("peer_id"@, JsonView::Text(peer_id@))])),
                ]);
                Json::object(outer)
            },
        }
    }

    /// Reads the command that a document stands for. A document that stands
    /// for none, or for one that may not reach the daemon, is refused.
    pub fn from_json(json: &Json) -> (r: Option<Command>)
        ensures
            r.deep_view() == command_of(json@),
            r matches Some(command) ==> command.valid(),
    {
        match json {
            Json::Text(name) => {
                if crate::text::same_text(name.as_str(), "Status") {
                    Some(Command::Status)
                } else {
                    None
                }
            },
            Json::Object(members) => {
                proof {
                    crate::json::lemma_object_view(*members);
                }
                if members.len() != 1 {
                    return None;
                }
                let name = members[0].0.as_str();
                let body = &members[0].1;
                assert(members_view(members@)[0] == (members@[0].0@, members@[0].1@));
                if crate::text::same_text(name, "EntryNode") {
                    Command::entry_from_json(body)
                } else if crate::text::same_text(name, "ExitNode") {
                    Command::exit_from_json(body)
                } else {
                    None
                }
            },
            _ => None,
        }
    }

    fn entry_from_json(body: &Json) -> (r: Option<Command>)
        ensures
            r.deep_view() == entry_command(body@),
            r matches Some(command) ==> command.valid(),
    {
        let endpoint = match body.member("endpoint") {
            Some(Json::Text(text)) => text,
            _ => {
                return None;
            },
        };
        let api_token = match body.member("api_token") {
            Some(Json::Text(text)) => text.clone(),
            _ => {
                return None;
            },
        };
        let listen_host = match read_optional_text(body.member("listen_host")) {
            Some(listen_host) => listen_host,
            None => {
                return None;
            },
        };
        let hop = match read_optional_hop(body.member("hop")) {
            Some(hop) => hop,
            None => {
                return None;
            },
        };
        let intermediate_id = match read_optional_peer(body.member("intermediate_id")) {
            Some(id) => id,
            None => {
                return None;
            },
        };
        let url = match crate::endpoint::normalize(endpoint.as_str()) {
            Some(url) => url,
            None => {
                return None;
            },
        };
        if valid_listen_host(&listen_host) && maxhop(&hop) {
            Some(Command::EntryNode { endpoint: url, api_token, listen_host, hop, intermediate_id })
        } else {
            None
        }
    }

    fn exit_from_json(body: &Json) -> (r: Option<Command>)
        ensures
            r.deep_view() == exit_command(body@),
            r matches Some(command) ==> command.valid(),
    {
        match body.member("peer_id") {
            Some(Json::Text(text)) => match PeerId::from_base58(text.as_str()) {
                Some(peer_id) => Some(Command::ExitNode { peer_id }),
                None => None,
            },
            _ => None,
        }
    }
}

proof fn lemma_entry_members_found(
    endpoint: Seq<char>,
    api_token: Seq<char>,
    listen_host: Option<Seq<char>>,
    hop: Option<u8>,
    intermediate_id: Option<Seq<char>>,
)
    ensures
        ({
            let members = entry_members(endpoint, api_token, listen_host, hop, intermediate_id);
            &&& lookup(members, "endpoint"@) == Some(JsonView::Text(endpoint))
            &&& lookup(members, "api_token"@) == Some(JsonView::Text(api_token))
            &&& lookup(members, "listen_host"@) == Some(text_or_null(listen_host))
            &&& lookup(members, "hop"@) == Some(
                match hop {
                    Some(hops) => JsonView::Number(hops as u64),
                    None => JsonView::Null,
                },
            )
            &&& lookup(members, "intermediate_id"@) == Some(text_or_null(intermediate_id))
        }),
{
    reveal_strlit("endpoint");
    reveal_strlit("api_token");
    reveal_strlit("listen_host");
    reveal_strlit("hop");
    reveal_strlit("intermediate_id");
    let members = entry_members(endpoint, api_token, listen_host, hop, intermediate_id);
    let four = members.drop_last();
    let three = four.drop_last();
    let two = three.drop_last();
    let one = two.drop_last();
    assert(members.last().0 == "intermediate_id"@);
    assert(four.last().0 == "hop"@);
    assert(three.last().0 == "listen_host"@);
    assert(two.last().0 == "api_token"@);
    assert(one.last().0 == "endpoint"@);
    assert("endpoint"@.len() == 8);
    assert("api_token"@.len() == 9);
    assert("listen_host"@.len() == 11);
    assert("hop"@.len() == 3);
    assert("intermediate_id"@.len() == 15);
    reveal_with_fuel(lookup, 6);
}

/// A command that may reach the daemon is read back, from the document that
/// is sent for it, as the command that it is: with the token that it holds,
/// and not with the mask that stands for the token where the command is
/// printed.
pub proof fn lemma_sent_command_reads_back(command: CommandView)
    requires
        command.valid(),
    ensures
        command_of(command.json()) == Some(command),
{
    reveal_strlit("Status");
    reveal_strlit("EntryNode");
    reveal_strlit("ExitNode");
    reveal_strlit("peer_id");
    match command {
        CommandView::Status => {},
        CommandView::EntryNode { endpoint, api_token, listen_host, hop, intermediate_id } => {
            lemma_entry_members_found(endpoint, api_token, listen_host, hop, intermediate_id);
            assert("EntryNode"@.len() == 9);
            let body = JsonView::Object(
                entry_members(endpoint, api_token, listen_host, hop, intermediate_id),
            );
            assert(command.json() == single("EntryNode"@, body));
            assert(entry_command(body) == Some(command));
        },
        CommandView::ExitNode { peer_id } => {
            let members = seq![("peer_id"@, JsonView::Text(peer_id))];
            assert(members.last().0 == "peer_id"@);
            assert("EntryNode"@.len() == 9);
            assert("ExitNode"@.len() == 8);
            assert(lookup(members, "peer_id"@) == Some(JsonView::Text(peer_id)));
        },
    }
}

/// Where a command is printed its token is masked, and nothing else of it
/// is changed; what is sent for a command holds the token itself.
pub proof fn lemma_token_masked_in_print_only(
    endpoint: Seq<char>,
    api_token: Seq<char>,
    listen_host: Option<Seq<char>>,
    hop: Option<u8>,
    intermediate_id: Option<Seq<char>>,
)
    ensures
        ({
            let command = CommandView::EntryNode {
                endpoint,
                api_token,
                listen_host,
                hop,
                intermediate_id,
            };
            &&& command.masked() == CommandView::EntryNode {
                endpoint,
                api_token: crate::report::masked(),
                listen_host,
                hop,
                intermediate_id,
            }
            &&& command.json()->Object_0[0].1.member("api_token"@) == Some(
                JsonView::Text(api_token),
            )
            &&& command.masked().json()->Object_0[0].1.member("api_token"@) == Some(
                JsonView::Text(crate::report::masked()),
            )
        }),
{
    lemma_entry_members_found(endpoint, api_token, listen_host, hop, intermediate_id);
    lemma_entry_members_found(
        endpoint,
        crate::report::masked(),
        listen_host,
        hop,
        intermediate_id,
    );
}

} // verus!
