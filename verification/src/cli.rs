//! What the control tool takes on its command line, and what it checks of
//! it before anything is sent to the daemon.

use crate::endpoint::host_accepted;
use crate::endpoint::host_parses;
use crate::peer_id::PeerId;
use crate::text::find_nth;
use crate::text::nth_index;
use crate::text::parse_unsigned;
use crate::text::unsigned_value;
use vstd::prelude::*;
use vstd::string::*;

verus! {

/// A command as it is given on the command line.
#[derive(Clone, Debug, PartialEq)]
pub enum Command {
    /// Specifies the entry node
    EntryNode {
        endpoint: String,
        api_token: String,
        listen_host: Option<String>,
        hop: Option<u8>,
        intermediate_id: Option<PeerId>,
    },
    /// Specifies the exit node
    ExitNode { peer_id: PeerId },
    /// Displays the current status
    Status,
}

impl DeepView for Command {
    type V = crate::command::CommandView;

    open spec fn deep_view(&self) -> crate::command::CommandView {
        match self {
            Command::Status => crate::command::CommandView::Status,
            Command::EntryNode { endpoint, api_token, listen_host, hop, intermediate_id } => {
                crate::command::CommandView::EntryNode {
                    endpoint: endpoint@,
                    api_token: api_token@,
                    listen_host: listen_host.deep_view(),
                    hop: *hop,
                    intermediate_id: intermediate_id.deep_view(),
                }
            },
            Command::ExitNode { peer_id } => crate::command::CommandView::ExitNode {
                peer_id: peer_id@,
            },
        }
    }
}

impl View for Command {
    type V = crate::command::CommandView;

    open spec fn view(&self) -> crate::command::CommandView {
        self.deep_view()
    }
}

/// The most hops that a path may have.
pub const MAX_HOPS: u8 = 3;

/// Whether a number of hops may be asked for: none given, or at most three.
pub open spec fn hops_ok(hop: Option<u8>) -> bool {
    match hop {
        Some(hops) => hops <= MAX_HOPS,
        None => true,
    }
}

/// Whether a number of hops may be asked for.
pub fn maxhop(hop: &Option<u8>) -> (r: bool)
    ensures
        r == hops_ok(*hop),
{
    match hop {
        Some(h) => *h <= MAX_HOPS,
        None => true,
    }
}

/// The largest port.
pub const MAX_PORT: u64 = 65535;

/// Whether a text names where to listen: a host, or a colon and a port, or
/// a host, a colon and a port. The host is one that is accepted as the host
/// of a URL, and the port is a numeral of at most 65535.
pub open spec fn listen_host_ok(text: Seq<char>) -> bool {
    if nth_index(text, ':', 2) is Some {
        false
    } else {
        match nth_index(text, ':', 1) {
            None => host_accepted(text),
            Some(colon) => (colon == 0 || host_accepted(text.subrange(0, colon)))
                && unsigned_value(text.subrange(colon + 1, text.len() as int), MAX_PORT as nat)
                is Some,
        }
    }
}

/// Whether what is given as the listening host may stand: nothing, or a text
/// that names where to listen.
pub open spec fn listen_host_valid(listen_host: Option<Seq<char>>) -> bool {
    match listen_host {
        Some(text) => listen_host_ok(text),
        None => true,
    }
}

/// Whether what is given as the listening host may stand.
pub fn valid_listen_host(listen_host: &Option<String>) -> (r: bool)
    ensures
        r == listen_host_valid(listen_host.deep_view()),
{
    match listen_host {
        Some(lh) => {
            let text = lh.as_str();
            if find_nth(text, ':', 2).is_some() {
                return false;
            }
            match find_nth(text, ':', 1) {
                None => host_parses(text),
                Some(colon) => {
                    let host_ok = if colon == 0 {
                        true
                    } else {
                        host_parses(text.substring_char(0, colon))
                    };
                    let port = text.substring_char(colon + 1, text.unicode_len());
                    let port_ok = parse_unsigned(port, MAX_PORT).is_some();
                    host_ok && port_ok
                },
            }
        },
        None => true,
    }
}

/// The command that is sent to the daemon for a command of the command
/// line: the same command.
pub fn as_internal_cmd(cmd: &Command) -> (r: crate::command::Command)
    ensures
        r@ == cmd@,
{
    match cmd {
        Command::Status => crate::command::Command::Status,
        Command::EntryNode { endpoint, api_token, listen_host, hop, intermediate_id } => {
            crate::command::Command::EntryNode {
                endpoint: endpoint.clone(),
                api_token: api_token.clone(),
                listen_host: match listen_host {
                    Some(host) => Some(host.clone()),
                    None => None,
                },
                hop: *hop,
                intermediate_id: match intermediate_id {
                    Some(id) => Some(id.duplicate()),
                    None => None,
                },
            }
        },
        Command::ExitNode { peer_id } => crate::command::Command::ExitNode {
            peer_id: peer_id.duplicate(),
        },
    }
}

} // verus!
