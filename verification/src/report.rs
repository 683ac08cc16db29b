//! How the state of the daemon is told to the user.

use crate::config::PathView;
use crate::config::SessionPathConfig;
use crate::engine::Issue;
use crate::engine::IssueView;
use crate::engine::Status;
use crate::entry_node::AddressesView;
use crate::entry_node::EntryNode;
use crate::entry_node::EntryNodeView;
use crate::exit_node::ExitNode;
use crate::log_output::elapsed_at;
use crate::log_output::elapsed_text;
use crate::log_output::object_text;
use crate::log_output::serialize;
use crate::remote_data::CustomError;
use crate::remote_data::CustomErrorView;
use crate::remote_data::RemoteData;
use crate::remote_data::RemoteDataView;
use crate::text::decimal;
use crate::text::decimal_string;
use crate::text::join;
use crate::text::joined;
use vstd::prelude::*;
use vstd::string::*;

verus! {

/// What stands for a token wherever something is printed.
pub open spec fn masked() -> Seq<char> {
    "*****"@
}

/// How the status is told at the time `now`.
pub open spec fn status_text(status: Status, now: u64) -> Seq<char> {
    match status {
        Status::Idle => "idle"@,
        Status::OpeningSession { start_time } => "opening session since "@ + elapsed_text(
            start_time,
            now,
        ),
        Status::MonitoringSession { start_time, .. } => "monitoring session since "@
            + elapsed_text(start_time, now),
        Status::ClosingSession { start_time } => "closing session since "@ + elapsed_text(
            start_time,
            now,
        ),
    }
}

fn since(what: &str, start_time: u64, now: u64) -> (r: String)
    ensures
        r@ == what@ + elapsed_text(start_time, now),
{
    let mut text = String::from_str(what);
    text.append(elapsed_at(start_time, now).as_str());
    text
}

/// Tells the status at the time `now`.
pub fn print_status(status: &Status, now: u64) -> (r: String)
    ensures
        r@ == status_text(*status, now),
{
    match status {
        Status::Idle => String::from_str("idle"),
        Status::OpeningSession { start_time } => since("opening session since ", *start_time, now),
        Status::MonitoringSession { start_time, .. } => since(
            "monitoring session since ",
            *start_time,
            now,
        ),
        Status::ClosingSession { start_time } => since("closing session since ", *start_time, now),
    }
}

/// How a path is told.
pub open spec fn path_text(path: PathView) -> Seq<char> {
    match path {
        PathView::Hop(hops) => "hop: "@ + decimal(hops as nat),
        PathView::Intermediates(ids) => "intermediate_id: "@ + joined(ids, ", "@),
    }
}

/// Tells a path.
pub fn print_path(path: &SessionPathConfig) -> (r: String)
    ensures
        r@ == path_text(path@),
{
    match path {
        SessionPathConfig::Hop(hops) => {
            let mut text = String::from_str("hop: ");
            text.append(decimal_string(*hops as u64).as_str());
            text
        },
        SessionPathConfig::Intermediates(ids) => {
            let mut names: Vec<String> = Vec::new();
            let mut i: usize = 0;
            while i < ids.len()
                invariant
                    i <= ids.len(),
                    names@.len() == i,
                    forall|k: int| 0 <= k < i ==> names@[k]@ == ids@[k]@,
                decreases ids.len() - i,
            {
                names.push(ids[i].to_base58());
                i = i + 1;
            }
            assert(names.deep_view() =~= ids.deep_view());
            let mut text = String::from_str("intermediate_id: ");
            text.append(join(&names, ", ").as_str());
            text
        },
    }
}

/// The members that are printed of an entry node's addresses.
pub open spec fn addresses_members(addresses: AddressesView) -> Seq<(Seq<char>, Seq<char>)> {
    seq![("hopr"@, addresses.hopr), ("native"@, addresses.native)]
}

/// The members that are printed of an entry node. The token is masked.
pub open spec fn entry_node_members(entry: EntryNodeView) -> Seq<(Seq<char>, Seq<char>)> {
    seq![
        ("endpoint"@, entry.endpoint),
        ("api_token"@, masked()),
        ("path"@, path_text(entry.path)),
    ] + (match entry.listen_host {
        Some(host) => seq![("listen_host"@, host)],
        None => seq![],
    }) + (match entry.addresses {
        Some(addresses) => seq![("addresses"@, object_text(addresses_members(addresses)))],
        None => seq![],
    })
}

/// How an entry node is told.
pub open spec fn entry_node_text(entry: EntryNodeView) -> Seq<char> {
    object_text(entry_node_members(entry))
}

fn member(name: &str, value: String) -> (r: (String, String))
    ensures
        r.deep_view() == (name@, value@),
{
    (String::from_str(name), value)
}

/// Tells an entry node. The token is masked.
pub fn print_entry_node(entry: &EntryNode) -> (r: String)
    ensures
        r@ == entry_node_text(entry@),
{
    let mut members: Vec<(String, String)> = Vec::new();
    members.push(member("endpoint", entry.endpoint.clone()));
    members.push(member("api_token", String::from_str("*****")));
    members.push(member("path", print_path(&entry.path)));
    if let Some(host) = &entry.listen_host {
        members.push(member("listen_host", host.clone()));
    }
    if let Some(addresses) = &entry.addresses {
        let mut inner: Vec<(String, String)> = Vec::new();
        inner.push(member("hopr", addresses.hopr.clone()));
        inner.push(member("native", addresses.native.clone()));
        assert(inner.deep_view() =~= addresses_members(addresses@));
        members.push(member("addresses", serialize(&inner)));
    }
    assert(members.deep_view() =~= entry_node_members(entry@));
    serialize(&members)
}

/// How an exit node is told.
pub open spec fn exit_node_text(peer_id: Seq<char>) -> Seq<char> {
    object_text(seq![("peer_id"@, peer_id)])
}

/// Tells an exit node.
pub fn print_exit_node(exit: &ExitNode) -> (r: String)
    ensures
        r@ == exit_node_text(exit@),
{
    let mut members: Vec<(String, String)> = Vec::new();
    members.push(member("peer_id", exit.peer_id.to_base58()));
    assert(members.deep_view() =~= seq![("peer_id"@, exit@)]);
    serialize(&members)
}

/// A text where there is one, and `none` where there is none.
pub open spec fn or_none(text: Option<Seq<char>>) -> Seq<char> {
    match text {
        Some(text) => text,
        None => "none"@,
    }
}

/// How the failure of a call is told.
pub open spec fn error_text(error: CustomErrorView) -> Seq<char> {
    "CustomError: reqw_err: "@ + or_none(error.reqw_err) + ", status: "@ + (match error.status {
        Some(status) => decimal(status as nat),
        None => "none"@,
    }) + ", value: "@ + or_none(error.value)
}

fn text_or_none(text: &Option<String>) -> (r: String)
    ensures
        r@ == or_none(text.deep_view()),
{
    match text {
        Some(text) => text.clone(),
        None => String::from_str("none"),
    }
}

/// Tells the failure of a call.
pub fn print_error(error: &CustomError) -> (r: String)
    ensures
        r@ == error_text(error@),
{
    let mut text = String::from_str("CustomError: reqw_err: ");
    text.append(text_or_none(&error.reqw_err).as_str());
    text.append(", status: ");
    match error.status {
        Some(status) => {
            text.append(decimal_string(status as u64).as_str());
        },
        None => {
            text.append("none");
        },
    }
    text.append(", value: ");
    text.append(text_or_none(&error.value).as_str());
    text
}

/// How the slot of a call is told at the time `now`.
pub open spec fn slot_text(slot: RemoteDataView, now: u64) -> Seq<char> {
    match slot {
        RemoteDataView::NotAsked => "NotAsked"@,
        RemoteDataView::Fetching { started_at, .. } => "Fetching since "@ + elapsed_text(
            started_at,
            now,
        ),
        RemoteDataView::RetryFetching { error, backoffs, .. } => "RetryFetching error: "@
            + error_text(error) + ", backoffs: "@ + decimal(backoffs.len()),
        RemoteDataView::Failure { error } => "Failure: "@ + error_text(error),
        RemoteDataView::Success => "Success"@,
    }
}

/// Tells the slot of a call at the time `now`.
pub fn print_slot(slot: &RemoteData, now: u64) -> (r: String)
    ensures
        r@ == slot_text(slot@, now),
{
    match slot {
        RemoteData::NotAsked => String::from_str("NotAsked"),
        RemoteData::Fetching { started_at, .. } => since("Fetching since ", *started_at, now),
        RemoteData::RetryFetching { error, backoffs, .. } => {
            let mut text = String::from_str("RetryFetching error: ");
            text.append(print_error(error).as_str());
            text.append(", backoffs: ");
            text.append(decimal_string(backoffs.len() as u64).as_str());
            text
        },
        RemoteData::Failure { error } => {
            let mut text = String::from_str("Failure: ");
            text.append(print_error(error).as_str());
            text
        },
        RemoteData::Success => String::from_str("Success"),
    }
}

/// How an issue is told.
pub open spec fn issue_text(issue: IssueView) -> Seq<char> {
    match issue {
        IssueView::Config(error) => "config file issue: "@ + error.message(),
        IssueView::WireGuardInit(error) => "wireguard initialization issue: "@ + error.message(),
        IssueView::State(error) => "storage issue: "@ + error.message(),
        IssueView::WireGuard(error) => "wireguard issue: "@ + error.message(),
    }
}

/// Tells an issue.
pub fn print_issue(issue: &Issue) -> (r: String)
    ensures
        r@ == issue_text(issue@),
{
    match issue {
        Issue::Config(error) => {
            let mut text = String::from_str("config file issue: ");
            text.append(error.to_string().as_str());
            text
        },
        Issue::WireGuardInit(error) => {
            let mut text = String::from_str("wireguard initialization issue: ");
            text.append(error.to_string().as_str());
            text
        },
        Issue::State(error) => {
            let mut text = String::from_str("storage issue: ");
            text.append(error.to_string().as_str());
            text
        },
        Issue::WireGuard(error) => {
            let mut text = String::from_str("wireguard issue: ");
            text.append(error.to_string().as_str());
            text
        },
    }
}

/// How the issues are told: one after another, with a bar between.
pub open spec fn issues_text(issues: Seq<IssueView>) -> Seq<char> {
    joined(Seq::new(issues.len(), |i: int| issue_text(issues[i])), " | "@)
}

/// Tells the issues.
pub fn print_issues(issues: &Vec<Issue>) -> (r: String)
    ensures
        r@ == issues_text(issues.deep_view()),
{
    let mut texts: Vec<String> = Vec::new();
    let mut i: usize = 0;
    while i < issues.len()
        invariant
            i <= issues.len(),
            texts@.len() == i,
            forall|k: int| 0 <= k < i ==> texts@[k]@ == issue_text(issues@[k]@),
        decreases issues.len() - i,
    {
        texts.push(print_issue(&issues[i]));
        i = i + 1;
    }
    assert(texts.deep_view() =~= Seq::new(
        issues.deep_view().len(),
        |i: int| issue_text(issues.deep_view()[i]),
    ));
    join(&texts, " | ")
}

} // verus!
