//! What holds of every step of the engine.

use crate::clock::Moment;
use crate::config::ConfigView;
use crate::engine::model::blank;
use crate::engine::model::cancels;
use crate::engine::model::failure_of;
use crate::engine::model::series_of;
use crate::engine::model::undecoded;
use crate::engine::model::CoreView;
use crate::engine::model::Outcome;
use crate::engine::with_issue;
use crate::engine::ActionView;
use crate::engine::IssueView;
use crate::engine::Status;
use crate::entry_node::EntryNodeView;
use crate::remote_data::CustomErrorView;
use crate::remote_data::RemoteDataView;
use crate::remote_data::Slot;
use crate::session::SessionView;
use crate::wireguard::Flavor;
use vstd::prelude::*;

verus! {

/// To name nodes anew keeps what holds of the state at all times.
pub proof fn lemma_renamed_keeps_inv(
    core: CoreView,
    entry: Option<EntryNodeView>,
    exit: Option<Seq<char>>,
    moment: Moment,
)
    requires
        core.inv(),
    ensures
        core.renamed(entry, exit, moment).core.inv(),
{
}

/// There is a session just while one is monitored or closed, before and
/// after every command, every report and every change of the configuration:
/// each step keeps what holds of the state at all times, and the state that
/// the daemon starts from has it.
pub proof fn lemma_steps_keep_inv(core: CoreView, moment: Moment)
    requires
        core.inv(),
    ensures
        forall|command: crate::command::CommandView| #[trigger]
            core.on_command(command, moment).core.inv(),
        forall|event: crate::event::EventView| #[trigger] core.on_event(event, moment).core.inv(),
        forall|read: Result<ConfigView, crate::config::ErrorView>| #[trigger]
            core.on_config(read, moment).core.inv(),
        forall|made: Result<Seq<char>, crate::wireguard::ErrorView>| #[trigger]
            core.on_key(made).core.inv(),
        forall|issue: IssueView| #[trigger] core.troubled(issue).inv(),
{
    assert forall|command: crate::command::CommandView| #[trigger]
        core.on_command(command, moment).core.inv() by {
        lemma_command_keeps_inv(core, command, moment);
    }
    assert forall|event: crate::event::EventView| #[trigger]
        core.on_event(event, moment).core.inv() by {
        lemma_event_keeps_inv(core, event, moment);
    }
    assert forall|read: Result<ConfigView, crate::config::ErrorView>| #[trigger]
        core.on_config(read, moment).core.inv() by {
        lemma_config_keeps_inv(core, read, moment);
    }
}

/// The state that the daemon starts from has what holds at all times.
pub proof fn lemma_blank_has_inv(
    config: Result<ConfigView, crate::config::ErrorView>,
    wg: Option<Flavor>,
    wg_errors: Seq<crate::wireguard::ErrorView>,
    state: Result<Option<Seq<char>>, crate::state::ErrorView>,
)
    ensures
        blank(config, wg, wg_errors, state).inv(),
{
}

/// A command keeps what holds of the state at all times.
pub proof fn lemma_command_keeps_inv(
    core: CoreView,
    command: crate::command::CommandView,
    moment: Moment,
)
    requires
        core.inv(),
    ensures
        core.on_command(command, moment).core.inv(),
{
    match command {
        crate::command::CommandView::Status => {},
        crate::command::CommandView::EntryNode {
            endpoint,
            api_token,
            listen_host,
            hop,
            intermediate_id,
        } => {
            lemma_renamed_keeps_inv(
                core,
                Some(
                    EntryNodeView::new(
                        endpoint,
                        api_token,
                        listen_host,
                        crate::command::chosen_path(hop, intermediate_id),
                    ),
                ),
                None,
                moment,
            );
        },
        crate::command::CommandView::ExitNode { peer_id } => {
            lemma_renamed_keeps_inv(core, None, Some(peer_id), moment);
        },
    }
}

/// Whenever the entry node is named anew, what was known of the addresses
/// of the entry node before is forgotten.
pub proof fn lemma_naming_forgets_addresses(
    core: CoreView,
    entry: EntryNodeView,
    exit: Option<Seq<char>>,
    moment: Moment,
)
    requires
        entry.addresses is None,
    ensures
        core.renamed(Some(entry), exit, moment).core.entry_node == Some(entry),
        forall|
            endpoint: Seq<char>,
            api_token: Seq<char>,
            listen_host: Option<Seq<char>>,
            path: crate::config::PathView,
        |
            (#[trigger] EntryNodeView::new(endpoint, api_token, listen_host, path)).addresses
                is None,
{
}

/// A report keeps what holds of the state at all times.
pub proof fn lemma_event_keeps_inv(core: CoreView, event: crate::event::EventView, moment: Moment)
    requires
        core.inv(),
    ensures
        core.on_event(event, moment).core.inv(),
{
}

/// A change of the configuration keeps what holds of the state at all times.
pub proof fn lemma_config_keeps_inv(
    core: CoreView,
    read: Result<ConfigView, crate::config::ErrorView>,
    moment: Moment,
)
    requires
        core.inv(),
    ensures
        core.on_config(read, moment).core.inv(),
{
    let changed = CoreView {
        config: match read {
            Ok(config) => config,
            Err(_) => crate::config::default_config(),
        },
        issues: match read {
            Ok(_) => core.issues,
            Err(crate::config::ErrorView::NoFile) => core.issues,
            Err(error) => with_issue(core.issues, IssueView::Config(error)),
        },
        ..core
    };
    assert(changed.inv());
    match (changed.config.entry_node, changed.config.connection) {
        (Some(entry), Some(connection)) => {
            lemma_renamed_keeps_inv(
                changed,
                Some(
                    EntryNodeView::new(
                        entry.endpoint,
                        entry.api_token,
                        connection.listen_host,
                        match connection.path {
                            Some(path) => path,
                            None => crate::config::default_path(),
                        },
                    ),
                ),
                Some(connection.destination),
                moment,
            );
        },
        _ => {},
    }
}

/// To set the state up from its configuration keeps what holds at all
/// times.
pub proof fn lemma_setup_keeps_inv(core: CoreView, moment: Moment)
    requires
        core.inv(),
    ensures
        core.setup(moment).core.inv(),
{
    match (core.config.entry_node, core.config.connection) {
        (Some(entry), Some(connection)) => {
            lemma_renamed_keeps_inv(
                core,
                Some(
                    EntryNodeView::new(
                        entry.endpoint,
                        entry.api_token,
                        connection.listen_host,
                        match connection.path {
                            Some(path) => path,
                            None => crate::config::default_path(),
                        },
                    ),
                ),
                Some(connection.destination),
                moment,
            );
        },
        _ => {},
    }
}

/// Whether the timer that `handle` names is called off by the actions.
pub open spec fn calls_off(actions: Seq<ActionView>, handle: u64) -> bool {
    actions.contains(ActionView::Cancel { handle })
}

proof fn lemma_found_in_front(front: Seq<ActionView>, back: Seq<ActionView>, handle: u64)
    requires
        calls_off(front, handle),
    ensures
        calls_off(front + back, handle),
{
    let i = choose|i: int| 0 <= i < front.len() && front[i] == (ActionView::Cancel { handle });
    assert((front + back)[i] == (ActionView::Cancel { handle }));
}

proof fn lemma_found_in_back(front: Seq<ActionView>, back: Seq<ActionView>, handle: u64)
    requires
        calls_off(back, handle),
    ensures
        calls_off(front + back, handle),
{
    let i = choose|i: int| 0 <= i < back.len() && back[i] == (ActionView::Cancel { handle });
    assert((front + back)[front.len() + i] == (ActionView::Cancel { handle }));
}

/// To call every timer off calls off each timer that the state holds, and
/// leaves no retry waiting.
pub proof fn lemma_cancel_all_calls_off(core: CoreView, handle: u64)
    requires
        core.holds(handle),
    ensures
        calls_off(core.cancel_all().actions, handle),
{
    let a = cancels(core.fetch.addresses.handle());
    let b = cancels(core.fetch.open_session.handle());
    let c = cancels(core.fetch.list_sessions.handle());
    let d = cancels(core.fetch.close_session.handle());
    let e = cancels(core.status.handle());
    let wanted = ActionView::Cancel { handle };
    if core.fetch.addresses.handle() == Some(handle) {
        assert(a[0] == wanted);
        lemma_found_in_front(a, b, handle);
        lemma_found_in_front(a + b, c, handle);
        lemma_found_in_front(a + b + c, d, handle);
        lemma_found_in_front(a + b + c + d, e, handle);
    } else if core.fetch.open_session.handle() == Some(handle) {
        assert(b[0] == wanted);
        lemma_found_in_back(a, b, handle);
        lemma_found_in_front(a + b, c, handle);
        lemma_found_in_front(a + b + c, d, handle);
        lemma_found_in_front(a + b + c + d, e, handle);
    } else if core.fetch.list_sessions.handle() == Some(handle) {
        assert(c[0] == wanted);
        lemma_found_in_back(a + b, c, handle);
        lemma_found_in_front(a + b + c, d, handle);
        lemma_found_in_front(a + b + c + d, e, handle);
    } else if core.fetch.close_session.handle() == Some(handle) {
        assert(d[0] == wanted);
        lemma_found_in_back(a + b + c, d, handle);
        lemma_found_in_front(a + b + c + d, e, handle);
    } else {
        assert(e[0] == wanted);
        lemma_found_in_back(a + b + c + d, e, handle);
    }
}

/// To name a node anew calls off every timer that was held before.
pub proof fn lemma_renaming_calls_off(
    core: CoreView,
    entry: Option<EntryNodeView>,
    exit: Option<Seq<char>>,
    moment: Moment,
    handle: u64,
)
    requires
        core.holds(handle),
    ensures
        calls_off(core.renamed(entry, exit, moment).actions, handle),
{
    lemma_cancel_all_calls_off(core, handle);
    let called_off = core.cancel_all();
    let prepared = core.prepare(moment);
    let closing = if called_off.core.status is MonitoringSession || (called_off.core.status
        is ClosingSession && !(called_off.core.fetch.close_session is Fetching)) {
        called_off.core.close_now(moment)
    } else {
        Outcome { core: called_off.core, actions: seq![] }
    };
    assert(prepared.actions == called_off.actions + closing.actions);
    lemma_found_in_front(called_off.actions, closing.actions, handle);
    let named = CoreView {
        entry_node: if entry is Some {
            entry
        } else {
            prepared.core.entry_node
        },
        exit_node: if exit is Some {
            exit
        } else {
            prepared.core.exit_node
        },
        ..prepared.core
    };
    let asked = if entry is Some {
        named.start(Slot::Addresses, moment.now, series_of(Slot::Addresses))
    } else {
        Outcome { core: named, actions: seq![] }
    };
    let opened = asked.core.reopen(moment);
    lemma_found_in_front(prepared.actions, asked.actions, handle);
    lemma_found_in_front(prepared.actions + asked.actions, opened.actions, handle);
}

/// When a session that is monitored ends, every timer that was held before
/// is called off.
proof fn lemma_ending_calls_off(core: CoreView, moment: Moment, handle: u64)
    requires
        core.holds(handle),
    ensures
        calls_off(core.ended(moment).actions, handle),
{
    lemma_cancel_all_calls_off(core, handle);
    lemma_found_in_front(
        core.cancel_all().actions,
        core.cancel_all().core.dropped().try_open(moment).actions,
        handle,
    );
}

proof fn lemma_failing_calls_off(
    core: CoreView,
    slot: Slot,
    error: CustomErrorView,
    moment: Moment,
    handle: u64,
)
    requires
        core.holds(handle),
        core.status is MonitoringSession,
        !(core.fail_slot(slot, error, moment).core.status is MonitoringSession),
    ensures
        calls_off(core.fail_slot(slot, error, moment).actions, handle),
{
    lemma_cancel_all_calls_off(core, handle);
    let called_off = core.cancel_all();
    let closing = called_off.core.with_slot(slot, RemoteDataView::Failure { error }).close_now(
        moment,
    );
    lemma_found_in_front(called_off.actions, closing.actions, handle);
}

/// Whenever the daemon stops monitoring a session, and whenever a node is
/// named anew while it monitors one, every timer that it held before, for
/// the retry of a call or for the next check of the session, is called off
/// by what the step hands out.
pub proof fn lemma_leaving_monitoring_calls_off(core: CoreView, moment: Moment, handle: u64)
    requires
        core.inv(),
        core.status is MonitoringSession,
        core.holds(handle),
    ensures
        forall|command: crate::command::CommandView|
            !(command is Status) ==> calls_off(
                (#[trigger] core.on_command(command, moment)).actions,
                handle,
            ) && !(core.on_command(command, moment).core.status is MonitoringSession),
        forall|event: crate::event::EventView|
            !((#[trigger] core.on_event(event, moment)).core.status is MonitoringSession)
                ==> calls_off(core.on_event(event, moment).actions, handle),
        forall|read: Result<ConfigView, crate::config::ErrorView>|
            !((#[trigger] core.on_config(read, moment)).core.status is MonitoringSession)
                ==> calls_off(core.on_config(read, moment).actions, handle),
        calls_off(core.cancel_all().actions, handle),
{
    lemma_cancel_all_calls_off(core, handle);
    assert forall|command: crate::command::CommandView| !(command is Status) implies calls_off(
        (#[trigger] core.on_command(command, moment)).actions,
        handle,
    ) && !(core.on_command(command, moment).core.status is MonitoringSession) by {
        match command {
            crate::command::CommandView::Status => {},
            crate::command::CommandView::EntryNode {
                endpoint,
                api_token,
                listen_host,
                hop,
                intermediate_id,
            } => {
                lemma_renaming_calls_off(
                    core,
                    Some(
                        EntryNodeView::new(
                            endpoint,
                            api_token,
                            listen_host,
                            crate::command::chosen_path(hop, intermediate_id),
                        ),
                    ),
                    None,
                    moment,
                    handle,
                );
            },
            crate::command::CommandView::ExitNode { peer_id } => {
                lemma_renaming_calls_off(core, None, Some(peer_id), moment, handle);
            },
        }
    }
    assert forall|event: crate::event::EventView|
        !((#[trigger] core.on_event(event, moment)).core.status is MonitoringSession)
        implies calls_off(core.on_event(event, moment).actions, handle) by {
        lemma_event_calls_off(core, event, moment, handle);
    }
    assert forall|read: Result<ConfigView, crate::config::ErrorView>|
        !((#[trigger] core.on_config(read, moment)).core.status is MonitoringSession)
        implies calls_off(core.on_config(read, moment).actions, handle) by {
        lemma_config_calls_off(core, read, moment, handle);
    }
}

proof fn lemma_config_calls_off(
    core: CoreView,
    read: Result<ConfigView, crate::config::ErrorView>,
    moment: Moment,
    handle: u64,
)
    requires
        core.status is MonitoringSession,
        core.holds(handle),
        !(core.on_config(read, moment).core.status is MonitoringSession),
    ensures
        calls_off(core.on_config(read, moment).actions, handle),
{
    let changed = CoreView {
        config: match read {
            Ok(config) => config,
            Err(_) => crate::config::default_config(),
        },
        issues: match read {
            Ok(_) => core.issues,
            Err(crate::config::ErrorView::NoFile) => core.issues,
            Err(error) => with_issue(core.issues, IssueView::Config(error)),
        },
        ..core
    };
    assert(changed.holds(handle));
    match (changed.config.entry_node, changed.config.connection) {
        (Some(entry), Some(connection)) => {
            let named = Some(
                EntryNodeView::new(
                    entry.endpoint,
                    entry.api_token,
                    connection.listen_host,
                    match connection.path {
                        Some(path) => path,
                        None => crate::config::default_path(),
                    },
                ),
            );
            lemma_renaming_calls_off(changed, named, Some(connection.destination), moment, handle);
            lemma_found_in_back(
                changed.ensure_key(),
                changed.renamed(named, Some(connection.destination), moment).actions,
                handle,
            );
        },
        _ => {},
    }
}

proof fn lemma_event_calls_off(
    core: CoreView,
    event: crate::event::EventView,
    moment: Moment,
    handle: u64,
)
    requires
        core.inv(),
        core.status is MonitoringSession,
        core.holds(handle),
        !(core.on_event(event, moment).core.status is MonitoringSession),
    ensures
        calls_off(core.on_event(event, moment).actions, handle),
{
    match event {
        crate::event::EventView::CheckSession => {
            match core.request(Slot::ListSessions) {
                Ok(_) => {},
                Err(error) => {
                    lemma_failing_calls_off(
                        core,
                        Slot::ListSessions,
                        failure_of(error),
                        moment,
                        handle,
                    );
                },
            }
        },
        crate::event::EventView::Remote(slot, report) => {
            if core.awaits(slot, report) {
                match report {
                    crate::remote_data::EventView::Response(json) => {
                        match slot {
                            Slot::ListSessions => match crate::session::sessions_of(json) {
                                Some(sessions) => {
                                    let done = core.with_slot(slot, RemoteDataView::Success);
                                    assert(done.holds(handle));
                                    lemma_ending_calls_off(done, moment, handle);
                                },
                                None => {
                                    lemma_failing_calls_off(
                                        core,
                                        slot,
                                        undecoded(),
                                        moment,
                                        handle,
                                    );
                                },
                            },
                            Slot::Addresses => {},
                            Slot::OpenSession => {},
                            Slot::CloseSession => {},
                        }
                    },
                    crate::remote_data::EventView::Error(error) => {
                        lemma_failing_calls_off(core, slot, error, moment, handle);
                    },
                    crate::remote_data::EventView::Retry => {
                        match core.request(slot) {
                            Ok(_) => {},
                            Err(error) => {
                                lemma_failing_calls_off(
                                    core,
                                    slot,
                                    failure_of(error),
                                    moment,
                                    handle,
                                );
                            },
                        }
                    },
                }
            }
        },
    }
}

/// Whether an action sets a worker or a retry timer going for a call.
pub open spec fn starts(action: ActionView, slot: Slot) -> bool {
    match action {
        ActionView::Fetch { slot: of, .. } => of == slot,
        ActionView::ScheduleRetry { slot: of, .. } => of == slot,
        _ => false,
    }
}

/// The number of workers and retry timers that the actions set going for a
/// call.
pub open spec fn started_for(actions: Seq<ActionView>, slot: Slot) -> nat
    decreases actions.len(),
{
    if actions.len() == 0 {
        0
    } else {
        started_for(actions.drop_last(), slot) + (if starts(actions.last(), slot) {
            1nat
        } else {
            0nat
        })
    }
}

proof fn lemma_started_split(front: Seq<ActionView>, back: Seq<ActionView>, slot: Slot)
    ensures
        started_for(front + back, slot) == started_for(front, slot) + started_for(back, slot),
    decreases back.len(),
{
    if back.len() == 0 {
        assert(front + back =~= front);
    } else {
        lemma_started_split(front, back.drop_last(), slot);
        assert((front + back).drop_last() =~= front + back.drop_last());
    }
}

proof fn lemma_started_one(action: ActionView, slot: Slot)
    ensures
        started_for(seq![action], slot) == (if starts(action, slot) {
            1nat
        } else {
            0nat
        }),
        started_for(Seq::<ActionView>::empty(), slot) == 0,
{
    assert(seq![action].drop_last() =~= Seq::<ActionView>::empty());
    assert(started_for(Seq::<ActionView>::empty(), slot) == 0);
    assert(seq![action].last() == action);
}

proof fn lemma_cancels_start_nothing(handle: Option<u64>, slot: Slot)
    ensures
        started_for(cancels(handle), slot) == 0,
{
    match handle {
        Some(h) => {
            lemma_started_one(ActionView::Cancel { handle: h }, slot);
        },
        None => {},
    }
}

proof fn lemma_cancel_all_starts_nothing(core: CoreView, slot: Slot)
    ensures
        started_for(core.cancel_all().actions, slot) == 0,
{
    let a = cancels(core.fetch.addresses.handle());
    let b = cancels(core.fetch.open_session.handle());
    let c = cancels(core.fetch.list_sessions.handle());
    let d = cancels(core.fetch.close_session.handle());
    let e = cancels(core.status.handle());
    lemma_cancels_start_nothing(core.fetch.addresses.handle(), slot);
    lemma_cancels_start_nothing(core.fetch.open_session.handle(), slot);
    lemma_cancels_start_nothing(core.fetch.list_sessions.handle(), slot);
    lemma_cancels_start_nothing(core.fetch.close_session.handle(), slot);
    lemma_cancels_start_nothing(core.status.handle(), slot);
    lemma_started_split(a, b, slot);
    lemma_started_split(a + b, c, slot);
    lemma_started_split(a + b + c, d, slot);
    lemma_started_split(a + b + c + d, e, slot);
}

proof fn lemma_start_starts(core: CoreView, of: Slot, now: u64, backoffs: Seq<u64>, slot: Slot)
    ensures
        started_for(core.start(of, now, backoffs).actions, slot) == (if of == slot
            && core.can_start(of) {
            1nat
        } else {
            0nat
        }),
{
    match core.request(of) {
        Ok(request) => {
            lemma_started_one(ActionView::Fetch { slot: of, request }, slot);
        },
        Err(_) => {},
    }
}

proof fn lemma_connect_starts_nothing(core: CoreView, session: SessionView, slot: Slot)
    ensures
        started_for(core.connect(session), slot) == 0,
{
    if core.connect(session).len() > 0 {
        lemma_started_one(core.connect(session)[0], slot);
        assert(core.connect(session) =~= seq![core.connect(session)[0]]);
    }
}

/// What a step may set going for a call, and has to call off: at most one
/// worker or retry timer; one only where the slot of the call waits for it
/// afterwards; and a retry timer that the slot held before and holds no
/// more was called off, unless it is the one that went off.
pub open spec fn orderly(before: CoreView, after: Outcome, slot: Slot, fired: bool) -> bool {
    &&& started_for(after.actions, slot) <= 1
    &&& started_for(after.actions, slot) == 1 ==> after.core.fetch.get(slot).active()
    &&& after.core.fetch.get(slot).active() && started_for(after.actions, slot) == 0
        ==> after.core.fetch.get(slot) == before.fetch.get(slot)
    &&& before.fetch.get(slot).handle() matches Some(handle) ==> after.core.fetch.get(slot)
        == before.fetch.get(slot) || fired || calls_off(after.actions, handle)
}

proof fn lemma_open_now_orderly(core: CoreView, moment: Moment, slot: Slot)
    ensures
        started_for(core.open_now(moment).actions, slot) == (if slot == Slot::OpenSession
            && core.can_start(slot) {
            1nat
        } else {
            0nat
        }),
{
    lemma_start_starts(core, Slot::OpenSession, moment.now, series_of(Slot::OpenSession), slot);
}

proof fn lemma_close_now_orderly(core: CoreView, moment: Moment, slot: Slot)
    ensures
        started_for(core.close_now(moment).actions, slot) == (if slot == Slot::CloseSession
            && core.can_start(slot) {
            1nat
        } else {
            0nat
        }),
{
    lemma_start_starts(core, Slot::CloseSession, moment.now, series_of(Slot::CloseSession), slot);
}

proof fn lemma_renamed_orderly(
    core: CoreView,
    entry: Option<EntryNodeView>,
    exit: Option<Seq<char>>,
    moment: Moment,
    slot: Slot,
)
    requires
        core.inv(),
    ensures
        orderly(core, core.renamed(entry, exit, moment), slot, false),
{
    let called_off = core.cancel_all();
    lemma_cancel_all_starts_nothing(core, slot);
    let closing = if called_off.core.status is MonitoringSession || (called_off.core.status
        is ClosingSession && !(called_off.core.fetch.close_session is Fetching)) {
        called_off.core.close_now(moment)
    } else {
        Outcome { core: called_off.core, actions: seq![] }
    };
    lemma_close_now_orderly(called_off.core, moment, slot);
    lemma_started_split(called_off.actions, closing.actions, slot);
    let prepared = core.prepare(moment);
    let named = CoreView {
        entry_node: if entry is Some {
            entry
        } else {
            prepared.core.entry_node
        },
        exit_node: if exit is Some {
            exit
        } else {
            prepared.core.exit_node
        },
        ..prepared.core
    };
    let asked = if entry is Some {
        named.start(Slot::Addresses, moment.now, series_of(Slot::Addresses))
    } else {
        Outcome { core: named, actions: seq![] }
    };
    lemma_start_starts(named, Slot::Addresses, moment.now, series_of(Slot::Addresses), slot);
    let opened = asked.core.reopen(moment);
    lemma_open_now_orderly(asked.core, moment, slot);
    lemma_started_split(prepared.actions, asked.actions, slot);
    lemma_started_split(prepared.actions + asked.actions, opened.actions, slot);
    if core.fetch.get(slot).handle() is Some {
        lemma_renaming_calls_off(core, entry, exit, moment, core.fetch.get(slot).handle()->0);
    }
}

proof fn lemma_ended_orderly(core: CoreView, moment: Moment, slot: Slot)
    ensures
        started_for(core.ended(moment).actions, slot) == (if slot == Slot::OpenSession
            && core.entry_node is Some && core.exit_node is Some && core.cancel_all().core.dropped().can_start(
            slot,
        ) {
            1nat
        } else {
            0nat
        }),
        core.fetch.get(slot).handle() matches Some(handle) ==> calls_off(
            core.ended(moment).actions,
            handle,
        ),
{
    let called_off = core.cancel_all();
    lemma_cancel_all_starts_nothing(core, slot);
    let again = called_off.core.dropped().try_open(moment);
    lemma_open_now_orderly(called_off.core.dropped(), moment, slot);
    lemma_started_split(called_off.actions, again.actions, slot);
    if core.fetch.get(slot).handle() is Some {
        lemma_ending_calls_off(core, moment, core.fetch.get(slot).handle()->0);
    }
}

proof fn lemma_fail_slot_orderly(
    core: CoreView,
    of: Slot,
    error: CustomErrorView,
    moment: Moment,
    slot: Slot,
)
    ensures
        started_for(core.fail_slot(of, error, moment).actions, slot) <= 1,
        started_for(core.fail_slot(of, error, moment).actions, slot) == 1 ==> slot
            == Slot::CloseSession && of == Slot::ListSessions && core.status is MonitoringSession
            && core.fail_slot(of, error, moment).core.fetch.close_session is Fetching,
        (of == Slot::ListSessions && core.status is MonitoringSession) || (of
            == Slot::CloseSession && core.status is ClosingSession) ==> (core.fetch.get(
            slot,
        ).handle() matches Some(handle) ==> calls_off(
            core.fail_slot(of, error, moment).actions,
            handle,
        )),
        !((of == Slot::ListSessions && core.status is MonitoringSession) || (of
            == Slot::CloseSession && core.status is ClosingSession)) ==> (slot != of
            ==> core.fail_slot(of, error, moment).core.fetch.get(slot) == core.fetch.get(slot)),
{
    let called_off = core.cancel_all();
    lemma_cancel_all_starts_nothing(core, slot);
    let failed = called_off.core.with_slot(of, RemoteDataView::Failure { error });
    let closing = failed.close_now(moment);
    lemma_close_now_orderly(failed, moment, slot);
    lemma_started_split(called_off.actions, closing.actions, slot);
    if core.fetch.get(slot).handle() is Some {
        let handle = core.fetch.get(slot).handle()->0;
        lemma_cancel_all_calls_off(core, handle);
        lemma_found_in_front(called_off.actions, closing.actions, handle);
    }
}

/// At most one worker or retry timer is live for a call at any time, as far
/// as the daemon's steps go: a report sets at most one worker or timer going
/// for a call; it sets one going only where the slot of the call then waits
/// for it, and only where nothing was live for the call before or the report
/// is what the call waited for; where it sets none going, a slot that waits
/// still waits for what it waited for before; and a retry timer that a slot
/// held and holds no more went off or was called off.
pub proof fn lemma_reports_keep_one_at_a_time(
    core: CoreView,
    event: crate::event::EventView,
    moment: Moment,
    slot: Slot,
)
    requires
        core.inv(),
    ensures
        orderly(
            core,
            core.on_event(event, moment),
            slot,
            event == crate::event::EventView::Remote(slot, crate::remote_data::EventView::Retry),
        ),
        started_for(core.on_event(event, moment).actions, slot) == 1 ==> !core.fetch.get(
            slot,
        ).active() || (event matches crate::event::EventView::Remote(of, report) && of == slot
            && core.awaits(slot, report)),
{
    let after = core.on_event(event, moment);
    match event {
        crate::event::EventView::CheckSession => {
            match core.request(Slot::ListSessions) {
                Ok(_) => {
                    lemma_start_starts(
                        core,
                        Slot::ListSessions,
                        moment.now,
                        series_of(Slot::ListSessions),
                        slot,
                    );
                },
                Err(error) => {
                    lemma_fail_slot_orderly(
                        core,
                        Slot::ListSessions,
                        failure_of(error),
                        moment,
                        slot,
                    );
                },
            }
        },
        crate::event::EventView::Remote(of, report) => {
            if core.awaits(of, report) {
                match report {
                    crate::remote_data::EventView::Response(json) => {
                        lemma_response_orderly(core, of, json, moment, slot);
                    },
                    crate::remote_data::EventView::Error(error) => {
                        lemma_error_orderly(core, of, error, moment, slot);
                    },
                    crate::remote_data::EventView::Retry => {
                        match core.request(of) {
                            Ok(_) => {
                                lemma_start_starts(
                                    core,
                                    of,
                                    moment.now,
                                    core.fetch.get(of)->RetryFetching_backoffs,
                                    slot,
                                );
                            },
                            Err(error) => {
                                lemma_fail_slot_orderly(core, of, failure_of(error), moment, slot);
                            },
                        }
                    },
                }
            }
        },
    }
}

proof fn lemma_error_orderly(
    core: CoreView,
    of: Slot,
    error: CustomErrorView,
    moment: Moment,
    slot: Slot,
)
    requires
        core.inv(),
        core.fetch.get(of) is Fetching,
    ensures
        orderly(core, core.on_error(of, error, moment), slot, false),
        started_for(core.on_error(of, error, moment).actions, slot) == 1 ==> !core.fetch.get(
            slot,
        ).active() || of == slot,
{
    match core.fetch.get(of).next_delay() {
        Some(delay) => {
            lemma_started_one(
                ActionView::ScheduleRetry { slot: of, delay, handle: core.next_handle },
                slot,
            );
        },
        None => {
            lemma_fail_slot_orderly(core, of, error, moment, slot);
        },
    }
}

proof fn lemma_response_orderly(
    core: CoreView,
    of: Slot,
    json: crate::json::JsonView,
    moment: Moment,
    slot: Slot,
)
    requires
        core.inv(),
        core.fetch.get(of) is Fetching,
    ensures
        orderly(core, core.on_response(of, json, moment), slot, false),
        started_for(core.on_response(of, json, moment).actions, slot) == 1 ==> !core.fetch.get(
            slot,
        ).active() || of == slot,
{
    lemma_error_orderly(core, of, undecoded(), moment, slot);
    match of {
        Slot::Addresses => {},
        Slot::OpenSession => match crate::session::session_of(json) {
            Some(session) => {
                lemma_connect_starts_nothing(core, session, slot);
                let check = seq![
                    ActionView::ScheduleCheck { delay: moment.liveness, handle: core.next_handle },
                ];
                lemma_started_one(check[0], slot);
                lemma_started_split(check, core.connect(session), slot);
            },
            None => {},
        },
        Slot::ListSessions => match crate::session::sessions_of(json) {
            Some(sessions) => {
                let done = core.with_slot(of, RemoteDataView::Success);
                lemma_ended_orderly(done, moment, slot);
                match core.status {
                    Status::MonitoringSession { start_time, cancel } => {
                        let first = seq![ActionView::Cancel { handle: cancel }];
                        let second = seq![
                            ActionView::ScheduleCheck {
                                delay: moment.liveness,
                                handle: core.next_handle,
                            },
                        ];
                        lemma_started_one(first[0], slot);
                        lemma_started_one(second[0], slot);
                        lemma_started_split(first, second, slot);
                        assert(first + second =~= seq![first[0], second[0]]);
                    },
                    _ => {},
                }
            },
            None => {},
        },
        Slot::CloseSession => {
            let done = core.with_slot(of, RemoteDataView::Success);
            lemma_ended_orderly(done, moment, slot);
        },
    }
}

/// A command or a change of the configuration keeps the same order: it sets
/// at most one worker or retry timer going for a call, one only where the
/// slot of the call then waits for it, and calls every retry timer off that
/// a slot held. What it does not wait for is a worker that is still under
/// way for a call that it starts again.
pub proof fn lemma_commands_keep_order(
    core: CoreView,
    command: crate::command::CommandView,
    moment: Moment,
    slot: Slot,
)
    requires
        core.inv(),
    ensures
        orderly(core, core.on_command(command, moment), slot, false),
{
    match command {
        crate::command::CommandView::Status => {},
        crate::command::CommandView::EntryNode {
            endpoint,
            api_token,
            listen_host,
            hop,
            intermediate_id,
        } => {
            lemma_renamed_orderly(
                core,
                Some(
                    EntryNodeView::new(
                        endpoint,
                        api_token,
                        listen_host,
                        crate::command::chosen_path(hop, intermediate_id),
                    ),
                ),
                None,
                moment,
                slot,
            );
        },
        crate::command::CommandView::ExitNode { peer_id } => {
            lemma_renamed_orderly(core, None, Some(peer_id), moment, slot);
        },
    }
}

/// A change of the configuration keeps the same order as a command does.
pub proof fn lemma_config_keeps_order(
    core: CoreView,
    read: Result<ConfigView, crate::config::ErrorView>,
    moment: Moment,
    slot: Slot,
)
    requires
        core.inv(),
    ensures
        orderly(core, core.on_config(read, moment), slot, false),
{
    let changed = CoreView {
        config: match read {
            Ok(config) => config,
            Err(_) => crate::config::default_config(),
        },
        issues: match read {
            Ok(_) => core.issues,
            Err(crate::config::ErrorView::NoFile) => core.issues,
            Err(error) => with_issue(core.issues, IssueView::Config(error)),
        },
        ..core
    };
    assert(changed.inv());
    if changed.ensure_key().len() > 0 {
        lemma_started_one(ActionView::GenerateKey, slot);
    }
    match (changed.config.entry_node, changed.config.connection) {
        (Some(entry), Some(connection)) => {
            let named = Some(
                EntryNodeView::new(
                    entry.endpoint,
                    entry.api_token,
                    connection.listen_host,
                    match connection.path {
                        Some(path) => path,
                        None => crate::config::default_path(),
                    },
                ),
            );
            let nodes = changed.renamed(named, Some(connection.destination), moment);
            lemma_renamed_orderly(changed, named, Some(connection.destination), moment, slot);
            lemma_started_split(changed.ensure_key(), nodes.actions, slot);
            if changed.fetch.get(slot).handle() is Some {
                lemma_found_in_back(
                    changed.ensure_key(),
                    nodes.actions,
                    changed.fetch.get(slot).handle()->0,
                );
            }
        },
        _ => {
            assert(changed.setup(moment).actions =~= changed.ensure_key());
        },
    }
}

} // verus!
