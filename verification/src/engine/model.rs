//! What each step of the engine does, said over the views of the state and
//! of what comes in: the state after the step, and what is to be done
//! outside.

use crate::backoff::Backoff;
use crate::clock::Moment;
use crate::config::Config;
use crate::config::ConfigView;
use crate::engine::with_issue;
use crate::engine::ActionView;
use crate::engine::FetchView;
use crate::engine::IssueView;
use crate::engine::Status;
use crate::entry_node::EntryNodeView;
use crate::remote_data::CustomErrorView;
use crate::remote_data::RemoteDataView;
use crate::remote_data::RequestError;
use crate::remote_data::RequestView;
use crate::remote_data::Slot;
use crate::session::SessionView;
use crate::state::State;
use crate::wireguard::ConnectSessionView;
use crate::wireguard::Flavor;
use vstd::prelude::*;

verus! {

/// The state of the daemon, as the steps of the engine are stated over it.
pub struct CoreView {
    pub config: ConfigView,
    pub issues: Seq<IssueView>,
    pub state: Option<Seq<char>>,
    pub wg: Option<Flavor>,
    pub status: Status,
    pub entry_node: Option<EntryNodeView>,
    pub exit_node: Option<Seq<char>>,
    pub fetch: FetchView,
    pub session: Option<SessionView>,
    pub next_handle: u64,
}

/// A new state, and what is to be done outside to get there.
pub struct Outcome {
    pub core: CoreView,
    pub actions: Seq<ActionView>,
}

/// The action that calls a timer off, where there is one.
pub open spec fn cancels(handle: Option<u64>) -> Seq<ActionView> {
    match handle {
        Some(handle) => seq![ActionView::Cancel { handle }],
        None => seq![],
    }
}

impl Status {
    /// The handle of the timer of the next check, while a session is
    /// monitored.
    pub open spec fn handle(self) -> Option<u64> {
        match self {
            Status::MonitoringSession { cancel, .. } => Some(cancel),
            _ => None,
        }
    }

    /// Whether there is a session in this status.
    pub open spec fn has_session(self) -> bool {
        self is MonitoringSession || self is ClosingSession
    }
}

/// The retry series of a call.
pub open spec fn backoff_of(slot: Slot) -> Backoff {
    match slot {
        Slot::Addresses => Backoff { attempts: 10, min: 1000, max: 60000 },
        Slot::OpenSession => Backoff { attempts: 3, min: 1000, max: 5000 },
        Slot::ListSessions => Backoff { attempts: 3, min: 1000, max: 5000 },
        Slot::CloseSession => Backoff { attempts: 2, min: 1000, max: 3000 },
    }
}

/// The retries that a call has when it is first made.
pub open spec fn series_of(slot: Slot) -> Seq<u64> {
    backoff_of(slot).series()
}

/// What is put down for a call whose request could not be made up.
pub open spec fn failure_of(error: RequestError) -> CustomErrorView {
    CustomErrorView {
        reqw_err: Some(
            match error {
                RequestError::InvalidHeaderValue => "failed to parse header value"@,
                RequestError::Url => "failed to find the address of the call"@,
                RequestError::UnexpectedInternalState => "unexpected internal state"@,
            },
        ),
        status: None,
        value: None,
    }
}

/// What is put down for a response that is not what the call answers with.
pub open spec fn undecoded() -> CustomErrorView {
    CustomErrorView { reqw_err: Some("failed to read the response"@), status: None, value: None }
}

impl CoreView {
    /// Whether `handle` names a timer that the state holds: the retry of a
    /// call, or the next check of the session.
    pub open spec fn holds(self, handle: u64) -> bool {
        ||| self.fetch.addresses.handle() == Some(handle)
        ||| self.fetch.open_session.handle() == Some(handle)
        ||| self.fetch.list_sessions.handle() == Some(handle)
        ||| self.fetch.close_session.handle() == Some(handle)
        ||| self.status.handle() == Some(handle)
    }

    /// The state with the slot of one call changed.
    pub open spec fn with_slot(self, slot: Slot, data: RemoteDataView) -> CoreView {
        CoreView { fetch: self.fetch.set(slot, data), ..self }
    }

    /// The state with another status.
    pub open spec fn with_status(self, status: Status) -> CoreView {
        CoreView { status, ..self }
    }

    /// The state without its session, idle.
    pub open spec fn dropped(self) -> CoreView {
        CoreView { status: Status::Idle, session: None, ..self }
    }

    /// The state after a handle was given out.
    pub open spec fn advanced(self) -> CoreView {
        CoreView {
            next_handle: if self.next_handle == u64::MAX {
                0
            } else {
                (self.next_handle + 1) as u64
            },
            ..self
        }
    }

    /// Every timer that the state holds is called off: no retry waits any
    /// more, and each handle is signalled.
    pub open spec fn cancel_all(self) -> Outcome {
        Outcome {
            core: CoreView {
                fetch: FetchView {
                    addresses: self.fetch.addresses.after_cancel(),
                    open_session: self.fetch.open_session.after_cancel(),
                    list_sessions: self.fetch.list_sessions.after_cancel(),
                    close_session: self.fetch.close_session.after_cancel(),
                },
                ..self
            },
            actions: cancels(self.fetch.addresses.handle()) + cancels(
                self.fetch.open_session.handle(),
            ) + cancels(self.fetch.list_sessions.handle()) + cancels(
                self.fetch.close_session.handle(),
            ) + cancels(self.status.handle()),
        }
    }

    /// What a session is asked for with, where both nodes are known: the
    /// entry node's endpoint, token, listening host and path, the exit node
    /// as destination, and the capabilities and the target of the
    /// configuration.
    pub open spec fn open_session(self) -> Option<crate::session::OpenSessionView> {
        match (self.entry_node, self.exit_node) {
            (Some(entry), Some(exit)) => Some(
                crate::session::OpenSessionView {
                    endpoint: entry.endpoint,
                    api_token: entry.api_token,
                    destination: exit,
                    capabilities: match self.config.connection {
                        Some(connection) => connection.capabilities,
                        None => None,
                    },
                    listen_host: entry.listen_host,
                    path: Some(entry.path),
                    target: match self.config.connection {
                        Some(connection) => connection.target,
                        None => None,
                    },
                },
            ),
            _ => None,
        }
    }

    /// The request of a call, made up from what the state knows; or why
    /// there is none.
    pub open spec fn request(self, slot: Slot) -> Result<RequestView, RequestError> {
        match slot {
            Slot::Addresses => match self.entry_node {
                Some(entry) => entry.addresses_request(),
                None => Err(RequestError::UnexpectedInternalState),
            },
            Slot::OpenSession => match self.open_session() {
                Some(open) => open.request(),
                None => Err(RequestError::UnexpectedInternalState),
            },
            Slot::ListSessions => match self.entry_node {
                Some(entry) => entry.list_request(),
                None => Err(RequestError::UnexpectedInternalState),
            },
            Slot::CloseSession => match (self.entry_node, self.session) {
                (Some(entry), Some(session)) => session.close_request(entry),
                _ => Err(RequestError::UnexpectedInternalState),
            },
        }
    }

    /// Whether the request of a call can be made up.
    pub open spec fn can_start(self, slot: Slot) -> bool {
        self.request(slot) is Ok
    }

    /// A call is started with the retries given: a worker is sent off with
    /// its request. Where no request can be made up the call has failed.
    pub open spec fn start(self, slot: Slot, now: u64, backoffs: Seq<u64>) -> Outcome {
        match self.request(slot) {
            Ok(request) => Outcome {
                core: self.with_slot(slot, RemoteDataView::Fetching { started_at: now, backoffs }),
                actions: seq![ActionView::Fetch { slot, request }],
            },
            Err(error) => Outcome {
                core: self.with_slot(slot, RemoteDataView::Failure { error: failure_of(error) }),
                actions: seq![],
            },
        }
    }

    /// The session is asked for: the daemon is opening where the call could
    /// be started, and idle where it could not.
    pub open spec fn open_now(self, moment: Moment) -> Outcome {
        let started = self.start(Slot::OpenSession, moment.now, series_of(Slot::OpenSession));
        Outcome {
            core: started.core.with_status(
                if self.can_start(Slot::OpenSession) {
                    Status::OpeningSession { start_time: moment.now }
                } else {
                    Status::Idle
                },
            ),
            actions: started.actions,
        }
    }

    /// A session is asked for where the daemon is idle and knows both nodes.
    pub open spec fn try_open(self, moment: Moment) -> Outcome {
        if self.status is Idle && self.entry_node is Some && self.exit_node is Some {
            self.open_now(moment)
        } else {
            Outcome { core: self, actions: seq![] }
        }
    }

    /// After a node was named: a session is asked for, anew where one was
    /// being asked for, unless a session is still there.
    pub open spec fn reopen(self, moment: Moment) -> Outcome {
        if (self.status is Idle || self.status is OpeningSession) && self.entry_node is Some
            && self.exit_node is Some {
            self.open_now(moment)
        } else {
            Outcome { core: self, actions: seq![] }
        }
    }

    /// The session is closed at the entry node: the daemon is closing where
    /// the call could be started; where it could not, the session is given
    /// up and the daemon is idle.
    pub open spec fn close_now(self, moment: Moment) -> Outcome {
        let started = self.start(Slot::CloseSession, moment.now, series_of(Slot::CloseSession));
        Outcome {
            core: if self.can_start(Slot::CloseSession) {
                started.core.with_status(
                    Status::ClosingSession {
                        start_time: match self.status {
                            Status::ClosingSession { start_time } => start_time,
                            _ => moment.now,
                        },
                    },
                )
            } else {
                started.core.dropped()
            },
            actions: started.actions,
        }
    }

    /// Before a node is named anew: every timer is called off; a session
    /// that is monitored is closed; and where a session is being closed and
    /// no worker is under way for it, the call is started again.
    pub open spec fn prepare(self, moment: Moment) -> Outcome {
        let called_off = self.cancel_all();
        let closing = if called_off.core.status is MonitoringSession || (called_off.core.status
            is ClosingSession && !(called_off.core.fetch.close_session is Fetching)) {
            called_off.core.close_now(moment)
        } else {
            Outcome { core: called_off.core, actions: seq![] }
        };
        Outcome { core: closing.core, actions: called_off.actions + closing.actions }
    }

    /// The entry node, the exit node or both are named anew. The addresses
    /// are asked for where the entry node is new, and a session is asked for
    /// where none is there.
    pub open spec fn renamed(
        self,
        entry: Option<EntryNodeView>,
        exit: Option<Seq<char>>,
        moment: Moment,
    ) -> Outcome {
        let prepared = self.prepare(moment);
        let named = CoreView {
            entry_node: if entry is Some {
                entry
            } else {
                prepared.core.entry_node
            },
            exit_node: if exit is Some {
                exit
            } else {
                prepared.core.exit_node
            },
            ..prepared.core
        };
        let asked = if entry is Some {
            named.start(Slot::Addresses, moment.now, series_of(Slot::Addresses))
        } else {
            Outcome { core: named, actions: seq![] }
        };
        let opened = asked.core.reopen(moment);
        Outcome { core: opened.core, actions: prepared.actions + asked.actions + opened.actions }
    }
}

impl CoreView {
    /// The private key of the WireGuard interface: that of the
    /// configuration, else that of the kept state.
    pub open spec fn private_key(self) -> Option<Seq<char>> {
        match self.config.wireguard {
            Some(wireguard) => match wireguard.private_key {
                Some(key) => Some(key),
                None => self.state,
            },
            None => self.state,
        }
    }

    /// What the interface is programmed with for a session, where WireGuard
    /// can be driven, a private key is known, and the configuration holds
    /// the interface, the connection and an entry node with a host. The
    /// far end is the entry node's host at the session's port.
    pub open spec fn connect(self, session: SessionView) -> Seq<ActionView> {
        match (
            self.wg,
            self.private_key(),
            self.config.wireguard,
            self.config.connection,
            self.config.entry_node,
        ) {
            (Some(_), Some(key), Some(wireguard), Some(_), Some(entry)) => {
                match crate::endpoint::url_host(entry.endpoint) {
                    Some(host) => seq![
                        ActionView::ConnectWireGuard {
                            session: ConnectSessionView {
                                interface: crate::wireguard::InterfaceInfoView {
                                    private_key: key,
                                    address: wireguard.address,
                                    allowed_ips: wireguard.allowed_ips,
                                },
                                peer: crate::wireguard::PeerInfoView {
                                    public_key: wireguard.server_public_key,
                                    endpoint: host + ":"@ + crate::text::decimal(session.port as nat),
                                },
                            },
                        },
                    ],
                    None => seq![],
                }
            },
            _ => seq![],
        }
    }

    /// A call has failed for good with `error`. Where it is the listing
    /// while a session is monitored, every timer is called off and the
    /// session is closed. Where it is the closing, every timer is called off
    /// and the session is given up. Where it is the opening, the daemon is
    /// idle again.
    pub open spec fn fail_slot(self, slot: Slot, error: CustomErrorView, moment: Moment) -> Outcome {
        let failure = RemoteDataView::Failure { error };
        if slot == Slot::ListSessions && self.status is MonitoringSession {
            let called_off = self.cancel_all();
            let closing = called_off.core.with_slot(slot, failure).close_now(moment);
            Outcome { core: closing.core, actions: called_off.actions + closing.actions }
        } else if slot == Slot::CloseSession && self.status is ClosingSession {
            let called_off = self.cancel_all();
            Outcome {
                core: called_off.core.with_slot(slot, failure).dropped(),
                actions: called_off.actions,
            }
        } else if slot == Slot::OpenSession && self.status is OpeningSession {
            Outcome { core: self.with_slot(slot, failure).with_status(Status::Idle), actions: seq![] }
        } else {
            Outcome { core: self.with_slot(slot, failure), actions: seq![] }
        }
    }

    /// The worker of a call reported an error: a retry is set where one is
    /// left, and the call has failed for good where none is.
    pub open spec fn on_error(self, slot: Slot, error: CustomErrorView, moment: Moment) -> Outcome {
        match self.fetch.get(slot).next_delay() {
            Some(delay) => Outcome {
                core: self.with_slot(
                    slot,
                    self.fetch.get(slot).after_error(error, self.next_handle),
                ).advanced(),
                actions: seq![ActionView::ScheduleRetry { slot, delay, handle: self.next_handle }],
            },
            None => self.fail_slot(slot, error, moment),
        }
    }

    /// The retry timer of a call went off: the call is made again, with the
    /// retries that are left.
    pub open spec fn on_retry(self, slot: Slot, moment: Moment) -> Outcome {
        match self.request(slot) {
            Ok(_) => self.start(slot, moment.now, self.fetch.get(slot)->RetryFetching_backoffs),
            Err(error) => self.fail_slot(slot, failure_of(error), moment),
        }
    }

    /// The session was opened: it is kept and monitored from now on, its
    /// first check is set, and the interface is programmed.
    pub open spec fn opened(self, session: SessionView, moment: Moment) -> Outcome {
        let done = self.with_slot(Slot::OpenSession, RemoteDataView::Success);
        if self.status is OpeningSession {
            Outcome {
                core: CoreView {
                    session: Some(session),
                    status: Status::MonitoringSession {
                        start_time: moment.now,
                        cancel: self.next_handle,
                    },
                    ..done
                }.advanced(),
                actions: seq![
                    ActionView::ScheduleCheck { delay: moment.liveness, handle: self.next_handle },
                ] + self.connect(session),
            }
        } else {
            Outcome { core: done, actions: seq![] }
        }
    }

    /// The session is gone or closed: every timer is called off, the
    /// session is dropped, and a new one is asked for where both nodes are
    /// known.
    pub open spec fn ended(self, moment: Moment) -> Outcome {
        let called_off = self.cancel_all();
        let again = called_off.core.dropped().try_open(moment);
        Outcome { core: again.core, actions: called_off.actions + again.actions }
    }

    /// The open sessions were listed. Where the session is among them, its
    /// next check is set. Where it is not, it has ended.
    pub open spec fn listed(self, sessions: Seq<SessionView>, moment: Moment) -> Outcome {
        let done = self.with_slot(Slot::ListSessions, RemoteDataView::Success);
        match (self.status, self.session) {
            (Status::MonitoringSession { start_time, cancel }, Some(session)) => {
                if session.listed(sessions) {
                    Outcome {
                        core: done.with_status(
                            Status::MonitoringSession { start_time, cancel: self.next_handle },
                        ).advanced(),
                        actions: seq![
                            ActionView::Cancel { handle: cancel },
                            ActionView::ScheduleCheck {
                                delay: moment.liveness,
                                handle: self.next_handle,
                            },
                        ],
                    }
                } else {
                    done.ended(moment)
                }
            },
            _ => Outcome { core: done, actions: seq![] },
        }
    }

    /// The session was closed at the entry node: it has ended.
    pub open spec fn closed(self, moment: Moment) -> Outcome {
        let done = self.with_slot(Slot::CloseSession, RemoteDataView::Success);
        if self.status is ClosingSession {
            done.ended(moment)
        } else {
            Outcome { core: done, actions: seq![] }
        }
    }

    /// The worker of a call reported a response. A response that is not
    /// what the call answers with counts as an error.
    pub open spec fn on_response(
        self,
        slot: Slot,
        json: crate::json::JsonView,
        moment: Moment,
    ) -> Outcome {
        match slot {
            Slot::Addresses => match crate::entry_node::addresses_of(json) {
                Some(addresses) => Outcome {
                    core: CoreView {
                        entry_node: match self.entry_node {
                            Some(entry) => Some(
                                EntryNodeView { addresses: Some(addresses), ..entry },
                            ),
                            None => None,
                        },
                        ..self.with_slot(slot, RemoteDataView::Success)
                    },
                    actions: seq![],
                },
                None => self.on_error(slot, undecoded(), moment),
            },
            Slot::OpenSession => match crate::session::session_of(json) {
                Some(session) => self.opened(session, moment),
                None => self.on_error(slot, undecoded(), moment),
            },
            Slot::ListSessions => match crate::session::sessions_of(json) {
                Some(sessions) => self.listed(sessions, moment),
                None => self.on_error(slot, undecoded(), moment),
            },
            Slot::CloseSession => self.closed(moment),
        }
    }

    /// Whether a report on a call is awaited: a response or an error while a
    /// worker is under way, a retry while a retry waits.
    pub open spec fn awaits(self, slot: Slot, event: crate::remote_data::EventView) -> bool {
        match event {
            crate::remote_data::EventView::Retry => self.fetch.get(slot) is RetryFetching,
            _ => self.fetch.get(slot) is Fetching,
        }
    }

    /// A report on a call came in. One that is not awaited changes nothing.
    pub open spec fn on_remote(
        self,
        slot: Slot,
        event: crate::remote_data::EventView,
        moment: Moment,
    ) -> Outcome {
        if !self.awaits(slot, event) {
            Outcome { core: self, actions: seq![] }
        } else {
            match event {
                crate::remote_data::EventView::Response(json) => self.on_response(
                    slot,
                    json,
                    moment,
                ),
                crate::remote_data::EventView::Error(error) => self.on_error(slot, error, moment),
                crate::remote_data::EventView::Retry => self.on_retry(slot, moment),
            }
        }
    }

    /// The session is due for a check: the open sessions are asked for,
    /// unless that call is under way already or no session is monitored.
    pub open spec fn on_check(self, moment: Moment) -> Outcome {
        if self.fetch.list_sessions.active() || !(self.status is MonitoringSession) {
            Outcome { core: self, actions: seq![] }
        } else {
            match self.request(Slot::ListSessions) {
                Ok(_) => self.start(
                    Slot::ListSessions,
                    moment.now,
                    series_of(Slot::ListSessions),
                ),
                Err(error) => self.fail_slot(Slot::ListSessions, failure_of(error), moment),
            }
        }
    }

    /// A report of a worker or a timer came in.
    pub open spec fn on_event(self, event: crate::event::EventView, moment: Moment) -> Outcome {
        match event {
            crate::event::EventView::Remote(slot, report) => self.on_remote(slot, report, moment),
            crate::event::EventView::CheckSession => self.on_check(moment),
        }
    }

    /// A command came in. To ask for the status changes nothing.
    pub open spec fn on_command(self, command: crate::command::CommandView, moment: Moment) -> Outcome {
        match command {
            crate::command::CommandView::Status => Outcome { core: self, actions: seq![] },
            crate::command::CommandView::EntryNode {
                endpoint,
                api_token,
                listen_host,
                hop,
                intermediate_id,
            } => self.renamed(
                Some(
                    EntryNodeView::new(
                        endpoint,
                        api_token,
                        listen_host,
                        crate::command::chosen_path(hop, intermediate_id),
                    ),
                ),
                None,
                moment,
            ),
            crate::command::CommandView::ExitNode { peer_id } => self.renamed(
                None,
                Some(peer_id),
                moment,
            ),
        }
    }

    /// A key is asked for where WireGuard can be driven and no private key
    /// is known.
    pub open spec fn ensure_key(self) -> Seq<ActionView> {
        if self.wg is Some && self.private_key() is None {
            seq![ActionView::GenerateKey]
        } else {
            seq![]
        }
    }

    /// The state is set up from its configuration: a private key is seen
    /// to, and where the configuration names both the entry node and the
    /// connection, the nodes are named from it.
    pub open spec fn setup(self, moment: Moment) -> Outcome {
        let nodes = match (self.config.entry_node, self.config.connection) {
            (Some(entry), Some(connection)) => self.renamed(
                Some(
                    EntryNodeView::new(
                        entry.endpoint,
                        entry.api_token,
                        connection.listen_host,
                        match connection.path {
                            Some(path) => path,
                            None => crate::config::default_path(),
                        },
                    ),
                ),
                Some(connection.destination),
                moment,
            ),
            _ => Outcome { core: self, actions: seq![] },
        };
        Outcome { core: nodes.core, actions: self.ensure_key() + nodes.actions }
    }

    /// The configuration was read anew. Where it could not be read, the one
    /// that stands where none is given is taken, and unless there simply is
    /// no file, the failure is an issue.
    pub open spec fn on_config(
        self,
        read: Result<ConfigView, crate::config::ErrorView>,
        moment: Moment,
    ) -> Outcome {
        CoreView {
            config: match read {
                Ok(config) => config,
                Err(_) => crate::config::default_config(),
            },
            issues: match read {
                Ok(_) => self.issues,
                Err(crate::config::ErrorView::NoFile) => self.issues,
                Err(error) => with_issue(self.issues, IssueView::Config(error)),
            },
            ..self
        }.setup(moment)
    }

    /// A private key was made, or could not be made. A key is kept, and is
    /// to be written out, where none is known yet. A failure is an issue.
    pub open spec fn on_key(self, made: Result<Seq<char>, crate::wireguard::ErrorView>) -> Outcome {
        match made {
            Ok(key) => if self.private_key() is None {
                Outcome {
                    core: CoreView { state: Some(key), ..self },
                    actions: seq![ActionView::PersistState { state: Some(key) }],
                }
            } else {
                Outcome { core: self, actions: seq![] }
            },
            Err(error) => Outcome {
                core: CoreView {
                    issues: with_issue(self.issues, IssueView::WireGuard(error)),
                    ..self
                },
                actions: seq![],
            },
        }
    }

    /// The state with one more issue.
    pub open spec fn troubled(self, issue: IssueView) -> CoreView {
        CoreView { issues: with_issue(self.issues, issue), ..self }
    }

    /// What holds of the state at all times: there is a session just while
    /// one is monitored or closed; a session is asked for only with both
    /// nodes known; and the call that opens, or closes, is under way or
    /// waits for its retry just while the daemon is opening, or closing.
    pub open spec fn inv(self) -> bool {
        &&& self.session is Some <==> self.status.has_session()
        &&& self.status is OpeningSession ==> self.entry_node is Some && self.exit_node is Some
        &&& self.status is OpeningSession <==> self.fetch.open_session.active()
        &&& self.status is ClosingSession <==> self.fetch.close_session.active()
    }
}

/// The issues that the probes for WireGuard leave: one for each that
/// failed.
pub open spec fn probe_issues(errors: Seq<crate::wireguard::ErrorView>) -> Seq<IssueView> {
    Seq::new(errors.len(), |i: int| IssueView::WireGuardInit(errors[i]))
}

/// The state that the daemon starts from, before it is set up.
pub open spec fn blank(
    config: Result<ConfigView, crate::config::ErrorView>,
    wg: Option<Flavor>,
    wg_errors: Seq<crate::wireguard::ErrorView>,
    state: Result<Option<Seq<char>>, crate::state::ErrorView>,
) -> CoreView {
    CoreView {
        config: match config {
            Ok(config) => config,
            Err(_) => crate::config::default_config(),
        },
        issues: (match config {
            Ok(_) => seq![],
            Err(crate::config::ErrorView::NoFile) => seq![],
            Err(error) => seq![IssueView::Config(error)],
        }) + probe_issues(wg_errors) + (match state {
            Ok(_) => seq![],
            Err(crate::state::ErrorView::NoFile) => seq![],
            Err(error) => seq![IssueView::State(error)],
        }),
        state: match state {
            Ok(state) => state,
            Err(_) => None,
        },
        wg,
        status: Status::Idle,
        entry_node: None,
        exit_node: None,
        fetch: FetchView {
            addresses: RemoteDataView::NotAsked,
            open_session: RemoteDataView::NotAsked,
            list_sessions: RemoteDataView::NotAsked,
            close_session: RemoteDataView::NotAsked,
        },
        session: None,
        next_handle: 0,
    }
}

/// The view of what was read of the configuration.
pub open spec fn config_read(read: Result<Config, crate::config::Error>) -> Result<
    ConfigView,
    crate::config::ErrorView,
> {
    match read {
        Ok(config) => Ok(config@),
        Err(error) => Err(error@),
    }
}

/// The view of what was read of the kept state.
pub open spec fn state_read(read: Result<State, crate::state::Error>) -> Result<
    Option<Seq<char>>,
    crate::state::ErrorView,
> {
    match read {
        Ok(state) => Ok(state@),
        Err(error) => Err(error@),
    }
}

/// The view of a key that was made, or of why none was.
pub open spec fn key_made(made: Result<String, crate::wireguard::Error>) -> Result<
    Seq<char>,
    crate::wireguard::ErrorView,
> {
    match made {
        Ok(key) => Ok(key@),
        Err(error) => Err(error@),
    }
}

impl CoreView {
    /// What is told of the state at the time `now`: the status, the nodes
    /// and the session that there are, the slots of the four calls, whether
    /// the configuration is the one that stands where none is given, and the
    /// issues where there are any.
    pub open spec fn members(self, now: u64) -> Seq<(Seq<char>, Seq<char>)> {
        seq![("status"@, crate::report::status_text(self.status, now))] + (match self.entry_node {
            Some(entry) => seq![("entry_node"@, crate::report::entry_node_text(entry))],
            None => seq![],
        }) + (match self.exit_node {
            Some(exit) => seq![("exit_node"@, crate::report::exit_node_text(exit))],
            None => seq![],
        }) + (match self.session {
            Some(session) => seq![("session"@, session.printed())],
            None => seq![],
        }) + seq![
            ("addresses"@, crate::report::slot_text(self.fetch.addresses, now)),
            ("open_session"@, crate::report::slot_text(self.fetch.open_session, now)),
            ("list_sessions"@, crate::report::slot_text(self.fetch.list_sessions, now)),
            ("close_session"@, crate::report::slot_text(self.fetch.close_session, now)),
        ] + (if self.config == crate::config::default_config() {
            seq![("config"@, "<default>"@)]
        } else {
            seq![]
        }) + (if self.issues.len() > 0 {
            seq![("issues"@, crate::report::issues_text(self.issues))]
        } else {
            seq![]
        })
    }

    /// How the state is told at the time `now`.
    pub open spec fn told(self, now: u64) -> Seq<char> {
        crate::log_output::object_text(self.members(now))
    }
}

/// The state that the daemon starts with, and what is to be done for it.
pub open spec fn started(
    config: Result<ConfigView, crate::config::ErrorView>,
    wg: Option<Flavor>,
    wg_errors: Seq<crate::wireguard::ErrorView>,
    state: Result<Option<Seq<char>>, crate::state::ErrorView>,
    moment: Moment,
) -> Outcome {
    blank(config, wg, wg_errors, state).setup(moment)
}

} // verus!
