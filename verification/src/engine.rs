//! The session control engine: the one owner of the daemon's state. It takes
//! commands, the reports of workers and timers, and changes of the
//! configuration, one at a time, and answers each with the new state and
//! with what is to be done outside: calls to make, timers to set and to call
//! off, the interface to program.
//!
//! What each step does is said in `model`, over the views of the state and
//! of what comes in; the functions here do it. What holds of every step is
//! proved in `laws`.

use crate::backoff::FromIteratorToSeries;
use crate::clock::Moment;
use crate::config::Config;
use crate::engine::laws::lemma_blank_has_inv;
use crate::engine::laws::lemma_command_keeps_inv;
use crate::engine::laws::lemma_config_keeps_inv;
use crate::engine::laws::lemma_event_keeps_inv;
use crate::engine::laws::lemma_setup_keeps_inv;
use crate::engine::model::blank;
use crate::engine::model::cancels;
use crate::engine::model::config_read;
use crate::engine::model::failure_of;
use crate::engine::model::key_made;
use crate::engine::model::probe_issues;
use crate::engine::model::series_of;
use crate::engine::model::started;
use crate::engine::model::state_read;
use crate::engine::model::undecoded;
use crate::engine::model::CoreView;
use crate::entry_node::EntryNode;
use crate::exit_node::ExitNode;
use crate::remote_data::CustomError;
use crate::remote_data::RemoteData;
use crate::remote_data::RemoteDataView;
use crate::remote_data::Request;
use crate::remote_data::RequestError;
use crate::remote_data::RequestView;
use crate::remote_data::Slot;
use crate::session::Session;
use crate::session::SessionView;
use crate::state::State;
use crate::wireguard::ConnectSession;
use crate::wireguard::ConnectSessionView;
use crate::wireguard::Flavor;
use vstd::prelude::*;
use vstd::string::*;

pub mod laws;
pub mod model;

verus! {

/// Where the daemon stands with its one session. Times are in nanoseconds
/// since the start of 1970.
#[derive(Clone, Copy, Debug, PartialEq, Eq, Structural)]
pub enum Status {
    Idle,
    OpeningSession { start_time: u64 },
    /// The session is open. `cancel` names the timer of its next check.
    MonitoringSession { start_time: u64, cancel: u64 },
    ClosingSession { start_time: u64 },
}

/// Something that went wrong without stopping the daemon, for the user to
/// see.
#[derive(Clone, Debug, PartialEq)]
pub enum Issue {
    Config(crate::config::Error),
    State(crate::state::Error),
    WireGuardInit(crate::wireguard::Error),
    WireGuard(crate::wireguard::Error),
}

/// What an `Issue` stands for.
pub enum IssueView {
    Config(crate::config::ErrorView),
    State(crate::state::ErrorView),
    WireGuardInit(crate::wireguard::ErrorView),
    WireGuard(crate::wireguard::ErrorView),
}

impl DeepView for Issue {
    type V = IssueView;

    open spec fn deep_view(&self) -> IssueView {
        match self {
            Issue::Config(error) => IssueView::Config(error@),
            Issue::State(error) => IssueView::State(error@),
            Issue::WireGuardInit(error) => IssueView::WireGuardInit(error@),
            Issue::WireGuard(error) => IssueView::WireGuard(error@),
        }
    }
}

impl View for Issue {
    type V = IssueView;

    open spec fn view(&self) -> IssueView {
        self.deep_view()
    }
}

impl IssueView {
    /// Whether a new issue takes the place of this one: it is of the same
    /// kind, and the kind is not that of the issues found at start-up with
    /// the ways of driving WireGuard, of which there is one for each way.
    pub open spec fn replaced_by(self, new: IssueView) -> bool {
        match (self, new) {
            (IssueView::Config(_), IssueView::Config(_)) => true,
            (IssueView::WireGuard(_), IssueView::WireGuard(_)) => true,
            (IssueView::State(_), IssueView::State(_)) => true,
            _ => false,
        }
    }
}

/// The issues that stay when `new` comes in.
pub open spec fn kept(issues: Seq<IssueView>, new: IssueView) -> Seq<IssueView>
    decreases issues.len(),
{
    if issues.len() == 0 {
        seq![]
    } else if issues[0].replaced_by(new) {
        kept(issues.drop_first(), new)
    } else {
        seq![issues[0]] + kept(issues.drop_first(), new)
    }
}

/// The issues after `new` came in: it stands last, and no other of its kind
/// is left.
pub open spec fn with_issue(issues: Seq<IssueView>, new: IssueView) -> Seq<IssueView> {
    kept(issues, new).push(new)
}

impl Issue {
    fn replaced_by(&self, new: &Issue) -> (r: bool)
        ensures
            r == self@.replaced_by(new@),
    {
        match (self, new) {
            (Issue::Config(_), Issue::Config(_)) => true,
            (Issue::WireGuard(_), Issue::WireGuard(_)) => true,
            (Issue::State(_), Issue::State(_)) => true,
            _ => false,
        }
    }
}

/// Takes a new issue in: earlier issues of its kind go, and it is put last.
pub fn replace_issue(issues: &mut Vec<Issue>, issue: Issue)
    ensures
        final(issues).deep_view() == with_issue(old(issues).deep_view(), issue@),
{
    let mut stay: Vec<Issue> = Vec::new();
    let ghost before = issues.deep_view();
    assert(stay.deep_view() =~= seq![]);
    while issues.len() > 0
        invariant
            stay.deep_view() + kept(issues.deep_view(), issue@) == kept(before, issue@),
        decreases issues.len(),
    {
        let ghost rest = issues.deep_view();
        let ghost had = stay.deep_view();
        let first = issues.remove(0);
        assert(issues.deep_view() =~= rest.drop_first());
        assert(first@ == rest[0]);
        if !first.replaced_by(&issue) {
            stay.push(first);
            assert(stay.deep_view() =~= had + seq![rest[0]]);
            assert(stay.deep_view() + kept(issues.deep_view(), issue@) =~= had + kept(
                rest,
                issue@,
            ));
        }
    }
    assert(kept(issues.deep_view(), issue@) =~= seq![]);
    assert(stay.deep_view() =~= kept(before, issue@));
    stay.push(issue);
    assert(stay.deep_view() =~= with_issue(before, issue@));
    *issues = stay;
}

/// Something for the daemon to do outside its state.
#[derive(Clone, Debug, PartialEq)]
pub enum Action {
    /// Start a worker that makes the call and reports once.
    Fetch { slot: Slot, request: Request },
    /// Set a timer that reports a retry of the call after `delay`
    /// milliseconds, unless it is called off under `handle`.
    ScheduleRetry { slot: Slot, delay: u64, handle: u64 },
    /// Set a timer that reports a check of the session after `delay`
    /// milliseconds, unless it is called off under `handle`.
    ScheduleCheck { delay: u64, handle: u64 },
    /// Call the timer off that was set under `handle`.
    Cancel { handle: u64 },
    /// Program the WireGuard interface for the session.
    ConnectWireGuard { session: ConnectSession },
    /// Have a private key made for the WireGuard interface.
    GenerateKey,
    /// Write the state out.
    PersistState { state: State },
}

/// What an `Action` stands for.
pub enum ActionView {
    Fetch { slot: Slot, request: RequestView },
    ScheduleRetry { slot: Slot, delay: u64, handle: u64 },
    ScheduleCheck { delay: u64, handle: u64 },
    Cancel { handle: u64 },
    ConnectWireGuard { session: ConnectSessionView },
    GenerateKey,
    PersistState { state: Option<Seq<char>> },
}

impl DeepView for Action {
    type V = ActionView;

    open spec fn deep_view(&self) -> ActionView {
        match self {
            Action::Fetch { slot, request } => ActionView::Fetch { slot: *slot, request: request@ },
            Action::ScheduleRetry { slot, delay, handle } => ActionView::ScheduleRetry {
                slot: *slot,
                delay: *delay,
                handle: *handle,
            },
            Action::ScheduleCheck { delay, handle } => ActionView::ScheduleCheck {
                delay: *delay,
                handle: *handle,
            },
            Action::Cancel { handle } => ActionView::Cancel { handle: *handle },
            Action::ConnectWireGuard { session } => ActionView::ConnectWireGuard {
                session: session@,
            },
            Action::GenerateKey => ActionView::GenerateKey,
            Action::PersistState { state } => ActionView::PersistState { state: state@ },
        }
    }
}

impl View for Action {
    type V = ActionView;

    open spec fn view(&self) -> ActionView {
        self.deep_view()
    }
}

/// Puts one more action on the list of what is to be done.
fn emit(actions: &mut Vec<Action>, action: Action)
    ensures
        final(actions).deep_view() == old(actions).deep_view().push(action@),
{
    let ghost before = actions.deep_view();
    actions.push(action);
    assert(actions.deep_view() =~= before.push(action@));
}

/// The slots of the four remote calls.
#[derive(Clone, Debug, PartialEq)]
pub struct FetchData {
    pub addresses: RemoteData,
    pub open_session: RemoteData,
    pub list_sessions: RemoteData,
    pub close_session: RemoteData,
}

/// What the slots of the four remote calls stand for.
pub struct FetchView {
    pub addresses: RemoteDataView,
    pub open_session: RemoteDataView,
    pub list_sessions: RemoteDataView,
    pub close_session: RemoteDataView,
}

impl DeepView for FetchData {
    type V = FetchView;

    open spec fn deep_view(&self) -> FetchView {
        FetchView {
            addresses: self.addresses@,
            open_session: self.open_session@,
            list_sessions: self.list_sessions@,
            close_session: self.close_session@,
        }
    }
}

impl View for FetchData {
    type V = FetchView;

    open spec fn view(&self) -> FetchView {
        self.deep_view()
    }
}

impl FetchView {
    /// The slot of a call.
    pub open spec fn get(self, slot: Slot) -> RemoteDataView {
        match slot {
            Slot::Addresses => self.addresses,
            Slot::OpenSession => self.open_session,
            Slot::ListSessions => self.list_sessions,
            Slot::CloseSession => self.close_session,
        }
    }

    /// The slots with that of one call changed.
    pub open spec fn set(self, slot: Slot, data: RemoteDataView) -> FetchView {
        match slot {
            Slot::Addresses => FetchView { addresses: data, ..self },
            Slot::OpenSession => FetchView { open_session: data, ..self },
            Slot::ListSessions => FetchView { list_sessions: data, ..self },
            Slot::CloseSession => FetchView { close_session: data, ..self },
        }
    }
}

impl FetchData {
    /// The slot of a call.
    pub fn get(&self, slot: Slot) -> (r: &RemoteData)
        ensures
            r@ == self@.get(slot),
    {
        match slot {
            Slot::Addresses => &self.addresses,
            Slot::OpenSession => &self.open_session,
            Slot::ListSessions => &self.list_sessions,
            Slot::CloseSession => &self.close_session,
        }
    }

    fn set(&mut self, slot: Slot, data: RemoteData)
        ensures
            final(self)@ == old(self)@.set(slot, data@),
    {
        match slot {
            Slot::Addresses => {
                self.addresses = data;
            },
            Slot::OpenSession => {
                self.open_session = data;
            },
            Slot::ListSessions => {
                self.list_sessions = data;
            },
            Slot::CloseSession => {
                self.close_session = data;
            },
        }
    }

    fn fail(&mut self, slot: Slot, error: CustomError, handle: u64) -> (delay: Option<u64>)
        ensures
            final(self)@ == old(self)@.set(slot, old(self)@.get(slot).after_error(error@, handle)),
            delay == old(self)@.get(slot).next_delay(),
    {
        match slot {
            Slot::Addresses => self.addresses.fail(error, handle),
            Slot::OpenSession => self.open_session.fail(error, handle),
            Slot::ListSessions => self.list_sessions.fail(error, handle),
            Slot::CloseSession => self.close_session.fail(error, handle),
        }
    }

    fn take_backoffs(&mut self, slot: Slot) -> (backoffs: Vec<u64>)
        requires
            old(self)@.get(slot) is RetryFetching,
        ensures
            backoffs@ == old(self)@.get(slot)->RetryFetching_backoffs,
            final(self)@ == old(self)@.set(slot, RemoteDataView::NotAsked),
    {
        match slot {
            Slot::Addresses => self.addresses.take_backoffs(),
            Slot::OpenSession => self.open_session.take_backoffs(),
            Slot::ListSessions => self.list_sessions.take_backoffs(),
            Slot::CloseSession => self.close_session.take_backoffs(),
        }
    }
}

/// The state of the daemon.
#[derive(Debug)]
pub struct Core {
    config: Config,
    issues: Vec<Issue>,
    state: State,
    wg: Option<Flavor>,
    status: Status,
    entry_node: Option<EntryNode>,
    exit_node: Option<ExitNode>,
    fetch_data: FetchData,
    session: Option<Session>,
    next_handle: u64,
}

impl View for Core {
    type V = CoreView;

    closed spec fn view(&self) -> CoreView {
        CoreView {
            config: self.config@,
            issues: self.issues.deep_view(),
            state: self.state@,
            wg: self.wg,
            status: self.status,
            entry_node: self.entry_node.deep_view(),
            exit_node: self.exit_node.deep_view(),
            fetch: self.fetch_data@,
            session: self.session.deep_view(),
            next_handle: self.next_handle,
        }
    }
}

/// The retries that a call has when it is first made.
pub fn series_for(slot: Slot) -> (r: Vec<u64>)
    ensures
        r@ == series_of(slot),
{
    match slot {
        Slot::Addresses => crate::backoff::get_addresses().to_vec(),
        Slot::OpenSession => crate::backoff::open_session().to_vec(),
        Slot::ListSessions => crate::backoff::list_sessions().to_vec(),
        Slot::CloseSession => crate::backoff::close_session().to_vec(),
    }
}

fn failure_for(error: RequestError) -> (r: CustomError)
    ensures
        r@ == failure_of(error),
{
    CustomError {
        reqw_err: Some(
            match error {
                RequestError::InvalidHeaderValue => String::from_str("failed to parse header value"),
                RequestError::Url => String::from_str("failed to find the address of the call"),
                RequestError::UnexpectedInternalState => String::from_str(
                    "unexpected internal state",
                ),
            },
        ),
        status: None,
        value: None,
    }
}

fn undecoded_response() -> (r: CustomError)
    ensures
        r@ == undecoded(),
{
    CustomError {
        reqw_err: Some(String::from_str("failed to read the response")),
        status: None,
        value: None,
    }
}

fn emit_cancel(actions: &mut Vec<Action>, handle: Option<u64>)
    ensures
        final(actions).deep_view() == old(actions).deep_view() + cancels(handle),
{
    let ghost before = actions.deep_view();
    match handle {
        Some(handle) => {
            emit(actions, Action::Cancel { handle });
            assert(actions.deep_view() =~= before + cancels(Some(handle)));
        },
        None => {
            assert(actions.deep_view() =~= before + cancels(None));
        },
    }
}

fn copy_capabilities(list: &Vec<crate::config::SessionCapabilitiesConfig>) -> (r: Vec<
    crate::config::SessionCapabilitiesConfig,
>)
    ensures
        r.deep_view() == list.deep_view(),
{
    let mut copy: Vec<crate::config::SessionCapabilitiesConfig> = Vec::new();
    let mut i: usize = 0;
    while i < list.len()
        invariant
            i <= list.len(),
            copy@.len() == i,
            forall|k: int| 0 <= k < i ==> copy@[k] == list@[k],
        decreases list.len() - i,
    {
        copy.push(list[i]);
        i = i + 1;
    }
    assert(copy.deep_view() =~= list.deep_view());
    copy
}

fn copy_text(text: &Option<String>) -> (r: Option<String>)
    ensures
        r.deep_view() == text.deep_view(),
{
    match text {
        Some(text) => Some(text.clone()),
        None => None,
    }
}

fn copy_target(target: &crate::config::SessionTargetConfig) -> (r:
    crate::config::SessionTargetConfig)
    ensures
        r@ == target@,
{
    crate::config::SessionTargetConfig {
        type_: target.type_,
        host: copy_text(&target.host),
        port: target.port,
    }
}

impl Core {
    /// What holds of the state at all times.
    pub open spec fn inv(&self) -> bool {
        self@.inv()
    }

    fn fresh(&mut self) -> (handle: u64)
        ensures
            handle == old(self)@.next_handle,
            final(self)@ == old(self)@.advanced(),
    {
        let handle = self.next_handle;
        self.next_handle = if handle == u64::MAX {
            0
        } else {
            handle + 1
        };
        handle
    }

    fn cancel_all(&mut self, actions: &mut Vec<Action>)
        ensures
            final(self)@ == old(self)@.cancel_all().core,
            final(actions).deep_view() == old(actions).deep_view() + old(self)@.cancel_all().actions,
    {
        let ghost before = actions.deep_view();
        let ghost core = self@;
        let addresses = self.fetch_data.addresses.cancel();
        emit_cancel(actions, addresses);
        let open_session = self.fetch_data.open_session.cancel();
        emit_cancel(actions, open_session);
        let list_sessions = self.fetch_data.list_sessions.cancel();
        emit_cancel(actions, list_sessions);
        let close_session = self.fetch_data.close_session.cancel();
        emit_cancel(actions, close_session);
        let liveness = match self.status {
            Status::MonitoringSession { cancel, .. } => Some(cancel),
            _ => None,
        };
        emit_cancel(actions, liveness);
        assert(actions.deep_view() =~= before + core.cancel_all().actions);
    }

    fn open_session(&self) -> (r: Option<crate::session::OpenSession>)
        ensures
            r.deep_view() == self@.open_session(),
    {
        match (&self.entry_node, &self.exit_node) {
            (Some(entry), Some(exit)) => {
                let capabilities = match &self.config.connection {
                    Some(connection) => match &connection.capabilities {
                        Some(list) => Some(copy_capabilities(list)),
                        None => None,
                    },
                    None => None,
                };
                let target = match &self.config.connection {
                    Some(connection) => match &connection.target {
                        Some(target) => Some(copy_target(target)),
                        None => None,
                    },
                    None => None,
                };
                Some(
                    crate::session::OpenSession {
                        endpoint: entry.endpoint.clone(),
                        api_token: entry.api_token.clone(),
                        destination: exit.peer_id.to_base58(),
                        capabilities,
                        listen_host: copy_text(&entry.listen_host),
                        path: Some(entry.path.duplicate()),
                        target,
                    },
                )
            },
            _ => None,
        }
    }

    fn request(&self, slot: Slot) -> (r: Result<Request, RequestError>)
        ensures
            crate::remote_data::built(r) == self@.request(slot),
    {
        match slot {
            Slot::Addresses => match &self.entry_node {
                Some(entry) => entry.query_addresses(),
                None => Err(RequestError::UnexpectedInternalState),
            },
            Slot::OpenSession => match self.open_session() {
                Some(open) => crate::session::open(&open),
                None => Err(RequestError::UnexpectedInternalState),
            },
            Slot::ListSessions => match &self.entry_node {
                Some(entry) => entry.list_sessions(),
                None => Err(RequestError::UnexpectedInternalState),
            },
            Slot::CloseSession => match (&self.entry_node, &self.session) {
                (Some(entry), Some(session)) => session.close(entry),
                _ => Err(RequestError::UnexpectedInternalState),
            },
        }
    }

    fn start(&mut self, slot: Slot, now: u64, backoffs: Vec<u64>, actions: &mut Vec<Action>) -> (ok:
        bool)
        ensures
            ok == old(self)@.can_start(slot),
            final(self)@ == old(self)@.start(slot, now, backoffs@).core,
            final(actions).deep_view() == old(actions).deep_view() + old(self)@.start(
                slot,
                now,
                backoffs@,
            ).actions,
    {
        let ghost before = actions.deep_view();
        match self.request(slot) {
            Ok(request) => {
                self.fetch_data.set(slot, RemoteData::Fetching { started_at: now, backoffs });
                emit(actions, Action::Fetch { slot, request });
                assert(actions.deep_view() =~= before + seq![
                    ActionView::Fetch { slot, request: request@ },
                ]);
                true
            },
            Err(error) => {
                self.fetch_data.set(slot, RemoteData::Failure { error: failure_for(error) });
                assert(actions.deep_view() =~= before + Seq::<ActionView>::empty());
                false
            },
        }
    }

    fn open_now(&mut self, moment: Moment, actions: &mut Vec<Action>)
        ensures
            final(self)@ == old(self)@.open_now(moment).core,
            final(actions).deep_view() == old(actions).deep_view() + old(self)@.open_now(
                moment,
            ).actions,
    {
        if self.start(Slot::OpenSession, moment.now, series_for(Slot::OpenSession), actions) {
            self.status = Status::OpeningSession { start_time: moment.now };
        } else {
            self.status = Status::Idle;
        }
    }

    fn is_idle(&self) -> (r: bool)
        ensures
            r == (self@.status is Idle),
    {
        match self.status {
            Status::Idle => true,
            _ => false,
        }
    }

    fn is_opening(&self) -> (r: bool)
        ensures
            r == (self@.status is OpeningSession),
    {
        match self.status {
            Status::OpeningSession { .. } => true,
            _ => false,
        }
    }

    fn is_monitoring(&self) -> (r: bool)
        ensures
            r == (self@.status is MonitoringSession),
    {
        match self.status {
            Status::MonitoringSession { .. } => true,
            _ => false,
        }
    }

    fn is_closing(&self) -> (r: bool)
        ensures
            r == (self@.status is ClosingSession),
    {
        match self.status {
            Status::ClosingSession { .. } => true,
            _ => false,
        }
    }

    fn try_open(&mut self, moment: Moment, actions: &mut Vec<Action>)
        ensures
            final(self)@ == old(self)@.try_open(moment).core,
            final(actions).deep_view() == old(actions).deep_view() + old(self)@.try_open(
                moment,
            ).actions,
    {
        if self.is_idle() && self.entry_node.is_some() && self.exit_node.is_some() {
            self.open_now(moment, actions);
        } else {
            assert(actions.deep_view() =~= actions.deep_view() + Seq::<ActionView>::empty());
        }
    }

    fn reopen(&mut self, moment: Moment, actions: &mut Vec<Action>)
        ensures
            final(self)@ == old(self)@.reopen(moment).core,
            final(actions).deep_view() == old(actions).deep_view() + old(self)@.reopen(
                moment,
            ).actions,
    {
        if (self.is_idle() || self.is_opening()) && self.entry_node.is_some()
            && self.exit_node.is_some() {
            self.open_now(moment, actions);
        } else {
            assert(actions.deep_view() =~= actions.deep_view() + Seq::<ActionView>::empty());
        }
    }

    fn drop_session(&mut self)
        ensures
            final(self)@ == old(self)@.dropped(),
    {
        self.status = Status::Idle;
        self.session = None;
    }

    fn close_now(&mut self, moment: Moment, actions: &mut Vec<Action>)
        ensures
            final(self)@ == old(self)@.close_now(moment).core,
            final(actions).deep_view() == old(actions).deep_view() + old(self)@.close_now(
                moment,
            ).actions,
    {
        if self.start(Slot::CloseSession, moment.now, series_for(Slot::CloseSession), actions) {
            let start_time = match self.status {
                Status::ClosingSession { start_time } => start_time,
                _ => moment.now,
            };
            self.status = Status::ClosingSession { start_time };
        } else {
            self.drop_session();
        }
    }

    fn prepare(&mut self, moment: Moment, actions: &mut Vec<Action>)
        ensures
            final(self)@ == old(self)@.prepare(moment).core,
            final(actions).deep_view() == old(actions).deep_view() + old(self)@.prepare(
                moment,
            ).actions,
    {
        let ghost before = actions.deep_view();
        let ghost core = self@;
        self.cancel_all(actions);
        if self.is_monitoring() || (self.is_closing()
            && !self.fetch_data.close_session.is_fetching()) {
            self.close_now(moment, actions);
        } else {
            assert(actions.deep_view() =~= actions.deep_view() + Seq::<ActionView>::empty());
        }
        assert(actions.deep_view() =~= before + core.prepare(moment).actions);
    }

    fn renamed(
        &mut self,
        entry: Option<EntryNode>,
        exit: Option<ExitNode>,
        moment: Moment,
        actions: &mut Vec<Action>,
    )
        ensures
            final(self)@ == old(self)@.renamed(entry.deep_view(), exit.deep_view(), moment).core,
            final(actions).deep_view() == old(actions).deep_view() + old(self)@.renamed(
                entry.deep_view(),
                exit.deep_view(),
                moment,
            ).actions,
    {
        let ghost before = actions.deep_view();
        let ghost core = self@;
        self.prepare(moment, actions);
        let asks = entry.is_some();
        if entry.is_some() {
            self.entry_node = entry;
        }
        if exit.is_some() {
            self.exit_node = exit;
        }
        if asks {
            self.start(Slot::Addresses, moment.now, series_for(Slot::Addresses), actions);
        } else {
            assert(actions.deep_view() =~= actions.deep_view() + Seq::<ActionView>::empty());
        }
        self.reopen(moment, actions);
        assert(actions.deep_view() =~= before + core.renamed(
            entry.deep_view(),
            exit.deep_view(),
            moment,
        ).actions);
    }
}

impl Core {
    fn fail_slot(&mut self, slot: Slot, error: CustomError, moment: Moment, actions: &mut Vec<Action>)
        ensures
            final(self)@ == old(self)@.fail_slot(slot, error@, moment).core,
            final(actions).deep_view() == old(actions).deep_view() + old(self)@.fail_slot(
                slot,
                error@,
                moment,
            ).actions,
    {
        let ghost before = actions.deep_view();
        let ghost core = self@;
        if slot == Slot::ListSessions && self.is_monitoring() {
            self.cancel_all(actions);
            self.fetch_data.set(slot, RemoteData::Failure { error });
            self.close_now(moment, actions);
            assert(actions.deep_view() =~= before + core.fail_slot(slot, error@, moment).actions);
        } else if slot == Slot::CloseSession && self.is_closing() {
            self.cancel_all(actions);
            self.fetch_data.set(slot, RemoteData::Failure { error });
            self.drop_session();
        } else if slot == Slot::OpenSession && self.is_opening() {
            self.fetch_data.set(slot, RemoteData::Failure { error });
            self.status = Status::Idle;
            assert(actions.deep_view() =~= before + Seq::<ActionView>::empty());
        } else {
            self.fetch_data.set(slot, RemoteData::Failure { error });
            assert(actions.deep_view() =~= before + Seq::<ActionView>::empty());
        }
    }

    fn on_error(&mut self, slot: Slot, error: CustomError, moment: Moment, actions: &mut Vec<Action>)
        requires
            old(self)@.fetch.get(slot) is Fetching,
        ensures
            final(self)@ == old(self)@.on_error(slot, error@, moment).core,
            final(actions).deep_view() == old(actions).deep_view() + old(self)@.on_error(
                slot,
                error@,
                moment,
            ).actions,
    {
        let ghost before = actions.deep_view();
        let ghost core = self@;
        let left = match self.fetch_data.get(slot) {
            RemoteData::Fetching { backoffs, .. } => backoffs.len() > 0,
            _ => false,
        };
        if left {
            let handle = self.next_handle;
            let delay = self.fetch_data.fail(slot, error, handle);
            let handle = self.fresh();
            match delay {
                Some(delay) => {
                    emit(actions, Action::ScheduleRetry { slot, delay, handle });
                    assert(actions.deep_view() =~= before + core.on_error(
                        slot,
                        error@,
                        moment,
                    ).actions);
                },
                None => {},
            }
        } else {
            self.fail_slot(slot, error, moment, actions);
        }
    }

    fn on_retry(&mut self, slot: Slot, moment: Moment, actions: &mut Vec<Action>)
        requires
            old(self)@.fetch.get(slot) is RetryFetching,
        ensures
            final(self)@ == old(self)@.on_retry(slot, moment).core,
            final(actions).deep_view() == old(actions).deep_view() + old(self)@.on_retry(
                slot,
                moment,
            ).actions,
    {
        match self.request(slot) {
            Ok(request) => {
                let ghost before = actions.deep_view();
                let ghost core = self@;
                let backoffs = self.fetch_data.take_backoffs(slot);
                self.fetch_data.set(
                    slot,
                    RemoteData::Fetching { started_at: moment.now, backoffs },
                );
                emit(actions, Action::Fetch { slot, request });
                assert(self@.fetch =~= core.on_retry(slot, moment).core.fetch);
                assert(actions.deep_view() =~= before + core.on_retry(slot, moment).actions);
            },
            Err(error) => {
                self.fail_slot(slot, failure_for(error), moment, actions);
            },
        }
    }

    fn private_key(&self) -> (r: Option<String>)
        ensures
            r.deep_view() == self@.private_key(),
    {
        match &self.config.wireguard {
            Some(wireguard) => match &wireguard.private_key {
                Some(key) => Some(key.clone()),
                None => copy_text(&self.state.wg_private_key),
            },
            None => copy_text(&self.state.wg_private_key),
        }
    }

    fn connect(&self, port: u16, actions: &mut Vec<Action>)
        ensures
            forall|session: SessionView|
                session.port == port ==> final(actions).deep_view() == old(actions).deep_view()
                    + #[trigger] self@.connect(session),
    {
        let ghost before = actions.deep_view();
        if self.wg.is_none() || self.config.connection.is_none() {
            assert(actions.deep_view() =~= before + Seq::<ActionView>::empty());
            return ;
        }
        let key = match self.private_key() {
            Some(key) => key,
            None => {
                assert(actions.deep_view() =~= before + Seq::<ActionView>::empty());
                return ;
            },
        };
        match (&self.config.wireguard, &self.config.entry_node) {
            (Some(wireguard), Some(entry)) => {
                match crate::endpoint::host_of_url(entry.endpoint.as_str()) {
                    Some(host) => {
                        let mut endpoint = host;
                        endpoint.append(":");
                        endpoint.append(crate::text::decimal_string(port as u64).as_str());
                        let session = ConnectSession {
                            interface: crate::wireguard::InterfaceInfo {
                                private_key: key,
                                address: wireguard.address.clone(),
                                allowed_ips: copy_text(&wireguard.allowed_ips),
                            },
                            peer: crate::wireguard::PeerInfo {
                                public_key: wireguard.server_public_key.clone(),
                                endpoint,
                            },
                        };
                        emit(actions, Action::ConnectWireGuard { session });
                        assert forall|session: SessionView| session.port == port implies actions.deep_view()
                            == before + #[trigger] self@.connect(session) by {
                            assert(actions.deep_view() =~= before + self@.connect(session));
                        }
                    },
                    None => {
                        assert(actions.deep_view() =~= before + Seq::<ActionView>::empty());
                    },
                }
            },
            _ => {
                assert(actions.deep_view() =~= before + Seq::<ActionView>::empty());
            },
        }
    }

    fn opened(&mut self, session: Session, moment: Moment, actions: &mut Vec<Action>)
        ensures
            final(self)@ == old(self)@.opened(session@, moment).core,
            final(actions).deep_view() == old(actions).deep_view() + old(self)@.opened(
                session@,
                moment,
            ).actions,
    {
        let ghost before = actions.deep_view();
        let ghost core = self@;
        self.fetch_data.set(Slot::OpenSession, RemoteData::Success);
        let ghost done = self@;
        if self.is_opening() {
            let port = session.port;
            self.connect_after_check(port, moment, actions);
            self.session = Some(session);
            assert(done.connect(session@) == core.connect(session@));
            assert(actions.deep_view() =~= before + core.opened(session@, moment).actions);
        } else {
            assert(actions.deep_view() =~= before + Seq::<ActionView>::empty());
        }
    }

    fn connect_after_check(&mut self, port: u16, moment: Moment, actions: &mut Vec<Action>)
        ensures
            final(self)@ == (CoreView {
                status: Status::MonitoringSession {
                    start_time: moment.now,
                    cancel: old(self)@.next_handle,
                },
                ..old(self)@
            }).advanced(),
            forall|session: SessionView|
                session.port == port ==> final(actions).deep_view() == old(actions).deep_view()
                    + seq![
                    ActionView::ScheduleCheck {
                        delay: moment.liveness,
                        handle: old(self)@.next_handle,
                    },
                ] + #[trigger] old(self)@.connect(session),
    {
        let ghost before = actions.deep_view();
        let ghost core = self@;
        let handle = self.fresh();
        self.status = Status::MonitoringSession { start_time: moment.now, cancel: handle };
        emit(actions, Action::ScheduleCheck { delay: moment.liveness, handle });
        self.connect(port, actions);
        assert forall|session: SessionView| session.port == port implies actions.deep_view()
            == before + seq![ActionView::ScheduleCheck { delay: moment.liveness, handle }]
            + #[trigger] core.connect(session) by {
            assert(self@.connect(session) == core.connect(session));
            assert(actions.deep_view() =~= before + seq![
                ActionView::ScheduleCheck { delay: moment.liveness, handle },
            ] + core.connect(session));
        }
    }

    fn ended(&mut self, moment: Moment, actions: &mut Vec<Action>)
        ensures
            final(self)@ == old(self)@.ended(moment).core,
            final(actions).deep_view() == old(actions).deep_view() + old(self)@.ended(
                moment,
            ).actions,
    {
        let ghost before = actions.deep_view();
        let ghost core = self@;
        self.cancel_all(actions);
        self.drop_session();
        self.try_open(moment, actions);
        assert(actions.deep_view() =~= before + core.ended(moment).actions);
    }

    fn listed(&mut self, sessions: Vec<Session>, moment: Moment, actions: &mut Vec<Action>)
        ensures
            final(self)@ == old(self)@.listed(sessions.deep_view(), moment).core,
            final(actions).deep_view() == old(actions).deep_view() + old(self)@.listed(
                sessions.deep_view(),
                moment,
            ).actions,
    {
        let ghost before = actions.deep_view();
        let ghost core = self@;
        self.fetch_data.set(Slot::ListSessions, RemoteData::Success);
        let found = match (&self.status, &self.session) {
            (Status::MonitoringSession { .. }, Some(session)) => Some(
                session.verify_open(sessions.as_slice()),
            ),
            _ => None,
        };
        match found {
            Some(true) => {
                if let Status::MonitoringSession { start_time, cancel } = self.status {
                    let handle = self.fresh();
                    self.status = Status::MonitoringSession { start_time, cancel: handle };
                    emit(actions, Action::Cancel { handle: cancel });
                    emit(actions, Action::ScheduleCheck { delay: moment.liveness, handle });
                    assert(actions.deep_view() =~= before + core.listed(
                        sessions.deep_view(),
                        moment,
                    ).actions);
                }
            },
            Some(false) => {
                self.ended(moment, actions);
            },
            None => {
                assert(actions.deep_view() =~= before + Seq::<ActionView>::empty());
            },
        }
    }

    fn closed(&mut self, moment: Moment, actions: &mut Vec<Action>)
        ensures
            final(self)@ == old(self)@.closed(moment).core,
            final(actions).deep_view() == old(actions).deep_view() + old(self)@.closed(
                moment,
            ).actions,
    {
        self.fetch_data.set(Slot::CloseSession, RemoteData::Success);
        if self.is_closing() {
            self.ended(moment, actions);
        } else {
            assert(actions.deep_view() =~= actions.deep_view() + Seq::<ActionView>::empty());
        }
    }

    fn on_response(
        &mut self,
        slot: Slot,
        json: crate::json::Json,
        moment: Moment,
        actions: &mut Vec<Action>,
    )
        requires
            old(self)@.fetch.get(slot) is Fetching,
        ensures
            final(self)@ == old(self)@.on_response(slot, json@, moment).core,
            final(actions).deep_view() == old(actions).deep_view() + old(self)@.on_response(
                slot,
                json@,
                moment,
            ).actions,
    {
        match slot {
            Slot::Addresses => match crate::entry_node::Addresses::from_json(&json) {
                Some(addresses) => {
                    self.fetch_data.set(slot, RemoteData::Success);
                    let mut entry: Option<EntryNode> = None;
                    core::mem::swap(&mut self.entry_node, &mut entry);
                    match entry {
                        Some(mut entry) => {
                            entry.addresses = Some(addresses);
                            self.entry_node = Some(entry);
                        },
                        None => {},
                    }
                    assert(actions.deep_view() =~= actions.deep_view() + Seq::<
                        ActionView,
                    >::empty());
                },
                None => {
                    self.on_error(slot, undecoded_response(), moment, actions);
                },
            },
            Slot::OpenSession => match Session::from_json(&json) {
                Some(session) => {
                    self.opened(session, moment, actions);
                },
                None => {
                    self.on_error(slot, undecoded_response(), moment, actions);
                },
            },
            Slot::ListSessions => match Session::list_from_json(&json) {
                Some(sessions) => {
                    self.listed(sessions, moment, actions);
                },
                None => {
                    self.on_error(slot, undecoded_response(), moment, actions);
                },
            },
            Slot::CloseSession => {
                self.closed(moment, actions);
            },
        }
    }

    fn on_remote(
        &mut self,
        slot: Slot,
        event: crate::remote_data::Event,
        moment: Moment,
        actions: &mut Vec<Action>,
    )
        ensures
            final(self)@ == old(self)@.on_remote(slot, event@, moment).core,
            final(actions).deep_view() == old(actions).deep_view() + old(self)@.on_remote(
                slot,
                event@,
                moment,
            ).actions,
    {
        let fetching = self.fetch_data.get(slot).is_fetching();
        let retrying = self.fetch_data.get(slot).is_retrying();
        match event {
            crate::remote_data::Event::Response(json) => {
                if fetching {
                    self.on_response(slot, json, moment, actions);
                } else {
                    assert(actions.deep_view() =~= actions.deep_view() + Seq::<
                        ActionView,
                    >::empty());
                }
            },
            crate::remote_data::Event::Error(error) => {
                if fetching {
                    self.on_error(slot, error, moment, actions);
                } else {
                    assert(actions.deep_view() =~= actions.deep_view() + Seq::<
                        ActionView,
                    >::empty());
                }
            },
            crate::remote_data::Event::Retry => {
                if retrying {
                    self.on_retry(slot, moment, actions);
                } else {
                    assert(actions.deep_view() =~= actions.deep_view() + Seq::<
                        ActionView,
                    >::empty());
                }
            },
        }
    }

    fn on_check(&mut self, moment: Moment, actions: &mut Vec<Action>)
        ensures
            final(self)@ == old(self)@.on_check(moment).core,
            final(actions).deep_view() == old(actions).deep_view() + old(self)@.on_check(
                moment,
            ).actions,
    {
        let busy = self.fetch_data.list_sessions.is_fetching()
            || self.fetch_data.list_sessions.is_retrying();
        if busy || !self.is_monitoring() {
            assert(actions.deep_view() =~= actions.deep_view() + Seq::<ActionView>::empty());
        } else {
            match self.request(Slot::ListSessions) {
                Ok(request) => {
                    let ghost before = actions.deep_view();
                    self.fetch_data.set(
                        Slot::ListSessions,
                        RemoteData::Fetching {
                            started_at: moment.now,
                            backoffs: series_for(Slot::ListSessions),
                        },
                    );
                    emit(actions, Action::Fetch { slot: Slot::ListSessions, request });
                    assert(actions.deep_view() =~= before + seq![
                        ActionView::Fetch { slot: Slot::ListSessions, request: request@ },
                    ]);
                },
                Err(error) => {
                    self.fail_slot(Slot::ListSessions, failure_for(error), moment, actions);
                },
            }
        }
    }
}

fn told_member(name: &str, value: String) -> (r: (String, String))
    ensures
        r.deep_view() == (name@, value@),
{
    (String::from_str(name), value)
}

impl Core {
    /// Tells the state as it is at the time `now`.
    pub fn to_string_at(&self, now: u64) -> (r: String)
        ensures
            r@ == self@.told(now),
    {
        let mut members: Vec<(String, String)> = Vec::new();
        members.push(told_member("status", crate::report::print_status(&self.status, now)));
        if let Some(entry) = &self.entry_node {
            members.push(told_member("entry_node", crate::report::print_entry_node(entry)));
        }
        if let Some(exit) = &self.exit_node {
            members.push(told_member("exit_node", crate::report::print_exit_node(exit)));
        }
        if let Some(session) = &self.session {
            members.push(told_member("session", session.to_string()));
        }
        members.push(
            told_member("addresses", crate::report::print_slot(&self.fetch_data.addresses, now)),
        );
        members.push(
            told_member(
                "open_session",
                crate::report::print_slot(&self.fetch_data.open_session, now),
            ),
        );
        members.push(
            told_member(
                "list_sessions",
                crate::report::print_slot(&self.fetch_data.list_sessions, now),
            ),
        );
        members.push(
            told_member(
                "close_session",
                crate::report::print_slot(&self.fetch_data.close_session, now),
            ),
        );
        if self.config.is_default() {
            members.push(told_member("config", String::from_str("<default>")));
        }
        if self.issues.len() > 0 {
            members.push(told_member("issues", crate::report::print_issues(&self.issues)));
        }
        assert(members.deep_view() =~= self@.members(now));
        crate::log_output::serialize(&members)
    }

    /// Tells the state as it is now.
    pub fn to_string(&self) -> (r: String)
        ensures
            exists|now: u64| r@ == self@.told(now),
    {
        self.to_string_at(crate::clock::now())
    }

    fn setup(&mut self, moment: Moment, actions: &mut Vec<Action>)
        ensures
            final(self)@ == old(self)@.setup(moment).core,
            final(actions).deep_view() == old(actions).deep_view() + old(self)@.setup(
                moment,
            ).actions,
    {
        let ghost before = actions.deep_view();
        let ghost core = self@;
        if self.wg.is_some() && self.private_key().is_none() {
            emit(actions, Action::GenerateKey);
            assert(actions.deep_view() =~= before + core.ensure_key());
        } else {
            assert(actions.deep_view() =~= before + core.ensure_key());
        }
        let nodes = match (&self.config.entry_node, &self.config.connection) {
            (Some(entry), Some(connection)) => {
                let path = match &connection.path {
                    Some(path) => path.duplicate(),
                    None => crate::config::SessionPathConfig::Hop(1),
                };
                let listen_host = match &connection.listen_host {
                    Some(host) => Some(host.as_str()),
                    None => None,
                };
                Some(
                    (
                        EntryNode::new(
                            entry.endpoint.as_str(),
                            entry.api_token.as_str(),
                            listen_host,
                            path,
                        ),
                        ExitNode { peer_id: connection.destination.duplicate() },
                    ),
                )
            },
            _ => None,
        };
        match nodes {
            Some((entry, exit)) => {
                self.renamed(Some(entry), Some(exit), moment, actions);
            },
            None => {
                assert(actions.deep_view() =~= actions.deep_view() + Seq::<ActionView>::empty());
            },
        }
        assert(actions.deep_view() =~= before + core.setup(moment).actions);
    }

    /// The state that the daemon starts with, from what was read of the
    /// configuration, what the probes for WireGuard found and what was read
    /// of the kept state; and what is to be done for it.
    pub fn init_at(
        config: Result<Config, crate::config::Error>,
        wg: (Option<Flavor>, Vec<crate::wireguard::Error>),
        state: Result<State, crate::state::Error>,
        moment: Moment,
    ) -> (r: (Core, Vec<Action>))
        ensures
            r.0.inv(),
            r.0@ == started(
                config_read(config),
                wg.0,
                wg.1.deep_view(),
                state_read(state),
                moment,
            ).core,
            r.1.deep_view() == started(
                config_read(config),
                wg.0,
                wg.1.deep_view(),
                state_read(state),
                moment,
            ).actions,
    {
        let ghost config_was = config_read(config);
        let ghost state_was = state_read(state);
        let ghost flavor_was = wg.0;
        let ghost errors_were = wg.1.deep_view();
        let ghost want = blank(config_was, flavor_was, errors_were, state_was);
        let mut issues: Vec<Issue> = Vec::new();
        let config = match config {
            Ok(config) => config,
            Err(crate::config::Error::NoFile) => Config::default(),
            Err(error) => {
                issues.push(Issue::Config(error));
                Config::default()
            },
        };
        let ghost config_part = match config_was {
            Ok(_) => seq![],
            Err(crate::config::ErrorView::NoFile) => seq![],
            Err(error) => seq![IssueView::Config(error)],
        };
        assert(issues.deep_view() =~= config_part);
        let (flavor, mut wg_errors) = wg;
        let ghost first = issues.deep_view();
        let ghost probes = wg_errors.deep_view();
        assert(issues.deep_view() + probe_issues(wg_errors.deep_view()) =~= first + probe_issues(
            probes,
        ));
        assert(probe_issues(probes).len() == probes.len());
        while wg_errors.len() > 0
            invariant
                issues.deep_view() + probe_issues(wg_errors.deep_view()) == first + probe_issues(
                    probes,
                ),
            decreases wg_errors.len(),
        {
            let ghost had = issues.deep_view();
            let ghost rest = wg_errors.deep_view();
            let error = wg_errors.remove(0);
            assert(error@ == rest[0]);
            assert(wg_errors.deep_view() =~= rest.drop_first());
            issues.push(Issue::WireGuardInit(error));
            assert(issues.deep_view() =~= had.push(IssueView::WireGuardInit(rest[0])));
            assert(issues.deep_view() + probe_issues(wg_errors.deep_view()) =~= had
                + probe_issues(rest));
        }
        assert(issues.deep_view() =~= first + probe_issues(probes));
        let ghost second = issues.deep_view();
        let state = match state {
            Ok(state) => state,
            Err(crate::state::Error::NoFile) => State::default(),
            Err(error) => {
                issues.push(Issue::State(error));
                State::default()
            },
        };
        let ghost state_part = match state_was {
            Ok(_) => seq![],
            Err(crate::state::ErrorView::NoFile) => seq![],
            Err(error) => seq![IssueView::State(error)],
        };
        assert(issues.deep_view() =~= second + state_part);
        assert(issues.deep_view() =~= want.issues);
        let mut core = Core {
            config,
            issues,
            state,
            wg: flavor,
            status: Status::Idle,
            entry_node: None,
            exit_node: None,
            fetch_data: FetchData {
                addresses: RemoteData::NotAsked,
                open_session: RemoteData::NotAsked,
                list_sessions: RemoteData::NotAsked,
                close_session: RemoteData::NotAsked,
            },
            session: None,
            next_handle: 0,
        };
        assert(core@ == want);
        let mut actions: Vec<Action> = Vec::new();
        assert(actions.deep_view() =~= Seq::<ActionView>::empty());
        core.setup(moment, &mut actions);
        assert(actions.deep_view() =~= want.setup(moment).actions);
        proof {
            lemma_blank_has_inv(config_was, flavor_was, errors_were, state_was);
            lemma_setup_keeps_inv(want, moment);
        }
        (core, actions)
    }

    /// The state that the daemon starts with, at the time that it is.
    pub fn init(
        config: Result<Config, crate::config::Error>,
        wg: (Option<Flavor>, Vec<crate::wireguard::Error>),
        state: Result<State, crate::state::Error>,
    ) -> (r: (Core, Vec<Action>))
        ensures
            r.0.inv(),
            exists|moment: Moment|
                crate::clock::liveness_wait(moment.liveness) && r.0@ == (#[trigger] started(
                    config_read(config),
                    wg.0,
                    wg.1.deep_view(),
                    state_read(state),
                    moment,
                )).core && r.1.deep_view() == started(
                    config_read(config),
                    wg.0,
                    wg.1.deep_view(),
                    state_read(state),
                    moment,
                ).actions,
    {
        let moment = Moment::read();
        Core::init_at(config, wg, state, moment)
    }

    /// Takes a command at the moment given. A command that asks for the
    /// status is answered with how the state is told, and changes nothing.
    /// Every other command names a node and is not answered.
    pub fn handle_cmd_at(&mut self, cmd: &crate::command::Command, moment: Moment) -> (r: (
        Option<String>,
        Vec<Action>,
    ))
        requires
            old(self).inv(),
        ensures
            final(self).inv(),
            final(self)@ == old(self)@.on_command(cmd@, moment).core,
            r.1.deep_view() == old(self)@.on_command(cmd@, moment).actions,
            cmd@ is Status ==> final(self)@ == old(self)@ && r.1@.len() == 0,
            r.0.deep_view() == (if cmd@ is Status {
                Some(old(self)@.told(moment.now))
            } else {
                None
            }),
    {
        let mut actions: Vec<Action> = Vec::new();
        assert(actions.deep_view() =~= Seq::<ActionView>::empty());
        proof {
            lemma_command_keeps_inv(self@, cmd@, moment);
        }
        let ghost core = self@;
        match cmd {
            crate::command::Command::Status => {
                let told = self.to_string_at(moment.now);
                (Some(told), actions)
            },
            crate::command::Command::EntryNode {
                endpoint,
                api_token,
                listen_host,
                hop,
                intermediate_id,
            } => {
                let host = match listen_host {
                    Some(host) => Some(host.as_str()),
                    None => None,
                };
                let entry = EntryNode::new(
                    endpoint.as_str(),
                    api_token.as_str(),
                    host,
                    crate::command::choose_path(hop, intermediate_id),
                );
                self.renamed(Some(entry), None, moment, &mut actions);
                assert(actions.deep_view() =~= core.on_command(cmd@, moment).actions);
                (None, actions)
            },
            crate::command::Command::ExitNode { peer_id } => {
                let exit = ExitNode { peer_id: peer_id.duplicate() };
                self.renamed(None, Some(exit), moment, &mut actions);
                assert(actions.deep_view() =~= core.on_command(cmd@, moment).actions);
                (None, actions)
            },
        }
    }

    /// Takes a command now.
    pub fn handle_cmd(&mut self, cmd: &crate::command::Command) -> (r: (Option<String>, Vec<Action>))
        requires
            old(self).inv(),
        ensures
            final(self).inv(),
            cmd@ is Status ==> final(self)@ == old(self)@ && r.1@.len() == 0,
            r.0 is Some <==> cmd@ is Status,
            exists|moment: Moment|
                crate::clock::liveness_wait(moment.liveness) && final(self)@ == (
                #[trigger] old(self)@.on_command(cmd@, moment)).core && r.1.deep_view() == old(
                    self,
                )@.on_command(cmd@, moment).actions,
    {
        let moment = Moment::read();
        self.handle_cmd_at(cmd, moment)
    }

    /// Takes the report of a worker or a timer at the moment given.
    pub fn handle_event_at(&mut self, event: crate::event::Event, moment: Moment) -> (actions: Vec<
        Action,
    >)
        requires
            old(self).inv(),
        ensures
            final(self).inv(),
            final(self)@ == old(self)@.on_event(event@, moment).core,
            actions.deep_view() == old(self)@.on_event(event@, moment).actions,
    {
        let mut actions: Vec<Action> = Vec::new();
        assert(actions.deep_view() =~= Seq::<ActionView>::empty());
        proof {
            lemma_event_keeps_inv(self@, event@, moment);
        }
        let ghost core = self@;
        match event {
            crate::event::Event::FetchAddresses(report) => {
                self.on_remote(Slot::Addresses, report, moment, &mut actions);
            },
            crate::event::Event::FetchOpenSession(report) => {
                self.on_remote(Slot::OpenSession, report, moment, &mut actions);
            },
            crate::event::Event::FetchListSessions(report) => {
                self.on_remote(Slot::ListSessions, report, moment, &mut actions);
            },
            crate::event::Event::FetchCloseSession(report) => {
                self.on_remote(Slot::CloseSession, report, moment, &mut actions);
            },
            crate::event::Event::CheckSession => {
                self.on_check(moment, &mut actions);
            },
        }
        assert(actions.deep_view() =~= core.on_event(event@, moment).actions);
        actions
    }

    /// Takes the report of a worker or a timer now.
    pub fn handle_event(&mut self, event: crate::event::Event) -> (actions: Vec<Action>)
        requires
            old(self).inv(),
        ensures
            final(self).inv(),
            exists|moment: Moment|
                crate::clock::liveness_wait(moment.liveness) && final(self)@ == (
                #[trigger] old(self)@.on_event(event@, moment)).core && actions.deep_view() == old(
                    self,
                )@.on_event(event@, moment).actions,
    {
        let moment = Moment::read();
        self.handle_event_at(event, moment)
    }

    /// Takes what was read of the configuration after it changed, at the
    /// moment given.
    pub fn update_config_at(
        &mut self,
        read: Result<Config, crate::config::Error>,
        moment: Moment,
    ) -> (actions: Vec<Action>)
        requires
            old(self).inv(),
        ensures
            final(self).inv(),
            final(self)@ == old(self)@.on_config(config_read(read), moment).core,
            actions.deep_view() == old(self)@.on_config(config_read(read), moment).actions,
    {
        let mut actions: Vec<Action> = Vec::new();
        assert(actions.deep_view() =~= Seq::<ActionView>::empty());
        proof {
            lemma_config_keeps_inv(self@, config_read(read), moment);
        }
        let ghost core = self@;
        match read {
            Ok(config) => {
                self.config = config;
            },
            Err(crate::config::Error::NoFile) => {
                self.config = Config::default();
            },
            Err(error) => {
                self.config = Config::default();
                replace_issue(&mut self.issues, Issue::Config(error));
            },
        }
        self.setup(moment, &mut actions);
        assert(actions.deep_view() =~= core.on_config(config_read(read), moment).actions);
        actions
    }

    /// Takes what was read of the configuration after it changed, now.
    pub fn update_config(&mut self, read: Result<Config, crate::config::Error>) -> (actions: Vec<
        Action,
    >)
        requires
            old(self).inv(),
        ensures
            final(self).inv(),
            exists|moment: Moment|
                crate::clock::liveness_wait(moment.liveness) && final(self)@ == (
                #[trigger] old(self)@.on_config(config_read(read), moment)).core
                    && actions.deep_view() == old(self)@.on_config(
                    config_read(read),
                    moment,
                ).actions,
    {
        let moment = Moment::read();
        self.update_config_at(read, moment)
    }

    /// Takes the private key that was made for the interface, or why none
    /// was made.
    pub fn key_generated(&mut self, made: Result<String, crate::wireguard::Error>) -> (actions: Vec<
        Action,
    >)
        requires
            old(self).inv(),
        ensures
            final(self).inv(),
            final(self)@ == old(self)@.on_key(key_made(made)).core,
            actions.deep_view() == old(self)@.on_key(key_made(made)).actions,
    {
        let mut actions: Vec<Action> = Vec::new();
        assert(actions.deep_view() =~= Seq::<ActionView>::empty());
        match made {
            Ok(key) => {
                if self.private_key().is_none() {
                    self.state.set_wg_private_key(key);
                    emit(&mut actions, Action::PersistState { state: self.state.duplicate() });
                    assert(actions.deep_view() =~= seq![
                        ActionView::PersistState { state: Some(key@) },
                    ]);
                }
            },
            Err(error) => {
                replace_issue(&mut self.issues, Issue::WireGuard(error));
            },
        }
        actions
    }

    /// Takes the failure to write the kept state out: it is an issue.
    pub fn state_persisted(&mut self, written: Result<(), crate::state::Error>)
        requires
            old(self).inv(),
        ensures
            final(self).inv(),
            final(self)@ == (match written {
                Ok(_) => old(self)@,
                Err(error) => old(self)@.troubled(IssueView::State(error@)),
            }),
    {
        match written {
            Ok(_) => {},
            Err(error) => {
                replace_issue(&mut self.issues, Issue::State(error));
            },
        }
    }

    /// Takes the failure to program the interface: it is an issue, and the
    /// session goes on.
    pub fn wireguard_connected(&mut self, connected: Result<(), crate::wireguard::Error>)
        requires
            old(self).inv(),
        ensures
            final(self).inv(),
            final(self)@ == (match connected {
                Ok(_) => old(self)@,
                Err(error) => old(self)@.troubled(IssueView::WireGuard(error@)),
            }),
    {
        match connected {
            Ok(_) => {},
            Err(error) => {
                replace_issue(&mut self.issues, Issue::WireGuard(error));
            },
        }
    }

    /// Ends the daemon's work: every timer that is held is called off, so
    /// that nothing reports any more.
    pub fn shutdown(self) -> (actions: Vec<Action>)
        ensures
            actions.deep_view() == self@.cancel_all().actions,
    {
        let mut core = self;
        let mut actions: Vec<Action> = Vec::new();
        assert(actions.deep_view() =~= Seq::<ActionView>::empty());
        core.cancel_all(&mut actions);
        assert(actions.deep_view() =~= self@.cancel_all().actions);
        actions
    }

    /// Whether the state has what holds of it at all times.
    pub fn sound(&self) -> (r: bool)
        ensures
            r == self.inv(),
    {
        let opening = self.fetch_data.open_session.is_fetching()
            || self.fetch_data.open_session.is_retrying();
        let closing = self.fetch_data.close_session.is_fetching()
            || self.fetch_data.close_session.is_retrying();
        self.session.is_some() == (self.is_monitoring() || self.is_closing()) && (
        !self.is_opening() || (self.entry_node.is_some() && self.exit_node.is_some()))
            && self.is_opening() == opening && self.is_closing() == closing
    }

    /// Whether `handle` names a timer that the state holds.
    pub fn holds(&self, handle: u64) -> (r: bool)
        ensures
            r == self@.holds(handle),
    {
        let liveness = match self.status {
            Status::MonitoringSession { cancel, .. } => Some(cancel),
            _ => None,
        };
        self.fetch_data.addresses.cancel_handle() == Some(handle)
            || self.fetch_data.open_session.cancel_handle() == Some(handle)
            || self.fetch_data.list_sessions.cancel_handle() == Some(handle)
            || self.fetch_data.close_session.cancel_handle() == Some(handle) || liveness == Some(
            handle,
        )
    }

    /// Where the daemon stands with its session.
    pub fn status(&self) -> (r: Status)
        ensures
            r == self@.status,
    {
        self.status
    }

    /// The session, while there is one.
    pub fn session(&self) -> (r: Option<&Session>)
        ensures
            r.deep_view() == self@.session,
    {
        self.session.as_ref()
    }

    /// The entry node, once it is named.
    pub fn entry_node(&self) -> (r: Option<&EntryNode>)
        ensures
            r.deep_view() == self@.entry_node,
    {
        self.entry_node.as_ref()
    }

    /// The exit node, once it is named.
    pub fn exit_node(&self) -> (r: Option<&ExitNode>)
        ensures
            r.deep_view() == self@.exit_node,
    {
        self.exit_node.as_ref()
    }

    /// The slots of the four calls.
    pub fn fetch_data(&self) -> (r: &FetchData)
        ensures
            r@ == self@.fetch,
    {
        &self.fetch_data
    }

    /// The issues that stand.
    pub fn issues(&self) -> (r: &Vec<Issue>)
        ensures
            r.deep_view() == self@.issues,
    {
        &self.issues
    }

    /// The configuration that is in force.
    pub fn config(&self) -> (r: &Config)
        ensures
            r@ == self@.config,
    {
        &self.config
    }

    /// The state that is kept from one run to the next.
    pub fn state(&self) -> (r: &State)
        ensures
            r@ == self@.state,
    {
        &self.state
    }
}

} // verus!
