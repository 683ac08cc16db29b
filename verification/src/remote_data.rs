//! The bookkeeping of one remote call: whether it was asked, is under way,
//! waits for a retry, failed or succeeded; and the requests and answers that
//! pass between the daemon and the entry node.

use crate::json::Json;
use crate::json::JsonView;
use vstd::prelude::*;
use vstd::string::*;

verus! {

/// The four remote calls, each with a slot of its own.
#[derive(Clone, Copy, Debug, PartialEq, Eq, Structural)]
pub enum Slot {
    Addresses,
    OpenSession,
    ListSessions,
    CloseSession,
}

/// What went wrong with a remote call: the transport's error, the status
/// that was answered, and the document that came with it, each where there
/// was one.
#[derive(Clone, Debug, PartialEq)]
pub struct CustomError {
    pub reqw_err: Option<String>,
    pub status: Option<u16>,
    pub value: Option<String>,
}

/// What a `CustomError` stands for.
pub struct CustomErrorView {
    pub reqw_err: Option<Seq<char>>,
    pub status: Option<u16>,
    pub value: Option<Seq<char>>,
}

impl DeepView for CustomError {
    type V = CustomErrorView;

    open spec fn deep_view(&self) -> CustomErrorView {
        CustomErrorView {
            reqw_err: self.reqw_err.deep_view(),
            status: self.status,
            value: self.value.deep_view(),
        }
    }
}

impl View for CustomError {
    type V = CustomErrorView;

    open spec fn view(&self) -> CustomErrorView {
        self.deep_view()
    }
}

/// What a worker or a timer reports of a remote call.
#[derive(Clone, Debug, PartialEq)]
pub enum Event {
    Response(Json),
    Retry,
    Error(CustomError),
}

/// What an `Event` stands for.
pub enum EventView {
    Response(JsonView),
    Retry,
    Error(CustomErrorView),
}

impl DeepView for Event {
    type V = EventView;

    open spec fn deep_view(&self) -> EventView {
        match self {
            Event::Response(json) => EventView::Response(json@),
            Event::Retry => EventView::Retry,
            Event::Error(error) => EventView::Error(error@),
        }
    }
}

impl View for Event {
    type V = EventView;

    open spec fn view(&self) -> EventView {
        self.deep_view()
    }
}

/// The state of one remote call. The delays are in milliseconds and are
/// taken from the tail; the time is in nanoseconds since the epoch.
#[derive(Clone, Debug, PartialEq)]
pub enum RemoteData {
    NotAsked,
    /// A worker is under way. `backoffs` are the retries that are left.
    Fetching { started_at: u64, backoffs: Vec<u64> },
    /// The call failed and a timer, which `cancel` names, waits to try again.
    RetryFetching { error: CustomError, backoffs: Vec<u64>, cancel: u64 },
    Failure { error: CustomError },
    Success,
}

/// What a `RemoteData` stands for.
pub enum RemoteDataView {
    NotAsked,
    Fetching { started_at: u64, backoffs: Seq<u64> },
    RetryFetching { error: CustomErrorView, backoffs: Seq<u64>, cancel: u64 },
    Failure { error: CustomErrorView },
    Success,
}

impl DeepView for RemoteData {
    type V = RemoteDataView;

    open spec fn deep_view(&self) -> RemoteDataView {
        match self {
            RemoteData::NotAsked => RemoteDataView::NotAsked,
            RemoteData::Fetching { started_at, backoffs } => RemoteDataView::Fetching {
                started_at: *started_at,
                backoffs: backoffs@,
            },
            RemoteData::RetryFetching { error, backoffs, cancel } => RemoteDataView::RetryFetching {
                error: error@,
                backoffs: backoffs@,
                cancel: *cancel,
            },
            RemoteData::Failure { error } => RemoteDataView::Failure { error: error@ },
            RemoteData::Success => RemoteDataView::Success,
        }
    }
}

impl View for RemoteData {
    type V = RemoteDataView;

    open spec fn view(&self) -> RemoteDataView {
        self.deep_view()
    }
}

impl RemoteDataView {
    /// A worker or a timer is under way for the call.
    pub open spec fn active(self) -> bool {
        self is Fetching || self is RetryFetching
    }

    /// The number of workers that are under way for the call.
    pub open spec fn workers(self) -> nat {
        if self is Fetching {
            1
        } else {
            0
        }
    }

    /// The number of retry timers that wait for the call.
    pub open spec fn timers(self) -> nat {
        if self is RetryFetching {
            1
        } else {
            0
        }
    }

    /// The handle of the retry timer that waits, if one does.
    pub open spec fn handle(self) -> Option<u64> {
        match self {
            RemoteDataView::RetryFetching { cancel, .. } => Some(cancel),
            _ => None,
        }
    }

    /// The slot after its worker reported `error`: a retry waits where a
    /// delay is left, under the handle given; the call has failed where none
    /// is. A slot without a worker stays as it is.
    pub open spec fn after_error(self, error: CustomErrorView, handle: u64) -> RemoteDataView {
        match self {
            RemoteDataView::Fetching { backoffs, .. } => if backoffs.len() > 0 {
                RemoteDataView::RetryFetching { error, backoffs: backoffs.drop_last(), cancel: handle }
            } else {
                RemoteDataView::Failure { error }
            },
            _ => self,
        }
    }

    /// The delay of the retry that `after_error` sets up, if it sets one up.
    pub open spec fn next_delay(self) -> Option<u64> {
        match self {
            RemoteDataView::Fetching { backoffs, .. } => if backoffs.len() > 0 {
                Some(backoffs.last())
            } else {
                None
            },
            _ => None,
        }
    }

    /// The slot after its retry was called off: nothing is asked any more.
    /// A slot without a waiting retry stays as it is.
    pub open spec fn after_cancel(self) -> RemoteDataView {
        if self is RetryFetching {
            RemoteDataView::NotAsked
        } else {
            self
        }
    }
}

impl RemoteData {
    /// Whether a worker is under way.
    pub fn is_fetching(&self) -> (r: bool)
        ensures
            r == (self@ is Fetching),
    {
        match self {
            RemoteData::Fetching { .. } => true,
            _ => false,
        }
    }

    /// Whether a retry waits.
    pub fn is_retrying(&self) -> (r: bool)
        ensures
            r == (self@ is RetryFetching),
    {
        match self {
            RemoteData::RetryFetching { .. } => true,
            _ => false,
        }
    }

    /// The handle of the retry timer that waits, if one does.
    pub fn cancel_handle(&self) -> (r: Option<u64>)
        ensures
            r == self@.handle(),
    {
        match self {
            RemoteData::RetryFetching { cancel, .. } => Some(*cancel),
            _ => None,
        }
    }

    /// Takes the report of a failure: where a delay is left, the slot waits
    /// for a retry under `handle` and the delay is handed out; where none is
    /// left, the call has failed.
    pub fn fail(&mut self, error: CustomError, handle: u64) -> (delay: Option<u64>)
        ensures
            final(self)@ == old(self)@.after_error(error@, handle),
            delay == old(self)@.next_delay(),
    {
        let mut taken = RemoteData::NotAsked;
        core::mem::swap(self, &mut taken);
        match taken {
            RemoteData::Fetching { started_at, mut backoffs } => {
                match backoffs.pop() {
                    Some(delay) => {
                        *self = RemoteData::RetryFetching { error, backoffs, cancel: handle };
                        Some(delay)
                    },
                    None => {
                        *self = RemoteData::Failure { error };
                        None
                    },
                }
            },
            other => {
                *self = other;
                None
            },
        }
    }

    /// Calls the waiting retry off and hands out its handle, which is to be
    /// signalled. A slot without a waiting retry stays as it is.
    pub fn cancel(&mut self) -> (handle: Option<u64>)
        ensures
            final(self)@ == old(self)@.after_cancel(),
            handle == old(self)@.handle(),
    {
        let handle = self.cancel_handle();
        if handle.is_some() {
            *self = RemoteData::NotAsked;
        }
        handle
    }

    /// The retries that are left where a retry waits; none otherwise.
    pub fn take_backoffs(&mut self) -> (backoffs: Vec<u64>)
        ensures
            old(self)@ matches RemoteDataView::RetryFetching { backoffs: left, .. } ==> (backoffs@
                == left && final(self)@ == RemoteDataView::NotAsked),
            !(old(self)@ is RetryFetching) ==> (backoffs@ == Seq::<u64>::empty() && final(self)@
                == old(self)@),
    {
        let mut taken = RemoteData::NotAsked;
        core::mem::swap(self, &mut taken);
        match taken {
            RemoteData::RetryFetching { error, backoffs, cancel } => backoffs,
            other => {
                *self = other;
                Vec::new()
            },
        }
    }
}

/// How a request is made.
#[derive(Clone, Copy, Debug, PartialEq, Eq, Structural)]
pub enum Method {
    Get,
    Post,
    Delete,
}

/// One header of a request. A sensitive header is kept out of what is
/// printed.
#[derive(Clone, Debug, PartialEq)]
pub struct Header {
    pub name: String,
    pub value: String,
    pub sensitive: bool,
}

/// What a `Header` stands for.
pub struct HeaderView {
    pub name: Seq<char>,
    pub value: Seq<char>,
    pub sensitive: bool,
}

impl DeepView for Header {
    type V = HeaderView;

    open spec fn deep_view(&self) -> HeaderView {
        HeaderView { name: self.name@, value: self.value@, sensitive: self.sensitive }
    }
}

impl View for Header {
    type V = HeaderView;

    open spec fn view(&self) -> HeaderView {
        self.deep_view()
    }
}

/// A request to the entry node, for a worker to make.
#[derive(Clone, Debug, PartialEq)]
pub struct Request {
    pub method: Method,
    pub url: String,
    pub headers: Vec<Header>,
    pub body: Option<Json>,
    /// The deadline of the whole call, in seconds.
    pub timeout: u64,
}

/// What a `Request` stands for.
pub struct RequestView {
    pub method: Method,
    pub url: Seq<char>,
    pub headers: Seq<HeaderView>,
    pub body: Option<JsonView>,
    pub timeout: u64,
}

impl DeepView for Request {
    type V = RequestView;

    open spec fn deep_view(&self) -> RequestView {
        RequestView {
            method: self.method,
            url: self.url@,
            headers: self.headers.deep_view(),
            body: match self.body {
                Some(json) => Some(json@),
                None => None,
            },
            timeout: self.timeout,
        }
    }
}

impl View for Request {
    type V = RequestView;

    open spec fn view(&self) -> RequestView {
        self.deep_view()
    }
}

impl Request {
    /// The text of the document that the request carries, where it carries
    /// one.
    pub fn body_text(&self) -> (r: Option<String>)
        ensures
            r.deep_view() == (match self@.body {
                Some(body) => Some(crate::json::rendered(body)),
                None => None,
            }),
    {
        match &self.body {
            Some(body) => Some(body.render()),
            None => None,
        }
    }
}

/// The deadline of every request, in seconds.
pub const REQUEST_TIMEOUT: u64 = 30;

/// Why a request could not be made up.
#[derive(Clone, Copy, Debug, PartialEq, Eq, Structural)]
pub enum RequestError {
    /// The token cannot stand in a header.
    InvalidHeaderValue,
    /// The address of the call cannot be found from the endpoint.
    Url,
    /// A record that the call needs is not there.
    UnexpectedInternalState,
}

/// Whether a character may stand in the value of a header: the tab, and
/// every character from the space on but the delete character.
pub open spec fn header_char(c: char) -> bool {
    c == '\t' || (c >= ' ' && c != '\x7f')
}

/// Whether a text may stand as the value of a header.
pub open spec fn header_value(text: Seq<char>) -> bool {
    forall|i: int| 0 <= i < text.len() ==> header_char(#[trigger] text[i])
}

/// Asks `reqwest::header::HeaderValue::from_str` whether it takes `value`.
/// It takes a text whose every byte is the tab, or is at least 32 and not
/// 127; the bytes of a character beyond ASCII are all above 127.
#[verifier::external_body]
fn header_value_accepted(value: &str) -> (r: bool)
    ensures
        r == header_value(value@),
{
    reqwest::header::HeaderValue::from_str(value).is_ok()
}

/// The headers that every request carries.
pub open spec fn authentication(api_token: Seq<char>) -> Seq<HeaderView> {
    seq![
        HeaderView { name: "content-type"@, value: "application/json"@, sensitive: false },
        HeaderView { name: "x-auth-token"@, value: api_token, sensitive: true },
    ]
}

/// The headers of a request: the content type, and the token of the entry
/// node as a sensitive header. A token that cannot stand in a header is
/// refused.
pub fn authentication_headers(api_token: &str) -> (r: Result<Vec<Header>, RequestError>)
    ensures
        header_value(api_token@) ==> (r matches Ok(headers) && headers.deep_view()
            == authentication(api_token@)),
        !header_value(api_token@) ==> r == Err::<Vec<Header>, RequestError>(
            RequestError::InvalidHeaderValue,
        ),
{
    if !header_value_accepted(api_token) {
        return Err(RequestError::InvalidHeaderValue);
    }
    let mut headers: Vec<Header> = Vec::new();
    headers.push(
        Header {
            name: String::from_str("content-type"),
            value: String::from_str("application/json"),
            sensitive: false,
        },
    );
    headers.push(
        Header {
            name: String::from_str("x-auth-token"),
            value: api_token.to_owned(),
            sensitive: true,
        },
    );
    assert(headers.deep_view() =~= authentication(api_token@));
    Ok(headers)
}

/// The request that is made of `method`, the address of `path` at
/// `endpoint`, the headers for `api_token`, and `body`; or why there is none.
pub open spec fn request_for(
    method: Method,
    endpoint: Seq<char>,
    api_token: Seq<char>,
    path: Seq<char>,
    body: Option<JsonView>,
) -> Result<RequestView, RequestError> {
    if !header_value(api_token) {
        Err(RequestError::InvalidHeaderValue)
    } else {
        match crate::endpoint::url_joined(endpoint, path) {
            Some(url) => Ok(
                RequestView {
                    method,
                    url,
                    headers: authentication(api_token),
                    body,
                    timeout: REQUEST_TIMEOUT,
                },
            ),
            None => Err(RequestError::Url),
        }
    }
}

/// The view of what making a request up gives.
pub open spec fn built(r: Result<Request, RequestError>) -> Result<RequestView, RequestError> {
    match r {
        Ok(request) => Ok(request@),
        Err(error) => Err(error),
    }
}

/// Makes up a request to the entry node at `endpoint`.
pub fn build_request(
    method: Method,
    endpoint: &str,
    api_token: &str,
    path: &str,
    body: Option<Json>,
) -> (r: Result<Request, RequestError>)
    ensures
        built(r) == request_for(
            method,
            endpoint@,
            api_token@,
            path@,
            match body {
                Some(json) => Some(json@),
                None => None,
            },
        ),
{
    let headers = match authentication_headers(api_token) {
        Ok(headers) => headers,
        Err(error) => {
            return Err(error);
        },
    };
    match crate::endpoint::join_url(endpoint, path) {
        Some(url) => Ok(Request { method, url, headers, body, timeout: REQUEST_TIMEOUT }),
        None => Err(RequestError::Url),
    }
}

/// What a worker got from its call.
#[derive(Clone, Debug, PartialEq)]
pub enum Fetched {
    /// The call did not get through.
    Failed { error: String },
    /// A status was answered, and what came with it could not be read.
    Unread { status: u16, error: String },
    /// A status was answered, with the text given.
    Answered { status: u16, text: String },
}

/// What a `Fetched` stands for.
pub enum FetchedView {
    Failed { error: Seq<char> },
    Unread { status: u16, error: Seq<char> },
    Answered { status: u16, text: Seq<char> },
}

impl DeepView for Fetched {
    type V = FetchedView;

    open spec fn deep_view(&self) -> FetchedView {
        match self {
            Fetched::Failed { error } => FetchedView::Failed { error: error@ },
            Fetched::Unread { status, error } => FetchedView::Unread {
                status: *status,
                error: error@,
            },
            Fetched::Answered { status, text } => FetchedView::Answered {
                status: *status,
                text: text@,
            },
        }
    }
}

impl View for Fetched {
    type V = FetchedView;

    open spec fn view(&self) -> FetchedView {
        self.deep_view()
    }
}

/// Whether a status tells of success: 200 to 299.
pub open spec fn is_success(status: u16) -> bool {
    200 <= status < 300
}

/// What is put down for an answer that is no document.
pub open spec fn not_decoded() -> Seq<char> {
    "error decoding response body"@
}

/// What a worker reports of an answer without a document: for the call
/// that closes a session, a status of success counts as a response with the
/// empty document; everything else is an error.
pub open spec fn report_without(slot: Slot, status: u16, error: Seq<char>) -> EventView {
    if is_success(status) && slot == Slot::CloseSession {
        EventView::Response(JsonView::Null)
    } else {
        EventView::Error(
            CustomErrorView { reqw_err: Some(error), status: Some(status), value: None },
        )
    }
}

/// What a worker reports of what it got. Only a status of success with a
/// document is a response, but for the call that closes a session, which
/// needs no document. Everything else is an error that holds what there
/// was: the failure of the transport, the status, and the text of the
/// document.
pub open spec fn report(slot: Slot, fetched: FetchedView) -> EventView {
    match fetched {
        FetchedView::Failed { error } => EventView::Error(
            CustomErrorView { reqw_err: Some(error), status: None, value: None },
        ),
        FetchedView::Unread { status, error } => report_without(slot, status, error),
        FetchedView::Answered { status, text } => match crate::json::parsed(
            text,
            crate::json::MAX_DEPTH as nat,
        ) {
            Some(body) => if is_success(status) {
                EventView::Response(body)
            } else {
                EventView::Error(
                    CustomErrorView { reqw_err: None, status: Some(status), value: Some(text) },
                )
            },
            None => report_without(slot, status, not_decoded()),
        },
    }
}

fn classify_without(slot: Slot, status: u16, error: String) -> (r: Event)
    ensures
        r@ == report_without(slot, status, error@),
{
    if 200 <= status && status < 300 && slot == Slot::CloseSession {
        Event::Response(Json::Null)
    } else {
        Event::Error(CustomError { reqw_err: Some(error), status: Some(status), value: None })
    }
}

/// Turns what a worker got from its call into the one report that it sends.
pub fn classify(slot: Slot, fetched: Fetched) -> (r: Event)
    ensures
        r@ == report(slot, fetched@),
{
    match fetched {
        Fetched::Failed { error } => Event::Error(
            CustomError { reqw_err: Some(error), status: None, value: None },
        ),
        Fetched::Unread { status, error } => classify_without(slot, status, error),
        Fetched::Answered { status, text } => match Json::parse(text.as_str()) {
            Some(body) => {
                if 200 <= status && status < 300 {
                    Event::Response(body)
                } else {
                    Event::Error(
                        CustomError { reqw_err: None, status: Some(status), value: Some(text) },
                    )
                }
            },
            None => classify_without(
                slot,
                status,
                String::from_str("error decoding response body"),
            ),
        },
    }
}

} // verus!
