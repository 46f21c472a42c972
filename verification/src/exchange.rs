//! The decisions of one blocking HTTPS exchange.
//!
//! An exchange talks to a native internet facility: it opens a session,
//! connects to the host, opens a request, sends it, reads the response in
//! chunks until the stream ends, and releases every handle it acquired,
//! whatever happened. This module holds no I/O. It decides, from the state
//! of the exchange and the outcome of the last operation, which operation
//! comes next and what the exchange finally returns. A driver performs each
//! [`Action`] against the facility and reports its outcome as an [`Event`].

use vstd::prelude::*;
use vstd::utf8::*;

use crate::error::{text_result_view, ErrorView, ReqResult, RequestError};
use crate::method::{method_name, RequestType};
use crate::request::{ClientView, Request};
use crate::url::url_parts;

verus! {

/// The port of the default secure service, to which every exchange connects.
pub const HTTPS_PORT: u16 = 443;

/// The largest number of bytes asked for in one read.
pub const CHUNK_SIZE: u32 = 1024;

/// The code of the error that reports a URL without host or path.
pub const URL_PARSE_CODE: u32 = 1;

/// The name under which an exchange opens its session.
pub open spec fn user_agent() -> Seq<char> {
    "WinINet client"@
}

/// The native handles of an exchange, in the order in which it acquires
/// them. They are released in the opposite order.
#[derive(Debug, Clone, Copy, PartialEq, Eq, Structural)]
pub enum Handle {
    Session,
    Connection,
    Request,
}

/// The points at which an exchange can fail.
#[derive(Debug, Clone, Copy, PartialEq, Eq, Structural)]
pub enum Stage {
    SessionOpen,
    UrlParse,
    Connect,
    RequestOpen,
    Send,
    Read,
    Decode,
}

/// The description that an error carries for each point of failure.
pub open spec fn failure_text(stage: Stage) -> Seq<char> {
    match stage {
        Stage::SessionOpen => "InternetOpen failed"@,
        Stage::UrlParse => "Failed to parse url"@,
        Stage::Connect => "InternetConnect failed"@,
        Stage::RequestOpen => "HttpOpenRequest failed"@,
        Stage::Send => "HttpSendRequest failed"@,
        Stage::Read => "InternetReadFile failed"@,
        Stage::Decode => "Failed to convert result to utf8 string"@,
    }
}

/// No two points of failure share a description: the description of an
/// error tells where the exchange failed.
pub proof fn lemma_failure_texts_distinct(a: Stage, b: Stage)
    requires
        failure_text(a) == failure_text(b),
    ensures
        a == b,
{
    reveal_strlit("InternetOpen failed");
    reveal_strlit("Failed to parse url");
    reveal_strlit("InternetConnect failed");
    reveal_strlit("HttpOpenRequest failed");
    reveal_strlit("HttpSendRequest failed");
    reveal_strlit("InternetReadFile failed");
    reveal_strlit("Failed to convert result to utf8 string");
    let x = failure_text(a);
    let y = failure_text(b);
    assert(x.len() == y.len());
    assert(x[0] == y[0]);
    assert(x[4] == y[4]);
}

impl Stage {
    /// The description that an error carries for a failure at this point.
    pub fn description(self) -> (text: &'static str)
        ensures
            text@ == failure_text(self),
    {
        match self {
            Stage::SessionOpen => "InternetOpen failed",
            Stage::UrlParse => "Failed to parse url",
            Stage::Connect => "InternetConnect failed",
            Stage::RequestOpen => "HttpOpenRequest failed",
            Stage::Send => "HttpSendRequest failed",
            Stage::Read => "InternetReadFile failed",
            Stage::Decode => "Failed to convert result to utf8 string",
        }
    }
}

/// What an exchange is waiting for.
#[derive(Debug, Clone, Copy, PartialEq, Eq, Structural)]
pub enum Phase {
    /// The session is being opened; no handle is held.
    OpeningSession,
    /// The connection is being set up; the session is held.
    Connecting,
    /// The request is being opened; session and connection are held.
    OpeningRequest,
    /// The request is being sent; all three handles are held.
    Sending,
    /// A chunk of the response is being read; all three handles are held.
    Reading,
    /// The given handle is being released; it and those acquired before it
    /// are held.
    Closing(Handle),
    /// The platform's last error code is being read; no handle is held.
    ReadingErrorCode,
}

/// What the driver is asked to do next.
#[derive(Debug, PartialEq, Eq)]
pub enum Action {
    /// Open a session under the given agent name; where `direct` is set,
    /// with direct network access, without looking for a proxy.
    OpenSession { agent: &'static str, direct: bool },
    /// Connect the session to the given host and port, for HTTP service.
    Connect { host: String, port: u16 },
    /// Open a request on the connection with the given verb and object
    /// path; where `secure` is set, over secure transport; where `reload` is
    /// set, never answered from a cache.
    OpenRequest { verb: &'static str, path: String, secure: bool, reload: bool },
    /// Send the request with the given body and no additional headers.
    SendRequest { body: Vec<u8> },
    /// Read at most `capacity` bytes of the response.
    ReadChunk { capacity: u32 },
    /// Release the given handle.
    CloseHandle { handle: Handle },
    /// Read the platform's last error code.
    ReadLastError,
}

/// The model of an [`Action`].
pub enum ActionView {
    OpenSession { agent: Seq<char>, direct: bool },
    Connect { host: Seq<char>, port: u16 },
    OpenRequest { verb: Seq<char>, path: Seq<char>, secure: bool, reload: bool },
    SendRequest { body: Seq<u8> },
    ReadChunk { capacity: u32 },
    CloseHandle { handle: Handle },
    ReadLastError,
}

impl View for Action {
    type V = ActionView;

    open spec fn view(&self) -> ActionView {
        match *self {
            Action::OpenSession { agent, direct } => ActionView::OpenSession {
                agent: agent@,
                direct,
            },
            Action::Connect { host, port } => ActionView::Connect { host: host@, port },
            Action::OpenRequest { verb, path, secure, reload } => ActionView::OpenRequest {
                verb: verb@,
                path: path@,
                secure,
                reload,
            },
            Action::SendRequest { body } => ActionView::SendRequest { body: body@ },
            Action::ReadChunk { capacity } => ActionView::ReadChunk { capacity },
            Action::CloseHandle { handle } => ActionView::CloseHandle { handle },
            Action::ReadLastError => ActionView::ReadLastError,
        }
    }
}

/// The outcome of the action that the driver performed last.
#[derive(Debug, PartialEq, Eq)]
pub enum Event {
    /// The action succeeded.
    Done,
    /// The action failed; the code is the platform's last error code, taken
    /// right after the failure. It is also the answer to
    /// [`Action::ReadLastError`].
    Failed(u32),
    /// The read succeeded and gave these bytes; none at the end of the
    /// stream.
    Data(Vec<u8>),
}

/// The model of an [`Event`].
pub enum EventView {
    Done,
    Failed(u32),
    Data(Seq<u8>),
}

impl View for Event {
    type V = EventView;

    open spec fn view(&self) -> EventView {
        match *self {
            Event::Done => EventView::Done,
            Event::Failed(code) => EventView::Failed(code),
            Event::Data(bytes) => EventView::Data(bytes@),
        }
    }
}

impl EventView {
    /// Whether the event reports success. Every event but `Failed` does.
    pub open spec fn succeeded(self) -> bool {
        !(self is Failed)
    }

    /// The error code that the event carries; 0 where it carries none.
    pub open spec fn code(self) -> u32 {
        match self {
            EventView::Failed(code) => code,
            _ => 0,
        }
    }

    /// The bytes that the event carries; none where it carries no data.
    pub open spec fn bytes(self) -> Seq<u8> {
        match self {
            EventView::Data(bytes) => bytes,
            _ => Seq::empty(),
        }
    }
}

/// The model of an [`Exchange`].
pub struct ExchangeView {
    /// What the exchange is waiting for.
    pub phase: Phase,
    /// The object path of the URL; empty until the URL has been split.
    pub path: Seq<char>,
    /// The bytes of the response read so far.
    pub received: Seq<u8>,
    /// The error to return once the handles are released, if a step failed.
    pub failure: Option<ErrorView>,
}

/// The state of an exchange that has not finished.
#[derive(Debug)]
pub struct Exchange {
    phase: Phase,
    path: String,
    received: Vec<u8>,
    failure: Option<RequestError>,
}

impl View for Exchange {
    type V = ExchangeView;

    closed spec fn view(&self) -> ExchangeView {
        ExchangeView {
            phase: self.phase,
            path: self.path@,
            received: self.received@,
            failure: match self.failure {
                Some(error) => Some(error@),
                None => None,
            },
        }
    }
}

/// Where an exchange stands after an event.
#[derive(Debug)]
pub enum Step {
    /// The exchange goes on: its new state, and what to do next.
    Continue(Exchange, Action),
    /// The exchange is over, with this result.
    Finish(ReqResult<String>),
}

/// The model of a [`Step`].
pub enum StepView {
    Continue(ExchangeView, ActionView),
    Finish(Result<Seq<char>, ErrorView>),
}

impl View for Step {
    type V = StepView;

    open spec fn view(&self) -> StepView {
        match *self {
            Step::Continue(state, action) => StepView::Continue(state@, action@),
            Step::Finish(result) => StepView::Finish(text_result_view(result)),
        }
    }
}

/// The state in which every exchange begins, and its first action.
pub open spec fn begin_view() -> (ExchangeView, ActionView) {
    (
        ExchangeView {
            phase: Phase::OpeningSession,
            path: Seq::empty(),
            received: Seq::empty(),
            failure: None,
        },
        ActionView::OpenSession { agent: user_agent(), direct: true },
    )
}

/// Starts to release the handles from `handle` downwards.
pub open spec fn release_view(state: ExchangeView, handle: Handle) -> StepView {
    StepView::Continue(
        ExchangeView { phase: Phase::Closing(handle), ..state },
        ActionView::CloseHandle { handle },
    )
}

/// Records a failure at `stage` with the given code. Where handles are
/// held, `held` being the one acquired last, they are released first;
/// where none is, the exchange is over.
pub open spec fn fail_view(
    state: ExchangeView,
    stage: Stage,
    code: u32,
    held: Option<Handle>,
) -> StepView {
    let error = ErrorView { description: failure_text(stage), error_code: code };
    match held {
        Some(handle) => release_view(ExchangeView { failure: Some(error), ..state }, handle),
        None => StepView::Finish(Err(error)),
    }
}

/// Ends an exchange whose handles are all released: with the recorded
/// failure if there is one, else with the response as text where its bytes
/// are UTF-8. Where they are not, the platform's error code is read first,
/// and the bytes are dropped.
pub open spec fn conclude_view(state: ExchangeView) -> StepView {
    match state.failure {
        Some(error) => StepView::Finish(Err(error)),
        None => if valid_utf8(state.received) {
            StepView::Finish(Ok(decode_utf8(state.received)))
        } else {
            StepView::Continue(
                ExchangeView { phase: Phase::ReadingErrorCode, received: Seq::empty(), ..state },
                ActionView::ReadLastError,
            )
        },
    }
}

/// What follows when `event` reaches an exchange of `client` in `state`.
pub open spec fn step_view(client: ClientView, state: ExchangeView, event: EventView) -> StepView {
    match state.phase {
        Phase::OpeningSession => if !event.succeeded() {
            fail_view(state, Stage::SessionOpen, event.code(), None)
        } else {
            match url_parts(client.url) {
                Some((host, path)) => StepView::Continue(
                    ExchangeView { phase: Phase::Connecting, path, ..state },
                    ActionView::Connect { host, port: HTTPS_PORT },
                ),
                None => fail_view(state, Stage::UrlParse, URL_PARSE_CODE, Some(Handle::Session)),
            }
        },
        Phase::Connecting => if !event.succeeded() {
            fail_view(state, Stage::Connect, event.code(), Some(Handle::Session))
        } else {
            StepView::Continue(
                ExchangeView { phase: Phase::OpeningRequest, ..state },
                ActionView::OpenRequest {
                    verb: method_name(client.request_type),
                    path: state.path,
                    secure: true,
                    reload: true,
                },
            )
        },
        Phase::OpeningRequest => if !event.succeeded() {
            fail_view(state, Stage::RequestOpen, event.code(), Some(Handle::Connection))
        } else {
            StepView::Continue(
                ExchangeView { phase: Phase::Sending, ..state },
                ActionView::SendRequest { body: client.body_bytes() },
            )
        },
        Phase::Sending => if !event.succeeded() {
            fail_view(state, Stage::Send, event.code(), Some(Handle::Request))
        } else {
            StepView::Continue(
                ExchangeView { phase: Phase::Reading, ..state },
                ActionView::ReadChunk { capacity: CHUNK_SIZE },
            )
        },
        Phase::Reading => if !event.succeeded() {
            fail_view(state, Stage::Read, event.code(), Some(Handle::Request))
        } else if event.bytes().len() == 0 {
            release_view(state, Handle::Request)
        } else {
            StepView::Continue(
                ExchangeView { received: state.received + event.bytes(), ..state },
                ActionView::ReadChunk { capacity: CHUNK_SIZE },
            )
        },
        Phase::Closing(handle) => match handle {
            Handle::Request => release_view(state, Handle::Connection),
            Handle::Connection => release_view(state, Handle::Session),
            Handle::Session => conclude_view(state),
        },
        Phase::ReadingErrorCode => StepView::Finish(
            Err(ErrorView { description: failure_text(Stage::Decode), error_code: event.code() }),
        ),
    }
}

/// The error of `String::from_utf8`. Nothing of it is used but that it
/// occurred.
#[verifier::external_type_specification]
#[verifier::external_body]
pub struct ExFromUtf8Error(std::string::FromUtf8Error);

/// `String::from_utf8` gives the text that the bytes encode where they are
/// well-formed UTF-8, and an error where they are not.
pub assume_specification[ String::from_utf8 ](vec: Vec<u8>) -> (result: Result<
    String,
    std::string::FromUtf8Error,
>)
    ensures
        match result {
            Ok(text) => valid_utf8(vec@) && text@ == decode_utf8(vec@),
            Err(_) => !valid_utf8(vec@),
        },
;

/// Starts to release the handles from `handle` downwards.
fn release(state: Exchange, handle: Handle) -> (next: Step)
    ensures
        next@ == release_view(state@, handle),
{
    let mut state = state;
    state.phase = Phase::Closing(handle);
    Step::Continue(state, Action::CloseHandle { handle })
}

/// Records a failure and either starts to release what is held or ends the
/// exchange.
fn fail(state: Exchange, stage: Stage, code: u32, held: Option<Handle>) -> (next: Step)
    ensures
        next@ == fail_view(state@, stage, code, held),
{
    let error = RequestError::new(stage.description(), code);
    match held {
        Some(handle) => {
            let mut state = state;
            state.failure = Some(error);
            release(state, handle)
        },
        None => Step::Finish(Err(error)),
    }
}

/// Ends an exchange whose handles are all released.
fn conclude(state: Exchange) -> (next: Step)
    ensures
        next@ == conclude_view(state@),
{
    let Exchange { phase: _, path, received, failure } = state;
    match failure {
        Some(error) => Step::Finish(Err(error)),
        None => match String::from_utf8(received) {
            Ok(text) => Step::Finish(Ok(text)),
            Err(_) => Step::Continue(
                Exchange {
                    phase: Phase::ReadingErrorCode,
                    path,
                    received: Vec::new(),
                    failure: None,
                },
                Action::ReadLastError,
            ),
        },
    }
}

impl Request {
    /// The state in which the exchange of this request begins, and the
    /// first thing to do.
    pub fn begin(&self) -> (start: (Exchange, Action))
        ensures
            (start.0@, start.1@) == begin_view(),
    {
        (
            Exchange {
                phase: Phase::OpeningSession,
                path: String::new(),
                received: Vec::new(),
                failure: None,
            },
            Action::OpenSession { agent: "WinINet client", direct: true },
        )
    }

    /// Takes the outcome of the action performed last, and says what to do
    /// next or how the exchange ends.
    pub fn step(&self, state: Exchange, event: Event) -> (next: Step)
        ensures
            next@ == step_view(self.client@, state@, event@),
    {
        let mut state = state;
        match state.phase {
            Phase::OpeningSession => match event {
                Event::Failed(code) => fail(state, Stage::SessionOpen, code, None),
                _ => match self.parse_url(self.client.url.as_str()) {
                    Ok((host, path)) => {
                        state.phase = Phase::Connecting;
                        state.path = path;
                        Step::Continue(state, Action::Connect { host, port: HTTPS_PORT })
                    },
                    Err(code) => fail(state, Stage::UrlParse, code, Some(Handle::Session)),
                },
            },
            Phase::Connecting => match event {
                Event::Failed(code) => fail(state, Stage::Connect, code, Some(Handle::Session)),
                _ => {
                    state.phase = Phase::OpeningRequest;
                    let verb = RequestType::to_str(self.client.request_type);
                    let path = state.path.clone();
                    Step::Continue(
                        state,
                        Action::OpenRequest { verb, path, secure: true, reload: true },
                    )
                },
            },
            Phase::OpeningRequest => match event {
                Event::Failed(code) => fail(
                    state,
                    Stage::RequestOpen,
                    code,
                    Some(Handle::Connection),
                ),
                _ => {
                    state.phase = Phase::Sending;
                    Step::Continue(state, Action::SendRequest { body: self.client.body_bytes() })
                },
            },
            Phase::Sending => match event {
                Event::Failed(code) => fail(state, Stage::Send, code, Some(Handle::Request)),
                _ => {
                    state.phase = Phase::Reading;
                    Step::Continue(state, Action::ReadChunk { capacity: CHUNK_SIZE })
                },
            },
            Phase::Reading => match event {
                Event::Failed(code) => fail(state, Stage::Read, code, Some(Handle::Request)),
                Event::Data(bytes) => {
                    if bytes.len() == 0 {
                        release(state, Handle::Request)
                    } else {
                        let mut bytes = bytes;
                        state.received.append(&mut bytes);
                        Step::Continue(state, Action::ReadChunk { capacity: CHUNK_SIZE })
                    }
                },
                Event::Done => release(state, Handle::Request),
            },
            Phase::Closing(handle) => match handle {
                Handle::Request => release(state, Handle::Connection),
                Handle::Connection => release(state, Handle::Session),
                Handle::Session => conclude(state),
            },
            Phase::ReadingErrorCode => {
                let code = match event {
                    Event::Failed(code) => code,
                    _ => 0,
                };
                Step::Finish(Err(RequestError::new(Stage::Decode.description(), code)))
            },
        }
    }
}

} // verus!
