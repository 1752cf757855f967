//! The manager of one node: its settings, its credential, its HTTP client,
//! the shutdown flag it shares with its supervisor, and its state.

use crate::lnd::credential::{build_macaroon, Credential};
use crate::lnd::headers::{build_headers, header_entries, request_headers};
use crate::lnd::hex::hex_encode;
use crate::lnd::node_client::{getinfo_path, getinfo_url, REQUEST_TIMEOUT_SECS};
use crate::lnd::poll_loop::{
    checks_flag, looks_at_flag, next_step, step_of, Action, Event, LogEvent, LogEventView,
    ManagerState, StepView,
};
use reqwest::header::{HeaderMap, HeaderValue};
use std::sync::atomic::{AtomicBool, Ordering};
use std::sync::Arc;
use std::time::Duration;
use vstd::prelude::*;

verus! {

/// `reqwest::Client`, the HTTP client. It is built here and used by the
/// transport; nothing inside it is visible.
#[verifier::external_type_specification]
#[verifier::external_body]
pub struct ExClient(reqwest::Client);

/// `reqwest::Error`, the error of the HTTP client.
#[verifier::external_type_specification]
#[verifier::external_body]
pub struct ExClientError(reqwest::Error);

/// The request timeout that a client was built with, in seconds; `None`
/// where it was built without one.
pub uninterp spec fn request_timeout_of(client: reqwest::Client) -> Option<u64>;

/// `Client::builder`, `ClientBuilder::timeout` and `ClientBuilder::build`: a
/// client whose requests time out after `timeout_secs` seconds. Whether one
/// can be built depends on the machine, so success is not promised.
#[verifier::external_body]
fn build_client(timeout_secs: u64) -> (client: Result<reqwest::Client, reqwest::Error>)
    ensures
        client matches Ok(built) ==> request_timeout_of(built) == Some(timeout_secs),
{
    reqwest::Client::builder().timeout(Duration::from_secs(timeout_secs)).build()
}

/// The `Debug` text of a `reqwest::Error`.
#[verifier::external_body]
fn client_error_text(error: &reqwest::Error) -> (text: String) {
    format!("{:?}", error)
}

/// Why a manager could not be built: no HTTP client could be had.
#[derive(Debug, Clone, PartialEq)]
pub struct BuildError {
    pub message: String,
}

/// Asks for the HTTP client that every manager uses: one whose requests
/// time out after thirty seconds. Whether a client can be had is up to the
/// machine, so either answer is possible; a client that is handed back has
/// that timeout, and a refusal carries the client library's own words.
pub fn build_http_client() -> (client: Result<reqwest::Client, BuildError>)
    ensures
        client matches Ok(built) ==> request_timeout_of(built) == Some(REQUEST_TIMEOUT_SECS),
{
    match build_client(REQUEST_TIMEOUT_SECS) {
        Ok(client) => Ok(client),
        Err(error) => Err(BuildError { message: client_error_text(&error) }),
    }
}

/// One request to the node: where it goes and the headers it carries.
#[derive(Debug)]
pub struct Request {
    pub url: String,
    pub headers: HeaderMap<HeaderValue>,
}

impl Request {
    /// The log line that announces this request.
    pub fn log_line(&self) -> (line: LogEvent)
        ensures
            line@ == (LogEventView::Attempt { url: self.url@ }),
    {
        LogEvent::Attempt { url: self.url.clone() }
    }
}

/// The manager of one node.
#[derive(Debug)]
pub struct LndManager {
    url: String,
    macaroon: Credential,
    ping_freq_secs: u64,
    client: reqwest::Client,
    kill_signal: Arc<AtomicBool>,
    state: ManagerState,
}

/// The mathematical value of an [`LndManager`]: its settings, the text of
/// its credential, the request timeout of its client, and its state.
pub struct LndManagerView {
    pub url: Seq<char>,
    pub macaroon: Seq<char>,
    pub ping_freq_secs: u64,
    pub request_timeout: Option<u64>,
    pub state: ManagerState,
}

/// The value of a manager that has just been built.
pub open spec fn new_manager(
    url: Seq<char>,
    ping_freq_secs: u64,
    macaroon_contents: Seq<u8>,
    request_timeout: Option<u64>,
) -> LndManagerView {
    LndManagerView {
        url,
        macaroon: hex_encode(macaroon_contents),
        ping_freq_secs,
        request_timeout,
        state: ManagerState::Idle,
    }
}

impl View for LndManager {
    type V = LndManagerView;

    closed spec fn view(&self) -> LndManagerView {
        LndManagerView {
            url: self.url@,
            macaroon: self.macaroon@,
            ping_freq_secs: self.ping_freq_secs,
            request_timeout: request_timeout_of(self.client),
            state: self.state,
        }
    }
}

/// What a call of [`LndManager::step`] did, as a move of the manager's
/// rule: the state it left the manager in and the action it returned.
pub open spec fn move_made(state: ManagerState, action: Option<Action>) -> Option<StepView> {
    match action {
        Some(action) => Some(StepView { state, action: action@ }),
        None => None,
    }
}

impl LndManager {
    /// The shutdown flag that this manager watches.
    pub closed spec fn flag(&self) -> Arc<AtomicBool> {
        self.kill_signal
    }

    /// Puts a manager together from its settings, the contents of its
    /// credential file, and the outcome of building its HTTP client. The
    /// manager starts out idle. Without a client there is no manager.
    pub fn assemble(
        url: String,
        ping_freq_secs: u64,
        kill_signal: Arc<AtomicBool>,
        macaroon_contents: Vec<u8>,
        client: Result<reqwest::Client, BuildError>,
    ) -> (built: Result<LndManager, BuildError>)
        ensures
            match client {
                Ok(client) => built matches Ok(manager) && manager@ == new_manager(
                    url@,
                    ping_freq_secs,
                    macaroon_contents@,
                    request_timeout_of(client),
                ) && manager.flag() == kill_signal,
                Err(error) => built == Err::<LndManager, BuildError>(error),
            },
    {
        match client {
            Ok(client) => Ok(
                LndManager {
                    url,
                    ping_freq_secs,
                    kill_signal,
                    client,
                    macaroon: build_macaroon(macaroon_contents),
                    state: ManagerState::Idle,
                },
            ),
            Err(error) => Err(error),
        }
    }

    /// Builds a manager for the node at `url`, to be checked every
    /// `ping_freq_secs` seconds, with the contents of its credential file.
    /// The HTTP client gets a request timeout of thirty seconds. It fails
    /// only where no client can be built.
    pub fn build(
        url: String,
        ping_freq_secs: u64,
        kill_signal: Arc<AtomicBool>,
        macaroon_contents: Vec<u8>,
    ) -> (built: Result<LndManager, BuildError>)
        ensures
            built matches Ok(manager) ==> manager@ == new_manager(
                url@,
                ping_freq_secs,
                macaroon_contents@,
                Some(REQUEST_TIMEOUT_SECS),
            ) && manager.flag() == kill_signal,
    {
        let client = build_http_client();
        LndManager::assemble(url, ping_freq_secs, kill_signal, macaroon_contents, client)
    }

    /// The base URL of the node.
    pub fn url(&self) -> (url: &String)
        ensures
            url@ == self@.url,
    {
        &self.url
    }

    /// The poll interval in seconds.
    pub fn ping_freq_secs(&self) -> (secs: u64)
        ensures
            secs == self@.ping_freq_secs,
    {
        self.ping_freq_secs
    }

    /// The state of the manager.
    pub fn state(&self) -> (state: ManagerState)
        ensures
            state == self@.state,
    {
        self.state
    }

    /// The HTTP client of the manager.
    pub fn client(&self) -> (client: &reqwest::Client)
        ensures
            request_timeout_of(*client) == self@.request_timeout,
    {
        &self.client
    }

    /// The shutdown flag that the manager watches.
    pub fn kill_signal(&self) -> (flag: &Arc<AtomicBool>)
        ensures
            *flag == self.flag(),
    {
        &self.kill_signal
    }

    /// The request of one health check: a GET of the status endpoint below
    /// the node's URL, with the JSON content type and the credential.
    pub fn request(&self) -> (request: Request)
        ensures
            request.url@ == self@.url + getinfo_path(),
            header_entries(request.headers) == request_headers(self@.macaroon),
    {
        Request { url: getinfo_url(&self.url), headers: build_headers(&self.macaroon) }
    }

    /// Whether the shutdown flag is up right now. Another thread raises it,
    /// so nothing is known of the answer.
    pub fn should_stop(&self) -> (raised: bool) {
        self.kill_signal.load(Ordering::Relaxed)
    }

    /// Moves the manager on `event`, with `shutdown` as the value of the
    /// shutdown flag. An event that the manager does not expect changes
    /// nothing and returns `None`.
    pub fn step_with(&mut self, event: Event, shutdown: bool) -> (action: Option<Action>)
        ensures
            final(self)@ == (LndManagerView { state: final(self)@.state, ..old(self)@ }),
            final(self).flag() == old(self).flag(),
            move_made(final(self)@.state, action) == step_of(old(self)@.state, event@, shutdown),
            action is None ==> final(self)@.state == old(self)@.state,
    {
        match next_step(self.state, event, shutdown) {
            Some((state, action)) => {
                self.state = state;
                Some(action)
            },
            None => None,
        }
    }

    /// Moves the manager on `event`. Where the manager's rule looks at the
    /// shutdown flag, the flag is read once, now; everywhere else it is
    /// left alone.
    pub fn step(&mut self, event: Event) -> (action: Option<Action>)
        ensures
            final(self)@ == (LndManagerView { state: final(self)@.state, ..old(self)@ }),
            final(self).flag() == old(self).flag(),
            action is None ==> final(self)@.state == old(self)@.state,
            checks_flag(old(self)@.state, event@) || move_made(final(self)@.state, action)
                == step_of(old(self)@.state, event@, false),
            checks_flag(old(self)@.state, event@) ==> move_made(final(self)@.state, action)
                == step_of(old(self)@.state, event@, true) || move_made(
                final(self)@.state,
                action,
            ) == step_of(old(self)@.state, event@, false),
    {
        let shutdown = if looks_at_flag(self.state, &event) {
            self.should_stop()
        } else {
            false
        };
        self.step_with(event, shutdown)
    }
}

} // verus!
