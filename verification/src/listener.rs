//! The callback listener, as the decisions it takes.
//!
//! Binding the socket, waiting for a request and writing a response are the
//! caller's work. After each of them the caller reports what happened as a
//! [`ListenerEvent`], and [`Listener::step`] answers with the next thing to do.

use std::io::Cursor;
use tiny_http::Response;
use vstd::prelude::*;
use vstd::string::*;

use crate::config::ListenerConfig;
use crate::decimal::{decimal_digits, push_decimal};
use crate::http::{html_response, is_text_response, response_body, response_headers, response_status};
use crate::page::{response_document, HTML_CONTENT_TYPE, RESPONSE_DOCUMENT};

verus! {

/// The line that reports a started listener, up to the port.
pub const STARTED_PREFIX: &'static str = "OAuth callback server started on port ";

/// The line that reports a request, up to the method.
pub const REQUEST_PREFIX: &'static str = "OAuth callback request: ";

/// The diagnostic of a failed bind, up to the address.
pub const BIND_FAILED_PREFIX: &'static str = "OAuth callback server could not bind ";

/// The line that reports a response that could not be written, up to the reason.
pub const RESPONSE_FAILED_PREFIX: &'static str = "OAuth callback response failed: ";

/// Where the listener stands.
#[derive(Clone, Copy, Debug, PartialEq, Eq, Structural)]
pub enum ListenerState {
    /// Made, not yet bound.
    Unstarted,
    /// Bound, and answering requests for as long as the process lives.
    Listening,
    /// The bind failed. Nothing is retried.
    Failed,
}

/// What the caller has seen happen.
#[derive(Debug)]
pub enum ListenerEvent {
    /// The socket is bound.
    Bound,
    /// The socket could not be bound.
    BindFailed { reason: String },
    /// A request has arrived.
    Request { method: String, url: String },
    /// The last response was written.
    ResponseSent,
    /// The last response could not be written.
    ResponseFailed { reason: String },
}

/// What the caller is to do next.
pub enum ListenerAction {
    /// Log the line and wait for the first request.
    Announce { line: String },
    /// Stop the start of the application with the diagnostic.
    Abort { diagnostic: String },
    /// Log the line, write the response, and report how that went.
    Respond { log_line: String, response: Response<Cursor<Vec<u8>>> },
    /// Log the line and wait for the next request.
    Report { line: String },
    /// Wait for the next event.
    Wait,
}

/// The state after `event`. Only the outcome of the bind moves the listener;
/// once it listens, or has failed, it stays as it is.
pub open spec fn next_state(state: ListenerState, event: ListenerEvent) -> ListenerState {
    match (state, event) {
        (ListenerState::Unstarted, ListenerEvent::Bound) => ListenerState::Listening,
        (ListenerState::Unstarted, ListenerEvent::BindFailed { .. }) => ListenerState::Failed,
        _ => state,
    }
}

/// The state after a run of events, first to last.
pub open spec fn state_after(state: ListenerState, events: Seq<ListenerEvent>) -> ListenerState
    decreases events.len(),
{
    if events.len() == 0 {
        state
    } else {
        next_state(state_after(state, events.drop_last()), events.last())
    }
}

/// The line logged when the listener has started.
pub open spec fn started_line(config: ListenerConfig) -> Seq<char> {
    STARTED_PREFIX@ + decimal_digits(config.port as nat)
}

/// The diagnostic of a bind that failed for `reason`.
pub open spec fn bind_failed_line(config: ListenerConfig, reason: Seq<char>) -> Seq<char> {
    BIND_FAILED_PREFIX@ + config.bind_address_text() + ": "@ + reason
}

/// The line logged for a request: its method, then its target.
pub open spec fn request_line(method: Seq<char>, url: Seq<char>) -> Seq<char> {
    REQUEST_PREFIX@ + method + " "@ + url
}

/// The line logged for a response that could not be written.
pub open spec fn response_failed_line(reason: Seq<char>) -> Seq<char> {
    RESPONSE_FAILED_PREFIX@ + reason
}

/// The one response of the listener: status 200, the HTML media type, and the
/// document as the body.
pub open spec fn is_callback_response(response: Response<Cursor<Vec<u8>>>) -> bool {
    is_text_response(response, RESPONSE_DOCUMENT@, HTML_CONTENT_TYPE@)
}

/// What `step` asks for in `state` on `event`.
pub open spec fn is_action_for(
    config: ListenerConfig,
    state: ListenerState,
    event: ListenerEvent,
    action: ListenerAction,
) -> bool {
    match (state, event) {
        (ListenerState::Unstarted, ListenerEvent::Bound) => {
            &&& action matches ListenerAction::Announce { line }
            &&& line@ == started_line(config)
        },
        (ListenerState::Unstarted, ListenerEvent::BindFailed { reason }) => {
            &&& action matches ListenerAction::Abort { diagnostic }
            &&& diagnostic@ == bind_failed_line(config, reason@)
        },
        (ListenerState::Listening, ListenerEvent::Request { method, url }) => {
            &&& action matches ListenerAction::Respond { log_line, response }
            &&& log_line@ == request_line(method@, url@)
            &&& is_callback_response(response)
        },
        (ListenerState::Listening, ListenerEvent::ResponseFailed { reason }) => {
            &&& action matches ListenerAction::Report { line }
            &&& line@ == response_failed_line(reason@)
        },
        _ => action is Wait,
    }
}

/// Answers one request. Method and target are logged and decide nothing: the
/// response is the same for every request.
pub fn handle_request(method: &str, url: &str) -> (answer: (String, Response<Cursor<Vec<u8>>>))
    ensures
        answer.0@ == request_line(method@, url@),
        is_callback_response(answer.1),
{
    let mut log_line = String::new();
    log_line.append(REQUEST_PREFIX);
    log_line.append(method);
    log_line.append(" ");
    log_line.append(url);
    (log_line, html_response(response_document()))
}

/// A callback listener: its configuration, and where it stands. Both are
/// private: the configuration never changes once the listener is made, and
/// the state changes through [`Listener::step`] alone.
#[derive(Debug)]
pub struct Listener {
    config: ListenerConfig,
    state: ListenerState,
}

impl Listener {
    /// The configuration the listener was made with.
    pub closed spec fn spec_config(&self) -> ListenerConfig {
        self.config
    }

    /// Where the listener stands.
    pub closed spec fn spec_state(&self) -> ListenerState {
        self.state
    }

    /// A listener for `config` that has not been started.
    pub fn new(config: ListenerConfig) -> (listener: Listener)
        ensures
            listener.config() == config,
            listener.state() == ListenerState::Unstarted,
    {
        Listener { config, state: ListenerState::Unstarted }
    }

    /// The configuration the listener was made with.
    #[verifier::when_used_as_spec(spec_config)]
    pub fn config(&self) -> (config: ListenerConfig)
        ensures
            config == self.config(),
    {
        self.config
    }

    /// Where the listener stands.
    #[verifier::when_used_as_spec(spec_state)]
    pub fn state(&self) -> (state: ListenerState)
        ensures
            state == self.state(),
    {
        self.state
    }

    /// Takes `event` in: moves to the next state and says what to do.
    pub fn step(&mut self, event: ListenerEvent) -> (action: ListenerAction)
        ensures
            final(self).config() == old(self).config(),
            final(self).state() == next_state(old(self).state(), event),
            is_action_for(old(self).config(), old(self).state(), event, action),
    {
        match self.state {
            ListenerState::Unstarted => match event {
                ListenerEvent::Bound => {
                    self.state = ListenerState::Listening;
                    let mut line = String::new();
                    line.append(STARTED_PREFIX);
                    push_decimal(&mut line, self.config.port);
                    ListenerAction::Announce { line }
                },
                ListenerEvent::BindFailed { reason } => {
                    self.state = ListenerState::Failed;
                    let address = self.config.bind_address();
                    let mut diagnostic = String::new();
                    diagnostic.append(BIND_FAILED_PREFIX);
                    diagnostic.append(address.as_str());
                    diagnostic.append(": ");
                    diagnostic.append(reason.as_str());
                    ListenerAction::Abort { diagnostic }
                },
                _ => ListenerAction::Wait,
            },
            ListenerState::Listening => match event {
                ListenerEvent::Request { method, url } => {
                    let (log_line, response) = handle_request(method.as_str(), url.as_str());
                    ListenerAction::Respond { log_line, response }
                },
                ListenerEvent::ResponseFailed { reason } => {
                    let mut line = String::new();
                    line.append(RESPONSE_FAILED_PREFIX);
                    line.append(reason.as_str());
                    ListenerAction::Report { line }
                },
                _ => ListenerAction::Wait,
            },
            ListenerState::Failed => ListenerAction::Wait,
        }
    }
}

/// Every request gets status 200 and the HTML media type, and any two
/// responses of the listener agree in status, headers and every byte of the
/// body.
pub proof fn lemma_responses_are_identical(
    first: Response<Cursor<Vec<u8>>>,
    second: Response<Cursor<Vec<u8>>>,
)
    requires
        is_callback_response(first),
        is_callback_response(second),
    ensures
        response_status(first) == 200,
        response_headers(first).len() == 1,
        response_headers(first)[0].1 == HTML_CONTENT_TYPE@,
        response_status(first) == response_status(second),
        response_headers(first) == response_headers(second),
        response_body(first) == response_body(second),
{
}

/// A listener that listens goes on listening whatever happens: no request,
/// and no response that failed half way, ends it.
pub proof fn lemma_listening_never_ends(events: Seq<ListenerEvent>)
    ensures
        state_after(ListenerState::Listening, events) == ListenerState::Listening,
    decreases events.len(),
{
    if events.len() > 0 {
        lemma_listening_never_ends(events.drop_last());
    }
}

/// A failed bind is final: nothing brings the listener up afterwards.
pub proof fn lemma_failed_bind_is_final(events: Seq<ListenerEvent>)
    ensures
        state_after(ListenerState::Failed, events) == ListenerState::Failed,
    decreases events.len(),
{
    if events.len() > 0 {
        lemma_failed_bind_is_final(events.drop_last());
    }
}

/// A response is asked for exactly on a request that reaches a listener that
/// listens: never before the bind, and never after a bind that failed.
pub proof fn lemma_responds_only_while_listening(
    config: ListenerConfig,
    state: ListenerState,
    event: ListenerEvent,
    action: ListenerAction,
)
    requires
        is_action_for(config, state, event, action),
    ensures
        action is Respond <==> state == ListenerState::Listening && event is Request,
        action is Abort <==> state == ListenerState::Unstarted && event is BindFailed,
{
}

} // verus!
