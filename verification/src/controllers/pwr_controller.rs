//! The controller: what one connection's bytes are answered with, and the
//! lifecycle of the listening socket.
//!
//! A connection is read once, into a buffer of fixed size, and answered at
//! most once. Bytes beyond the buffer are not looked at. Nothing received, or
//! bytes that are no text, get no answer; text that is no request gets an
//! error response; a request gets the response of its command.
//!
//! The listener is a state machine: the caller does the socket work that an
//! action names and reports how it went as the next event.

use vstd::prelude::*;
use vstd::slice::slice_subrange;
use vstd::utf8::{decode_utf8, encode_utf8, encode_utf8_decode_utf8, valid_utf8};
use crate::interface::codec::{decode, decoded, encode, encoded, DecodeError, DecodeErrorView};
use crate::interface::model::{
    status_error,
    RequestData,
    RequestView,
    ResponseData,
    ResponseView,
    CODE_BAD_REQUEST,
};
use crate::services::provider::{Audited, Call, PowerManagement};
use crate::services::pwr_service::{
    calls_follow,
    command_of,
    lemma_answers_are_well_formed,
    lemma_unknown_is_rejected,
    outcome_after,
    response_of,
    unknown_message,
    DBusConfigView,
    PwrService,
};
use crate::text::{contains_text, lemma_contains_tail, text_of_bytes};

verus! {

/// How many bytes of a connection are read.
pub const READ_BUFFER_SIZE: usize = 512;

/// The bytes of a connection that are looked at: those that fit the buffer.
pub open spec fn frame_of(received: Seq<u8>) -> Seq<u8> {
    if received.len() <= READ_BUFFER_SIZE {
        received
    } else {
        received.subrange(0, READ_BUFFER_SIZE as int)
    }
}

/// What was received on a connection.
#[derive(Debug, Clone, PartialEq, Eq)]
pub enum Received {
    /// Nothing: the peer closed without sending.
    Nothing,
    /// Bytes that are not valid UTF-8.
    NotText,
    /// Text that is no request envelope.
    Malformed(DecodeError),
    /// A request envelope.
    Request(RequestData),
}

/// The mathematical content of a [`Received`].
pub enum ReceivedView {
    Nothing,
    NotText,
    Malformed(DecodeErrorView),
    Request(RequestView),
}

impl View for Received {
    type V = ReceivedView;

    open spec fn view(&self) -> ReceivedView {
        match self {
            Received::Nothing => ReceivedView::Nothing,
            Received::NotText => ReceivedView::NotText,
            Received::Malformed(error) => ReceivedView::Malformed(error@),
            Received::Request(request) => ReceivedView::Request(request@),
        }
    }
}

/// What the bytes of a connection are.
pub open spec fn received_of(received: Seq<u8>) -> ReceivedView {
    let frame = frame_of(received);
    if frame.len() == 0 {
        ReceivedView::Nothing
    } else if !valid_utf8(frame) {
        ReceivedView::NotText
    } else {
        match decoded(decode_utf8(frame)) {
            Err(error) => ReceivedView::Malformed(error),
            Ok(request) => ReceivedView::Request(request),
        }
    }
}

/// The message of the response to a text that is no request.
pub open spec fn malformed_message(error: DecodeErrorView) -> Seq<char> {
    "Format JSON invalide: "@ + error.diagnostic()
}

/// The response to a text that is no request.
pub open spec fn malformed_response(error: DecodeErrorView) -> ResponseView {
    ResponseView::bad_request(malformed_message(error))
}

/// The bytes of a response envelope, or nothing where it cannot be encoded.
pub open spec fn encoded_bytes(response: ResponseView) -> Option<Seq<u8>> {
    match encoded(response) {
        Some(text) => Some(encode_utf8(text)),
        None => None,
    }
}

/// The response to a connection's bytes, if they get one, where handling
/// them left the history `after` on the provider: none for nothing received
/// and for bytes that are no text, the error response for text that is no
/// request, and for a request the response of its command.
pub open spec fn response_to(after: Seq<Call>, received: Seq<u8>) -> Option<ResponseView> {
    match received_of(received) {
        ReceivedView::Nothing => None,
        ReceivedView::NotText => None,
        ReceivedView::Malformed(error) => Some(malformed_response(error)),
        ReceivedView::Request(request) => Some(response_of(outcome_after(after, request.kind))),
    }
}

/// The reply to a connection's bytes: the bytes of the response to them, or
/// none, which closes the connection without a word.
pub open spec fn reply_of(after: Seq<Call>, received: Seq<u8>) -> Option<Seq<u8>> {
    match response_to(after, received) {
        Some(response) => encoded_bytes(response),
        None => None,
    }
}

/// Whether `after` is the history that handling a connection's bytes leaves
/// from `before`: that of the request's dispatch, where the bytes are a
/// request, and else `before` itself.
pub open spec fn calls_follow_request(before: Seq<Call>, after: Seq<Call>, received: Seq<u8>) -> bool {
    match received_of(received) {
        ReceivedView::Request(request) => calls_follow(before, after, request.kind),
        _ => after == before,
    }
}

/// The content of a reply.
pub open spec fn reply_view(reply: Option<Vec<u8>>) -> Option<Seq<u8>> {
    match reply {
        Some(bytes) => Some(bytes@),
        None => None,
    }
}

/// Tells what the bytes of a connection are.
pub fn classify(received: &[u8]) -> (what: Received)
    ensures
        what@ == received_of(received@),
{
    let frame = if received.len() > READ_BUFFER_SIZE {
        slice_subrange(received, 0, READ_BUFFER_SIZE)
    } else {
        received
    };
    assert(frame@ == frame_of(received@));
    if frame.len() == 0 {
        return Received::Nothing;
    }
    match text_of_bytes(frame) {
        None => Received::NotText,
        Some(text) => {
            proof {
                encode_utf8_decode_utf8(text@);
            }
            match decode(text) {
                Err(error) => Received::Malformed(error),
                Ok(request) => Received::Request(request),
            }
        },
    }
}

/// The response to a text that is no request.
pub fn malformed_reply(error: &DecodeError) -> (response: ResponseData)
    ensures
        response@ == malformed_response(error@),
        response@.is_well_formed(),
{
    let mut message = String::from_str("Format JSON invalide: ");
    let diagnostic = error.diagnostic();
    message.append(diagnostic.as_str());
    ResponseData::bad_request(message)
}

/// The bytes to write for a response, if it can be encoded.
pub fn reply_bytes(response: &ResponseData) -> (reply: Option<Vec<u8>>)
    ensures
        reply_view(reply) == encoded_bytes(response@),
{
    match encode(response) {
        Some(envelope) => Some(envelope.as_str().as_bytes_vec()),
        None => None,
    }
}

/// Handles what one connection sent: tells what it is, has a request's
/// command handled, and returns the bytes to write back, if any.
pub fn handle_request<P: PowerManagement>(
    service: &PwrService,
    provider: &mut Audited<'_, P>,
    received: &[u8],
) -> (reply: Option<Vec<u8>>)
    ensures
        calls_follow_request(old(provider).calls(), final(provider).calls(), received@),
        reply_view(reply) == reply_of(final(provider).calls(), received@),
        received@.len() == 0 ==> reply is None,
        final(provider).target() == old(provider).target(),
{
    match classify(received) {
        Received::Nothing => None,
        Received::NotText => None,
        Received::Malformed(error) => {
            let response = malformed_reply(&error);
            reply_bytes(&response)
        },
        Received::Request(request) => {
            let response = service.handle_command(provider, request.request.kind.as_str());
            reply_bytes(&response)
        },
    }
}

/// Where the listener is in its life.
#[derive(Debug, Clone, Copy, PartialEq, Eq)]
pub enum ListenerState {
    /// Asked whether something is left at the socket path.
    Probing,
    /// Removing what was left at the socket path.
    Clearing,
    /// Binding the socket.
    Binding,
    /// Bound, and waiting for the next connection.
    Accepting,
    /// Ended by an accept error.
    Stopped,
    /// Never came to listen: clearing or binding failed.
    Failed,
}

/// What the caller reports back to the listener.
#[derive(Debug, Clone, Copy, PartialEq, Eq)]
pub enum ListenerEvent {
    /// Something exists at the socket path.
    PathOccupied,
    /// Nothing exists at the socket path.
    PathFree,
    /// What was at the socket path is removed.
    Removed,
    /// What was at the socket path could not be removed.
    RemoveFailed,
    /// The socket is bound.
    Bound,
    /// The socket could not be bound.
    BindFailed,
    /// A connection was accepted.
    Accepted,
    /// Accepting failed.
    AcceptFailed,
}

/// What the listener asks the caller to do next.
#[derive(Debug, Clone, Copy, PartialEq, Eq)]
pub enum ListenerAction {
    /// Look whether something exists at the socket path.
    ProbePath,
    /// Remove what is at the socket path.
    RemoveStale,
    /// Bind the socket at the socket path.
    Bind,
    /// Wait for the next connection.
    Accept,
    /// Hand the accepted connection to a handler of its own, and without
    /// waiting for it, wait for the next connection.
    ServeAndAccept,
    /// Return: the listener has ended in good order.
    Finish,
    /// Return the error of the step that failed.
    Fail,
    /// Nothing: the event does not belong to the state.
    Ignore,
}

/// The step of the listener: the state after `event` arrived in `state`, and
/// what to do next.
pub open spec fn listener_step(state: ListenerState, event: ListenerEvent) -> (
    ListenerState,
    ListenerAction,
) {
    match (state, event) {
        (ListenerState::Probing, ListenerEvent::PathOccupied) => (
            ListenerState::Clearing,
            ListenerAction::RemoveStale,
        ),
        (ListenerState::Probing, ListenerEvent::PathFree) => (
            ListenerState::Binding,
            ListenerAction::Bind,
        ),
        (ListenerState::Clearing, ListenerEvent::Removed) => (
            ListenerState::Binding,
            ListenerAction::Bind,
        ),
        (ListenerState::Clearing, ListenerEvent::RemoveFailed) => (
            ListenerState::Failed,
            ListenerAction::Fail,
        ),
        (ListenerState::Binding, ListenerEvent::Bound) => (
            ListenerState::Accepting,
            ListenerAction::Accept,
        ),
        (ListenerState::Binding, ListenerEvent::BindFailed) => (
            ListenerState::Failed,
            ListenerAction::Fail,
        ),
        (ListenerState::Accepting, ListenerEvent::Accepted) => (
            ListenerState::Accepting,
            ListenerAction::ServeAndAccept,
        ),
        (ListenerState::Accepting, ListenerEvent::AcceptFailed) => (
            ListenerState::Stopped,
            ListenerAction::Finish,
        ),
        _ => (state, ListenerAction::Ignore),
    }
}

/// The controller: the socket path and the service behind it.
pub struct PwrController<'a> {
    socket: &'a str,
    service: PwrService,
}

impl<'a> PwrController<'a> {
    /// The path of the socket.
    pub closed spec fn socket_path(&self) -> Seq<char> {
        self.socket@
    }

    /// The configuration of the service.
    pub closed spec fn service_view(&self) -> DBusConfigView {
        self.service@
    }

    /// A controller for the socket at `socket_path`, in front of
    /// `pwr_service`.
    pub fn new(socket_path: &'a str, pwr_service: PwrService) -> (controller: Self)
        ensures
            controller.socket_path() == socket_path@,
            controller.service_view() == pwr_service@,
    {
        PwrController { socket: socket_path, service: pwr_service }
    }

    /// The path of the socket.
    pub fn socket(&self) -> (path: &'a str)
        ensures
            path@ == self.socket_path(),
    {
        self.socket
    }

    /// The service behind the socket.
    pub fn service(&self) -> (service: &PwrService)
        ensures
            service@ == self.service_view(),
    {
        &self.service
    }

    /// Starts the listener: its first state, and the first thing to do.
    pub fn start(&self) -> (first: (ListenerState, ListenerAction))
        ensures
            first == (ListenerState::Probing, ListenerAction::ProbePath),
    {
        (ListenerState::Probing, ListenerAction::ProbePath)
    }

    /// Takes the listener one step on: from `state`, on `event`.
    pub fn advance(&self, state: ListenerState, event: ListenerEvent) -> (next: (
        ListenerState,
        ListenerAction,
    ))
        ensures
            next == listener_step(state, event),
    {
        let ignored = (state, ListenerAction::Ignore);
        match state {
            ListenerState::Probing => match event {
                ListenerEvent::PathOccupied => (ListenerState::Clearing, ListenerAction::RemoveStale),
                ListenerEvent::PathFree => (ListenerState::Binding, ListenerAction::Bind),
                _ => ignored,
            },
            ListenerState::Clearing => match event {
                ListenerEvent::Removed => (ListenerState::Binding, ListenerAction::Bind),
                ListenerEvent::RemoveFailed => (ListenerState::Failed, ListenerAction::Fail),
                _ => ignored,
            },
            ListenerState::Binding => match event {
                ListenerEvent::Bound => (ListenerState::Accepting, ListenerAction::Accept),
                ListenerEvent::BindFailed => (ListenerState::Failed, ListenerAction::Fail),
                _ => ignored,
            },
            ListenerState::Accepting => match event {
                ListenerEvent::Accepted => (ListenerState::Accepting, ListenerAction::ServeAndAccept),
                ListenerEvent::AcceptFailed => (ListenerState::Stopped, ListenerAction::Finish),
                _ => ignored,
            },
            ListenerState::Stopped => ignored,
            ListenerState::Failed => ignored,
        }
    }
}

/// A connection on which nothing was received gets no reply, nor does one
/// whose bytes are no text, and neither reaches the provider.
pub proof fn lemma_silence_is_unanswered(before: Seq<Call>, after: Seq<Call>, received: Seq<u8>)
    requires
        received.len() == 0 || !valid_utf8(frame_of(received)),
        calls_follow_request(before, after, received),
    ensures
        reply_of(after, received) is None,
        after == before,
{
}

/// Text that is no request is answered with one response, without a call of
/// the provider: status `error`, code 400, and a message that is not empty
/// and contains the diagnostic.
pub proof fn lemma_malformed_is_answered(
    before: Seq<Call>,
    after: Seq<Call>,
    received: Seq<u8>,
    error: DecodeErrorView,
)
    requires
        received_of(received) == ReceivedView::Malformed(error),
        calls_follow_request(before, after, received),
    ensures
        after == before,
        response_to(after, received) == Some(malformed_response(error)),
        reply_of(after, received) == encoded_bytes(malformed_response(error)),
        malformed_response(error).status == status_error(),
        malformed_response(error).code == CODE_BAD_REQUEST,
        malformed_response(error).message.len() > 0,
        contains_text(malformed_response(error).message, error.diagnostic()),
{
    reveal_strlit("Format JSON invalide: ");
    assert("Format JSON invalide: "@.len() > 0);
    lemma_contains_tail("Format JSON invalide: "@, error.diagnostic());
}

/// A request of a kind that names no command is answered with one response,
/// whatever the provider is, and without a call of it: status `error`, code
/// 400, and a message that contains the kind.
pub proof fn lemma_unknown_request_is_answered(
    before: Seq<Call>,
    after: Seq<Call>,
    received: Seq<u8>,
    request: RequestView,
)
    requires
        received_of(received) == ReceivedView::Request(request),
        command_of(request.kind) is None,
        calls_follow_request(before, after, received),
    ensures
        after == before,
        response_to(after, received) == Some(
            ResponseView::bad_request(unknown_message(request.kind)),
        ),
        contains_text(unknown_message(request.kind), request.kind),
{
    lemma_unknown_is_rejected(before, after, request.kind);
}

/// A connection gets a response exactly when text was received on it, and
/// every response is well formed.
pub proof fn lemma_text_is_answered(after: Seq<Call>, received: Seq<u8>)
    ensures
        response_to(after, received) is Some <==> frame_of(received).len() > 0 && valid_utf8(
            frame_of(received),
        ),
        response_to(after, received) matches Some(response) ==> response.is_well_formed(),
{
    if let ReceivedView::Request(request) = received_of(received) {
        lemma_answers_are_well_formed(after, request.kind);
    }
}

/// Handling a connection asks the provider at most once, and only for a
/// request of a kind that names a command.
pub proof fn lemma_only_commands_reach_the_provider(
    before: Seq<Call>,
    after: Seq<Call>,
    received: Seq<u8>,
)
    requires
        calls_follow_request(before, after, received),
    ensures
        before.len() <= after.len() <= before.len() + 1,
        after != before ==> (received_of(received) matches ReceivedView::Request(request)
            && command_of(request.kind) is Some),
{
}

/// The listener binds only a free path: it asks for the bind after it found
/// nothing at the path, or after what was there is removed. An accept error
/// ends it, for good, and an accepted connection leaves it accepting.
pub proof fn lemma_listener_lifecycle(state: ListenerState, event: ListenerEvent)
    ensures
        listener_step(state, event).1 == ListenerAction::Bind <==> (state
            == ListenerState::Probing && event == ListenerEvent::PathFree) || (state
            == ListenerState::Clearing && event == ListenerEvent::Removed),
        listener_step(ListenerState::Accepting, ListenerEvent::AcceptFailed) == (
            ListenerState::Stopped,
            ListenerAction::Finish,
        ),
        listener_step(ListenerState::Accepting, ListenerEvent::Accepted).0
            == ListenerState::Accepting,
        state == ListenerState::Stopped || state == ListenerState::Failed ==> listener_step(
            state,
            event,
        ) == (state, ListenerAction::Ignore),
{
}

} // verus!
