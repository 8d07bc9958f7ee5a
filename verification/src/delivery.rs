//! One send as a state machine.
//!
//! The machine makes the decisions of a send and leaves the work to its
//! driver. It asks for an action; the driver performs it and hands back what
//! happened as an event; [`step`] answers with the next action. A send first
//! acquires an access token, then builds the envelope and posts it with the
//! token, and reads the answer's text only where the endpoint refused the
//! message. Each failure on the way ends the send with one [`SendError`].

use vstd::prelude::*;
use serde_json::Value;
use crate::apns::ApnsConfig;
use crate::error::SendError;
use crate::json::{json_model, JsonDoc};
use crate::notification::FcmNotification;
use crate::payload::{create_payload, payload_outcome};

verus! {

/// What is to be sent, and where to.
#[derive(Debug)]
pub struct SendRequest {
    pub device_token: String,
    pub notification: Option<FcmNotification>,
    /// The caller's data as the attempt to turn it into a JSON document
    /// left it.
    pub data: Option<Result<Value, serde_json::Error>>,
    pub apns: Option<ApnsConfig>,
    pub url: String,
}

/// Where a send stands.
#[derive(Debug)]
pub enum SendState {
    /// The token provider has been asked for an access token.
    AwaitingToken(SendRequest),
    /// The envelope has been posted.
    AwaitingResponse,
    /// The endpoint answered with this status, which is no success, and the
    /// text of its answer is being read.
    AwaitingBody(u16),
    /// The send has ended.
    Finished,
}

/// What the driver reports.
#[derive(Debug)]
pub enum SendEvent {
    /// The token provider gave this access token.
    TokenAcquired(String),
    /// The token provider failed.
    TokenFailed(String),
    /// The endpoint answered with this status.
    Responded(u16),
    /// The request did not get an answer.
    TransportFailed(String),
    /// The text of the answer.
    BodyRead(String),
    /// The text of the answer could not be read.
    BodyFailed(String),
}

/// What the driver is to do next.
#[derive(Debug)]
pub enum SendAction {
    /// Ask the token provider for its current access token.
    AcquireToken,
    /// Post `body` as JSON to `url`, with `bearer_token` as bearer
    /// authorization.
    Post { url: String, bearer_token: String, body: Value },
    /// Read the text of the answer.
    ReadBody,
    /// Hand this result to the caller. Nothing follows.
    Finish(Result<(), SendError>),
}

/// An action with its texts as sequences and its body as a document.
pub enum ActionView {
    AcquireToken,
    Post { url: Seq<char>, bearer_token: Seq<char>, body: JsonDoc },
    ReadBody,
    Finish(Result<(), SendError>),
}

impl View for SendAction {
    type V = ActionView;

    open spec fn view(&self) -> ActionView {
        match *self {
            SendAction::AcquireToken => ActionView::AcquireToken,
            SendAction::Post { url, bearer_token, body } => ActionView::Post {
                url: url@,
                bearer_token: bearer_token@,
                body: json_model(body),
            },
            SendAction::ReadBody => ActionView::ReadBody,
            SendAction::Finish(r) => ActionView::Finish(r),
        }
    }
}

impl SendRequest {
    /// What building the request's envelope comes to.
    pub open spec fn outcome(self) -> Result<JsonDoc, SendError> {
        payload_outcome(self.device_token@, self.notification, self.data, self.apns)
    }
}

/// The statuses that count as success: 200 to 299.
pub open spec fn success_status(status: u16) -> bool {
    200 <= status < 300
}

/// Whether a status counts as success.
pub fn is_success(status: u16) -> (b: bool)
    ensures
        b == success_status(status),
{
    200 <= status && status < 300
}

/// The address that messages for a project are posted to.
pub open spec fn project_url(project_id: Seq<char>) -> Seq<char> {
    "https://fcm.googleapis.com/v1/projects/"@ + project_id + "/messages:send"@
}

/// The address that messages for a project are posted to.
pub fn fcm_url(project_id: &str) -> (url: String)
    ensures
        url@ == project_url(project_id@),
{
    String::from_str("https://fcm.googleapis.com/v1/projects/").concat(project_id).concat(
        "/messages:send",
    )
}

/// The step of the machine: the state that follows and the action that is
/// asked for, or `None` where the state does not await the event.
///
/// A token ends the wait for it: the envelope is built and posted, or the
/// failure to build it ends the send. A success status ends the send well;
/// any other status has the answer's text read, which then ends the send as
/// a server error. A failure of the token provider ends the send as a token
/// failure, one of the transport or of reading the text as a network
/// failure.
pub open spec fn next(state: SendState, event: SendEvent) -> Option<(SendState, ActionView)> {
    match (state, event) {
        (SendState::AwaitingToken(request), SendEvent::TokenAcquired(token)) => Some(
            match request.outcome() {
                Ok(body) => (
                    SendState::AwaitingResponse,
                    ActionView::Post { url: request.url@, bearer_token: token@, body },
                ),
                Err(e) => (SendState::Finished, ActionView::Finish(Err(e))),
            },
        ),
        (SendState::AwaitingToken(_), SendEvent::TokenFailed(detail)) => Some(
            (SendState::Finished, ActionView::Finish(Err(SendError::TokenAcquisition(detail)))),
        ),
        (SendState::AwaitingResponse, SendEvent::Responded(status)) => Some(
            if success_status(status) {
                (SendState::Finished, ActionView::Finish(Ok(())))
            } else {
                (SendState::AwaitingBody(status), ActionView::ReadBody)
            },
        ),
        (SendState::AwaitingResponse, SendEvent::TransportFailed(detail)) => Some(
            (SendState::Finished, ActionView::Finish(Err(SendError::Network(detail)))),
        ),
        (SendState::AwaitingBody(status), SendEvent::BodyRead(text)) => Some(
            (
                SendState::Finished,
                ActionView::Finish(Err(SendError::ServerError(status, Some(text)))),
            ),
        ),
        (SendState::AwaitingBody(_), SendEvent::BodyFailed(detail)) => Some(
            (SendState::Finished, ActionView::Finish(Err(SendError::Network(detail)))),
        ),
        _ => None,
    }
}

/// The actions that the machine asks for when it is handed the events in
/// turn, from `state` on and up to the first event that is not awaited.
pub open spec fn trace(state: SendState, events: Seq<SendEvent>) -> Seq<ActionView>
    decreases events.len(),
{
    if events.len() == 0 {
        Seq::empty()
    } else {
        match next(state, events[0]) {
            Some((following, action)) => seq![action] + trace(following, events.drop_first()),
            None => Seq::empty(),
        }
    }
}

/// Whether an outcome of [`step`] is the one that [`next`] gives.
pub open spec fn step_matches(
    r: Option<(SendState, SendAction)>,
    expected: Option<(SendState, ActionView)>,
) -> bool {
    match (r, expected) {
        (Some((state, action)), Some((next_state, next_action))) => state == next_state
            && action@ == next_action,
        (None, None) => true,
        _ => false,
    }
}

/// Begins a send to the given address: the token provider is asked first.
pub fn begin_send_with_url(
    device_token: &str,
    notification: Option<FcmNotification>,
    data_payload: Option<Result<Value, serde_json::Error>>,
    apns_config: Option<ApnsConfig>,
    fcm_url: &str,
) -> (r: (SendState, SendAction))
    ensures
        r.1@ == ActionView::AcquireToken,
        r.0 matches SendState::AwaitingToken(request) && request.device_token@ == device_token@
            && request.notification == notification && request.data == data_payload
            && request.apns == apns_config && request.url@ == fcm_url@,
{
    let request = SendRequest {
        device_token: device_token.to_owned(),
        notification,
        data: data_payload,
        apns: apns_config,
        url: fcm_url.to_owned(),
    };
    (SendState::AwaitingToken(request), SendAction::AcquireToken)
}

/// Begins a send for a project, to the address that [`fcm_url`] gives for it.
pub fn begin_send(
    device_token: &str,
    notification: Option<FcmNotification>,
    data_payload: Option<Result<Value, serde_json::Error>>,
    apns_config: Option<ApnsConfig>,
    project_id: &str,
) -> (r: (SendState, SendAction))
    ensures
        r.1@ == ActionView::AcquireToken,
        r.0 matches SendState::AwaitingToken(request) && request.device_token@ == device_token@
            && request.notification == notification && request.data == data_payload
            && request.apns == apns_config && request.url@ == project_url(project_id@),
{
    let url = fcm_url(project_id);
    begin_send_with_url(device_token, notification, data_payload, apns_config, url.as_str())
}

/// Takes one event and says what follows, as [`next`] defines it.
pub fn step(state: SendState, event: SendEvent) -> (r: Option<(SendState, SendAction)>)
    ensures
        step_matches(r, next(state, event)),
{
    match (state, event) {
        (SendState::AwaitingToken(request), SendEvent::TokenAcquired(token)) => {
            let SendRequest { device_token, notification, data, apns, url } = request;
            match create_payload(device_token.as_str(), notification, data, apns) {
                Ok(body) => Some(
                    (SendState::AwaitingResponse, SendAction::Post { url, bearer_token: token, body }),
                ),
                Err(e) => Some((SendState::Finished, SendAction::Finish(Err(e)))),
            }
        },
        (SendState::AwaitingToken(_), SendEvent::TokenFailed(detail)) => Some(
            (SendState::Finished, SendAction::Finish(Err(SendError::TokenAcquisition(detail)))),
        ),
        (SendState::AwaitingResponse, SendEvent::Responded(status)) => {
            if is_success(status) {
                Some((SendState::Finished, SendAction::Finish(Ok(()))))
            } else {
                Some((SendState::AwaitingBody(status), SendAction::ReadBody))
            }
        },
        (SendState::AwaitingResponse, SendEvent::TransportFailed(detail)) => Some(
            (SendState::Finished, SendAction::Finish(Err(SendError::Network(detail)))),
        ),
        (SendState::AwaitingBody(status), SendEvent::BodyRead(text)) => Some(
            (
                SendState::Finished,
                SendAction::Finish(Err(SendError::ServerError(status, Some(text)))),
            ),
        ),
        (SendState::AwaitingBody(_), SendEvent::BodyFailed(detail)) => Some(
            (SendState::Finished, SendAction::Finish(Err(SendError::Network(detail)))),
        ),
        _ => None,
    }
}

/// How many actions a send can still ask for.
pub open spec fn steps_left(state: SendState) -> nat {
    match state {
        SendState::AwaitingToken(_) => 3,
        SendState::AwaitingResponse => 2,
        SendState::AwaitingBody(_) => 1,
        SendState::Finished => 0,
    }
}

/// Every step brings the send nearer to its end, and the send has ended
/// exactly when the step hands out the result.
pub proof fn lemma_step_advances(state: SendState, event: SendEvent)
    ensures
        next(state, event) matches Some((following, action)) ==> {
            &&& steps_left(following) < steps_left(state)
            &&& action is Finish <==> following is Finished
            &&& !(action is AcquireToken)
            &&& action is Post ==> state is AwaitingToken
        },
{
}

/// Once a send has ended, no event is awaited and no action follows.
pub proof fn lemma_finished_awaits_nothing(events: Seq<SendEvent>)
    ensures
        trace(SendState::Finished, events) == Seq::<ActionView>::empty(),
{
}

/// The shape of every run: it is no longer than the state allows, the
/// action that hands out the result is its last, and a request to the
/// endpoint is its first and comes out of the wait for a token.
proof fn lemma_trace_shape(state: SendState, events: Seq<SendEvent>)
    ensures
        trace(state, events).len() <= steps_left(state),
        forall|i: int|
            0 <= i < trace(state, events).len() && (#[trigger] trace(state, events)[i]) is Finish
                ==> i == trace(state, events).len() - 1,
        forall|i: int|
            0 <= i < trace(state, events).len() && (#[trigger] trace(state, events)[i]) is Post
                ==> i == 0 && state is AwaitingToken,
    decreases events.len(),
{
    if events.len() > 0 {
        match next(state, events[0]) {
            Some((following, action)) => {
                let rest = trace(following, events.drop_first());
                lemma_step_advances(state, events[0]);
                lemma_trace_shape(following, events.drop_first());
                lemma_finished_awaits_nothing(events.drop_first());
                assert(trace(state, events) == seq![action] + rest);
                assert forall|i: int|
                    0 <= i < trace(state, events).len() && (#[trigger] trace(
                        state,
                        events,
                    )[i]) is Finish implies i == trace(state, events).len() - 1 by {
                    if i > 0 {
                        assert(trace(state, events)[i] == rest[i - 1]);
                    }
                }
                assert forall|i: int|
                    0 <= i < trace(state, events).len() && (#[trigger] trace(
                        state,
                        events,
                    )[i]) is Post implies i == 0 && state is AwaitingToken by {
                    if i > 0 {
                        assert(trace(state, events)[i] == rest[i - 1]);
                    }
                }
            },
            None => {},
        }
    }
}

/// A send asks for at most three actions after the token request, and the
/// action that hands out the result is the last one.
pub proof fn lemma_send_ends(request: SendRequest, events: Seq<SendEvent>)
    ensures
        trace(SendState::AwaitingToken(request), events).len() <= 3,
        forall|i: int|
            0 <= i < trace(SendState::AwaitingToken(request), events).len() && (#[trigger] trace(
                SendState::AwaitingToken(request),
                events,
            )[i]) is Finish ==> i == trace(SendState::AwaitingToken(request), events).len() - 1,
{
    lemma_trace_shape(SendState::AwaitingToken(request), events);
}

/// A request is posted only as the answer to a token, and only where the
/// envelope could be built; it then goes to the request's address with that
/// token and that envelope. Nothing is posted a second time.
pub proof fn lemma_post_needs_token_and_envelope(
    request: SendRequest,
    events: Seq<SendEvent>,
    i: int,
)
    requires
        0 <= i < trace(SendState::AwaitingToken(request), events).len(),
        trace(SendState::AwaitingToken(request), events)[i] is Post,
    ensures
        i == 0,
        events.len() > 0,
        events[0] matches SendEvent::TokenAcquired(token) && request.outcome() matches Ok(body)
            && trace(SendState::AwaitingToken(request), events)[0] == (ActionView::Post {
            url: request.url@,
            bearer_token: token@,
            body,
        }),
{
    lemma_trace_shape(SendState::AwaitingToken(request), events);
}

/// A run that begins with `event` goes on from the state that follows it.
proof fn lemma_trace_unfolds(state: SendState, event: SendEvent, later: Seq<SendEvent>)
    ensures
        trace(state, seq![event] + later) == match next(state, event) {
            Some((following, action)) => seq![action] + trace(following, later),
            None => Seq::empty(),
        },
{
    let events = seq![event] + later;
    assert(events[0] == event);
    assert(events.drop_first() =~= later);
}

/// A message that the endpoint accepts: with a token and an envelope, the
/// envelope is posted to the request's address with that token, and a
/// success status ends the send well. The answer is not read.
pub proof fn lemma_accepted_message_succeeds(
    request: SendRequest,
    token: String,
    status: u16,
    later: Seq<SendEvent>,
)
    requires
        request.outcome() is Ok,
        success_status(status),
    ensures
        trace(
            SendState::AwaitingToken(request),
            seq![SendEvent::TokenAcquired(token), SendEvent::Responded(status)] + later,
        ) == seq![
            ActionView::Post {
                url: request.url@,
                bearer_token: token@,
                body: request.outcome()->Ok_0,
            },
            ActionView::Finish(Ok(())),
        ],
{
    let first = SendEvent::TokenAcquired(token);
    let second = SendEvent::Responded(status);
    assert(seq![first, second] + later =~= seq![first] + (seq![second] + later));
    lemma_trace_unfolds(SendState::AwaitingToken(request), first, seq![second] + later);
    lemma_trace_unfolds(SendState::AwaitingResponse, second, later);
    lemma_finished_awaits_nothing(later);
}

/// A message that the endpoint refuses: a status outside the success range
/// has the answer's text read, and the send ends as a server error with
/// that status and that text.
pub proof fn lemma_refused_message_is_a_server_error(
    request: SendRequest,
    token: String,
    status: u16,
    text: String,
    later: Seq<SendEvent>,
)
    requires
        request.outcome() is Ok,
        !success_status(status),
    ensures
        trace(
            SendState::AwaitingToken(request),
            seq![
                SendEvent::TokenAcquired(token),
                SendEvent::Responded(status),
                SendEvent::BodyRead(text),
            ] + later,
        ) == seq![
            ActionView::Post {
                url: request.url@,
                bearer_token: token@,
                body: request.outcome()->Ok_0,
            },
            ActionView::ReadBody,
            ActionView::Finish(Err(SendError::ServerError(status, Some(text)))),
        ],
{
    let first = SendEvent::TokenAcquired(token);
    let second = SendEvent::Responded(status);
    let third = SendEvent::BodyRead(text);
    assert(seq![first, second, third] + later =~= seq![first] + (seq![second] + (seq![third]
        + later)));
    lemma_trace_unfolds(
        SendState::AwaitingToken(request),
        first,
        seq![second] + (seq![third] + later),
    );
    lemma_trace_unfolds(SendState::AwaitingResponse, second, seq![third] + later);
    lemma_trace_unfolds(SendState::AwaitingBody(status), third, later);
    lemma_finished_awaits_nothing(later);
}

/// A request that gets no answer ends the send as a network failure with
/// the transport's description.
pub proof fn lemma_unanswered_request_is_a_network_error(
    request: SendRequest,
    token: String,
    detail: String,
    later: Seq<SendEvent>,
)
    requires
        request.outcome() is Ok,
    ensures
        trace(
            SendState::AwaitingToken(request),
            seq![SendEvent::TokenAcquired(token), SendEvent::TransportFailed(detail)] + later,
        ) == seq![
            ActionView::Post {
                url: request.url@,
                bearer_token: token@,
                body: request.outcome()->Ok_0,
            },
            ActionView::Finish(Err(SendError::Network(detail))),
        ],
{
    let first = SendEvent::TokenAcquired(token);
    let failed = SendEvent::TransportFailed(detail);
    assert(seq![first, failed] + later =~= seq![first] + (seq![failed] + later));
    lemma_trace_unfolds(SendState::AwaitingToken(request), first, seq![failed] + later);
    lemma_trace_unfolds(SendState::AwaitingResponse, failed, later);
    lemma_finished_awaits_nothing(later);
}

/// A refusal whose text cannot be read ends the send as a network failure
/// with the transport's description, not as a server error.
pub proof fn lemma_unreadable_answer_is_a_network_error(
    request: SendRequest,
    token: String,
    status: u16,
    detail: String,
    later: Seq<SendEvent>,
)
    requires
        request.outcome() is Ok,
        !success_status(status),
    ensures
        trace(
            SendState::AwaitingToken(request),
            seq![
                SendEvent::TokenAcquired(token),
                SendEvent::Responded(status),
                SendEvent::BodyFailed(detail),
            ] + later,
        ) == seq![
            ActionView::Post {
                url: request.url@,
                bearer_token: token@,
                body: request.outcome()->Ok_0,
            },
            ActionView::ReadBody,
            ActionView::Finish(Err(SendError::Network(detail))),
        ],
{
    let first = SendEvent::TokenAcquired(token);
    let second = SendEvent::Responded(status);
    let third = SendEvent::BodyFailed(detail);
    assert(seq![first, second, third] + later =~= seq![first] + (seq![second] + (seq![third]
        + later)));
    lemma_trace_unfolds(
        SendState::AwaitingToken(request),
        first,
        seq![second] + (seq![third] + later),
    );
    lemma_trace_unfolds(SendState::AwaitingResponse, second, seq![third] + later);
    lemma_trace_unfolds(SendState::AwaitingBody(status), third, later);
    lemma_finished_awaits_nothing(later);
}

/// A message whose envelope cannot be built is not posted: the token is
/// answered with the failure of the build, which ends the send.
pub proof fn lemma_build_failure_ends_the_send(
    request: SendRequest,
    token: String,
    later: Seq<SendEvent>,
)
    requires
        request.outcome() is Err,
    ensures
        trace(SendState::AwaitingToken(request), seq![SendEvent::TokenAcquired(token)] + later)
            == seq![ActionView::Finish(Err(request.outcome()->Err_0))],
{
    lemma_trace_unfolds(SendState::AwaitingToken(request), SendEvent::TokenAcquired(token), later);
    lemma_finished_awaits_nothing(later);
}

/// A message with nothing to deliver is never posted: whatever the driver
/// reports, no action of the send is a request to the endpoint, and a token
/// is answered with the invalid-payload failure.
pub proof fn lemma_nothing_to_send_is_never_posted(request: SendRequest, events: Seq<SendEvent>)
    requires
        request.notification is None,
        request.data is None,
        request.apns is None,
    ensures
        forall|i: int|
            0 <= i < trace(SendState::AwaitingToken(request), events).len() ==> !((
            #[trigger] trace(SendState::AwaitingToken(request), events)[i]) is Post),
        forall|token: String| #[trigger]
            next(SendState::AwaitingToken(request), SendEvent::TokenAcquired(token)) == Some(
                (SendState::Finished, ActionView::Finish(Err(SendError::InvalidPayload))),
            ),
{
    assert forall|i: int|
        0 <= i < trace(SendState::AwaitingToken(request), events).len() implies !((
    #[trigger] trace(SendState::AwaitingToken(request), events)[i]) is Post) by {
        if trace(SendState::AwaitingToken(request), events)[i] is Post {
            lemma_post_needs_token_and_envelope(request, events, i);
        }
    }
}

/// Where the token provider fails, the send ends with that failure and
/// nothing is posted, whatever is reported afterwards.
pub proof fn lemma_token_failure_ends_the_send(
    request: SendRequest,
    detail: String,
    later: Seq<SendEvent>,
)
    ensures
        trace(SendState::AwaitingToken(request), seq![SendEvent::TokenFailed(detail)] + later)
            == seq![ActionView::Finish(Err(SendError::TokenAcquisition(detail)))],
{
    lemma_trace_unfolds(SendState::AwaitingToken(request), SendEvent::TokenFailed(detail), later);
    lemma_finished_awaits_nothing(later);
}

} // verus!
