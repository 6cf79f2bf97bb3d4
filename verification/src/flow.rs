//! The interactive credential-acquisition state machine.
//!
//! One live session of the link flow is a sequence of strictly ordered
//! steps: the surrounding loop performs I/O (opens the submission input,
//! waits under a timeout, sends the verification request, sleeps through a
//! cooldown, writes to the credential store) and hands each result back in
//! as a [`FlowEvent`]. Every decision — which state follows, which actions
//! the loop must perform — is taken here, under contract.

use vstd::prelude::*;
use crate::api::ApiError;

verus! {

/// The phase of one live link-flow session.
#[derive(Debug, Clone, PartialEq)]
pub enum FlowState {
    /// The submission affordance is shown; nothing is outstanding.
    Idle,
    /// The submission input is open and the bounded wait runs.
    AwaitingSubmission,
    /// A verification request is in flight for the held credential.
    Verifying { token: String },
    /// The credential verified; the store write is in flight.
    Storing { token: String, username: String },
    /// The remote side rate-limited the attempt; the session sleeps until
    /// the indicated resume time and then ends.
    CoolingDown { resume_at: u64 },
    /// Terminal: the credential was verified and stored.
    Succeeded,
    /// Terminal: the session is over without a stored credential.
    Ended,
}

/// What the surrounding loop observed, handed in as a plain value.
#[derive(Debug, PartialEq)]
pub enum FlowEvent {
    /// The user activated the submission affordance.
    AffordanceActivated,
    /// The bounded wait elapsed, or the user dismissed the input, with
    /// nothing submitted.
    SubmissionTimedOut,
    /// The user submitted a credential string.
    Submitted { token: String },
    /// The verification request finished, classified by the client; `Ok`
    /// carries the verified username.
    VerifyFinished { outcome: Result<String, ApiError> },
    /// The credential store write finished; `Err` carries the store's
    /// diagnostic.
    StoreFinished { result: Result<(), String> },
    /// The cooldown sleep elapsed.
    CooldownElapsed,
    /// The surrounding interaction context closed: the collector is
    /// exhausted or the session was canceled.
    SessionClosed,
}

/// A message the session's editable message is rewritten to.
#[derive(Debug, Clone, PartialEq)]
pub enum Render {
    /// The opening message with the submission affordance.
    Welcome,
    /// Nothing was submitted within the wait; invites a restart.
    NoTokenProvided,
    /// A verification request is under way.
    VerifyingToken,
    /// Terminal confirmation; the footer names the verified username.
    Success { username: String },
    /// The service judged the credential invalid.
    InvalidToken,
    /// A countdown to the remote-indicated resume time, as seconds since
    /// the epoch.
    RateLimitCountdown { resume_at: u64 },
    /// A transport failure, with its diagnostic.
    ConnectionFailed { detail: String },
    /// The service broke its response contract.
    UnknownFailure,
    /// The service answered with an unclassified status code.
    UnexpectedStatus { code: u16 },
    /// The credential verified but could not be saved.
    StoreFailed,
}

/// An effect the surrounding loop must perform after a step.
#[derive(Debug, Clone, PartialEq)]
pub enum FlowAction {
    /// Open the submission input and start the bounded wait.
    OpenSubmission,
    /// Rewrite the session's message.
    Show { render: Render },
    /// Issue the verification request for this credential.
    StartVerify { token: String },
    /// Write this verified pair to the credential store.
    StoreCredential { token: String, username: String },
    /// Sleep for this many seconds.
    Sleep { seconds: u64 },
    /// Delete the session's message.
    DeleteMessage,
    /// Tear the session down; no further events are handed in.
    EndSession,
}

/// What one step decides: the next state, and the actions the loop
/// performs in order.
#[derive(Debug, Clone, PartialEq)]
pub struct FlowStep {
    pub state: FlowState,
    pub actions: Vec<FlowAction>,
}

/// The transition relation of the session, as a function of the current
/// state, the observed event, and the current time in seconds since the
/// epoch (used only to place the rate-limit resume point).
///
/// A mismatched pair — an event the current state has no business
/// receiving, such as a second affordance activation while a verification
/// is in flight — changes nothing: at most one submission input and one
/// verification are ever outstanding per session. `SessionClosed` ends
/// the session from every state without any action, so a canceled attempt
/// never stores anything.
pub open spec fn spec_flow_step(state: FlowState, event: FlowEvent, now: u64) -> (FlowState, Seq<
    FlowAction,
>) {
    match (state, event) {
        (FlowState::Idle, FlowEvent::AffordanceActivated) => (
            FlowState::AwaitingSubmission,
            seq![FlowAction::OpenSubmission],
        ),
        (FlowState::AwaitingSubmission, FlowEvent::SubmissionTimedOut) => (
            FlowState::Idle,
            seq![FlowAction::Show { render: Render::NoTokenProvided }],
        ),
        (FlowState::AwaitingSubmission, FlowEvent::Submitted { token }) => {
            if token@.len() > 0 {
                (
                    FlowState::Verifying { token },
                    seq![
                        FlowAction::Show { render: Render::VerifyingToken },
                        FlowAction::StartVerify { token },
                    ],
                )
            } else {
                (FlowState::Idle, seq![FlowAction::Show { render: Render::NoTokenProvided }])
            }
        },
        (FlowState::Verifying { token }, FlowEvent::VerifyFinished { outcome }) => match outcome {
            Ok(username) => (
                FlowState::Storing { token, username },
                seq![FlowAction::StoreCredential { token, username }],
            ),
            Err(ApiError::TokenInvalid) => (
                FlowState::Idle,
                seq![FlowAction::Show { render: Render::InvalidToken }],
            ),
            Err(ApiError::RateLimited(seconds)) => {
                let resume_at = if now + seconds <= u64::MAX {
                    (now + seconds) as u64
                } else {
                    u64::MAX
                };
                (
                    FlowState::CoolingDown { resume_at },
                    seq![
                        FlowAction::Show { render: Render::RateLimitCountdown { resume_at } },
                        FlowAction::Sleep { seconds },
                    ],
                )
            },
            Err(ApiError::ConnectionError(detail)) => (
                FlowState::Idle,
                seq![FlowAction::Show { render: Render::ConnectionFailed { detail } }],
            ),
            Err(ApiError::Unexpected) => (
                FlowState::Idle,
                seq![FlowAction::Show { render: Render::UnknownFailure }],
            ),
            Err(ApiError::OtherStatus(code)) => (
                FlowState::Idle,
                seq![FlowAction::Show { render: Render::UnexpectedStatus { code } }],
            ),
        },
        (FlowState::Storing { token, username }, FlowEvent::StoreFinished { result }) => match
            result {
            Ok(_) => (
                FlowState::Succeeded,
                seq![
                    FlowAction::Show { render: Render::Success { username } },
                    FlowAction::EndSession,
                ],
            ),
            Err(_) => (
                FlowState::Ended,
                seq![FlowAction::Show { render: Render::StoreFailed }, FlowAction::EndSession],
            ),
        },
        (FlowState::CoolingDown { .. }, FlowEvent::CooldownElapsed) => (
            FlowState::Ended,
            seq![FlowAction::DeleteMessage, FlowAction::EndSession],
        ),
        (_, FlowEvent::SessionClosed) => (FlowState::Ended, Seq::empty()),
        (s, _) => (s, Seq::empty()),
    }
}

/// The opening step of a session: show the welcome message with the
/// submission affordance and start idle.
pub fn flow_start() -> (r: FlowStep)
    ensures
        r.state == FlowState::Idle,
        r.actions@ =~= seq![FlowAction::Show { render: Render::Welcome }],
{
    let mut actions: Vec<FlowAction> = Vec::new();
    actions.push(FlowAction::Show { render: Render::Welcome });
    FlowStep { state: FlowState::Idle, actions }
}

/// Takes one step of the session: exactly the transition relation
/// [`spec_flow_step`].
pub fn flow_step(state: FlowState, event: FlowEvent, now: u64) -> (r: FlowStep)
    ensures
        r.state == spec_flow_step(state, event, now).0,
        r.actions@ == spec_flow_step(state, event, now).1,
{
    let mut actions: Vec<FlowAction> = Vec::new();
    let next = match (state, event) {
        (FlowState::Idle, FlowEvent::AffordanceActivated) => {
            actions.push(FlowAction::OpenSubmission);
            FlowState::AwaitingSubmission
        },
        (FlowState::AwaitingSubmission, FlowEvent::SubmissionTimedOut) => {
            actions.push(FlowAction::Show { render: Render::NoTokenProvided });
            FlowState::Idle
        },
        (FlowState::AwaitingSubmission, FlowEvent::Submitted { token }) => {
            if token.as_str().unicode_len() > 0 {
                actions.push(FlowAction::Show { render: Render::VerifyingToken });
                actions.push(FlowAction::StartVerify { token: token.clone() });
                FlowState::Verifying { token }
            } else {
                actions.push(FlowAction::Show { render: Render::NoTokenProvided });
                FlowState::Idle
            }
        },
        (FlowState::Verifying { token }, FlowEvent::VerifyFinished { outcome }) => match outcome {
            Ok(username) => {
                actions.push(
                    FlowAction::StoreCredential {
                        token: token.clone(),
                        username: username.clone(),
                    },
                );
                FlowState::Storing { token, username }
            },
            Err(ApiError::TokenInvalid) => {
                actions.push(FlowAction::Show { render: Render::InvalidToken });
                FlowState::Idle
            },
            Err(ApiError::RateLimited(seconds)) => {
                let resume_at = if now <= u64::MAX - seconds {
                    now + seconds
                } else {
                    u64::MAX
                };
                actions.push(FlowAction::Show { render: Render::RateLimitCountdown { resume_at } });
                actions.push(FlowAction::Sleep { seconds });
                FlowState::CoolingDown { resume_at }
            },
            Err(ApiError::ConnectionError(detail)) => {
                actions.push(FlowAction::Show { render: Render::ConnectionFailed { detail } });
                FlowState::Idle
            },
            Err(ApiError::Unexpected) => {
                actions.push(FlowAction::Show { render: Render::UnknownFailure });
                FlowState::Idle
            },
            Err(ApiError::OtherStatus(code)) => {
                actions.push(FlowAction::Show { render: Render::UnexpectedStatus { code } });
                FlowState::Idle
            },
        },
        (FlowState::Storing { token, username }, FlowEvent::StoreFinished { result }) => match
            result {
            Ok(_) => {
                actions.push(FlowAction::Show { render: Render::Success { username } });
                actions.push(FlowAction::EndSession);
                FlowState::Succeeded
            },
            Err(_) => {
                actions.push(FlowAction::Show { render: Render::StoreFailed });
                actions.push(FlowAction::EndSession);
                FlowState::Ended
            },
        },
        (FlowState::CoolingDown { .. }, FlowEvent::CooldownElapsed) => {
            actions.push(FlowAction::DeleteMessage);
            actions.push(FlowAction::EndSession);
            FlowState::Ended
        },
        (_, FlowEvent::SessionClosed) => FlowState::Ended,
        (s, _) => s,
    };
    proof {
        assert(actions@ =~= spec_flow_step(state, event, now).1);
    }
    FlowStep { state: next, actions }
}

/// At most one submission input and one verification are outstanding per
/// session: while a submission or a verification is in progress, another
/// affordance activation opens nothing and verifies nothing.
pub proof fn lemma_at_most_one_in_flight(state: FlowState, now: u64)
    requires
        !(state is Idle),
    ensures
        spec_flow_step(state, FlowEvent::AffordanceActivated, now).1 =~= Seq::<FlowAction>::empty(),
{
}

/// A verification request starts only from an armed submission wait that
/// received that very credential, and the credential is not empty.
pub proof fn lemma_verify_starts_only_on_submission(state: FlowState, event: FlowEvent, now: u64)
    ensures
        forall|i: int|
            0 <= i < spec_flow_step(state, event, now).1.len() ==> (#[trigger] spec_flow_step(
                state,
                event,
                now,
            ).1[i] matches FlowAction::StartVerify { token } ==> state
                == FlowState::AwaitingSubmission && event == (FlowEvent::Submitted { token })
                && token@.len() > 0),
{
}

/// A credential reaches the store only from a verification that the
/// client classified as success for that exact credential string, paired
/// with the username that verification returned: no partial or optimistic
/// write exists.
pub proof fn lemma_store_only_after_verification(state: FlowState, event: FlowEvent, now: u64)
    ensures
        forall|i: int|
            0 <= i < spec_flow_step(state, event, now).1.len() ==> (#[trigger] spec_flow_step(
                state,
                event,
                now,
            ).1[i] matches FlowAction::StoreCredential { token, username } ==> state
                == (FlowState::Verifying { token }) && event == (FlowEvent::VerifyFinished {
                outcome: Ok(username),
            })),
{
}

/// A session that receives no submission within the wait returns to
/// `Idle` and remains interactable: the affordance can be activated
/// again, and doing so arms the submission input anew.
pub proof fn lemma_timeout_keeps_session_alive(now_timeout: u64, now_again: u64)
    ensures
        spec_flow_step(FlowState::AwaitingSubmission, FlowEvent::SubmissionTimedOut, now_timeout).0
            == FlowState::Idle,
        spec_flow_step(FlowState::Idle, FlowEvent::AffordanceActivated, now_again).0
            == FlowState::AwaitingSubmission,
        spec_flow_step(FlowState::Idle, FlowEvent::AffordanceActivated, now_again).1
            =~= seq![FlowAction::OpenSubmission],
{
}

/// A successful verification followed by a store failure shows a failure
/// message and never a success message: across both steps, a `Success`
/// render does not occur and the store-failure render does.
pub proof fn lemma_store_failure_is_reported(
    token: String,
    username: String,
    detail: String,
    now_verified: u64,
    now_stored: u64,
)
    ensures
        ({
            let verified = spec_flow_step(
                FlowState::Verifying { token },
                FlowEvent::VerifyFinished { outcome: Ok(username) },
                now_verified,
            );
            let stored = spec_flow_step(
                verified.0,
                FlowEvent::StoreFinished { result: Err(detail) },
                now_stored,
            );
            let shown = verified.1 + stored.1;
            &&& stored.1.contains(FlowAction::Show { render: Render::StoreFailed })
            &&& forall|i: int|
                0 <= i < shown.len() ==> !(#[trigger] shown[i] matches FlowAction::Show {
                    render: Render::Success { .. },
                })
        }),
{
    let verified = spec_flow_step(
        FlowState::Verifying { token },
        FlowEvent::VerifyFinished { outcome: Ok(username) },
        now_verified,
    );
    let stored = spec_flow_step(
        verified.0,
        FlowEvent::StoreFinished { result: Err(detail) },
        now_stored,
    );
    assert(stored.1[0] == (FlowAction::Show { render: Render::StoreFailed }));
}

/// A canceled or exhausted session unwinds without any pending effect: no
/// message is written and nothing is stored.
pub proof fn lemma_cancellation_has_no_effect(state: FlowState, now: u64)
    ensures
        spec_flow_step(state, FlowEvent::SessionClosed, now).0 == FlowState::Ended,
        spec_flow_step(state, FlowEvent::SessionClosed, now).1 =~= Seq::<FlowAction>::empty(),
{
}

/// `Succeeded` and `Ended` are terminal: no event makes a finished
/// session act again, and it never leaves the terminal states.
pub proof fn lemma_terminal_states_act_no_more(state: FlowState, event: FlowEvent, now: u64)
    requires
        state is Succeeded || state is Ended,
    ensures
        spec_flow_step(state, event, now).1 =~= Seq::<FlowAction>::empty(),
        spec_flow_step(state, event, now).0 is Succeeded || spec_flow_step(state, event, now).0
            is Ended,
{
}

/// The cooldown branch is terminal: once the sleep elapses the session
/// ends outright, and no further affordance is offered.
pub proof fn lemma_cooldown_ends_session(resume_at: u64, now: u64)
    ensures
        spec_flow_step(FlowState::CoolingDown { resume_at }, FlowEvent::CooldownElapsed, now).0
            == FlowState::Ended,
        spec_flow_step(FlowState::CoolingDown { resume_at }, FlowEvent::CooldownElapsed, now).1
            =~= seq![FlowAction::DeleteMessage, FlowAction::EndSession],
{
}

} // verus!
