//! One health check of the node: what is asked, and what an answer means.
//!
//! The transport itself lives outside this library. It hands over what it
//! saw as a [`Reply`]; the functions here decide what that reply amounts to.

use crate::lnd::domain::ln_get_info::{LnGetInfo, LnGetInfoView};
use chrono::Utc;
use vstd::prelude::*;
use vstd::string::StringExecFns;

verus! {

/// The path of the status endpoint, below the node's base URL.
pub open spec fn getinfo_path() -> Seq<char> {
    "/v1/getinfo"@
}

/// The only HTTP status that counts as an answer to decode.
pub const STATUS_OK: u16 = 200;

/// How long one request may take, in seconds, before the transport gives up.
pub const REQUEST_TIMEOUT_SECS: u64 = 30;

/// The URL of the status endpoint of the node at `base_url`.
pub fn getinfo_url(base_url: &String) -> (url: String)
    ensures
        url@ == base_url@ + getinfo_path(),
{
    let command = "/v1/getinfo";
    base_url.clone().concat(command)
}

/// What the transport saw of one attempt.
#[derive(Debug, Clone, PartialEq)]
pub enum Reply {
    /// No answer came: the connection failed, the request timed out, or the
    /// body could not be read.
    Unreachable { message: String },
    /// The node answered with this status and this body.
    Answered { status: u16, body: String },
}

/// The mathematical value of a [`Reply`].
pub enum ReplyView {
    Unreachable { message: Seq<char> },
    Answered { status: u16, body: Seq<char> },
}

impl View for Reply {
    type V = ReplyView;

    open spec fn view(&self) -> ReplyView {
        match *self {
            Reply::Unreachable { message } => ReplyView::Unreachable { message: message@ },
            Reply::Answered { status, body } => ReplyView::Answered { status, body: body@ },
        }
    }
}

/// The ways in which one health check can fail.
#[derive(Debug, Clone, Copy, PartialEq, Eq, Structural)]
pub enum FailureKind {
    /// The node could not be reached.
    Transport,
    /// The node answered with a status other than 200.
    Rejected,
    /// The node answered with 200, but the body is no node status.
    Decode,
}

/// A failed health check: its kind, and the text that goes into the log.
#[derive(Debug, Clone, PartialEq)]
pub struct Failure {
    pub kind: FailureKind,
    pub message: String,
}

/// The mathematical value of a [`Failure`].
pub struct FailureView {
    pub kind: FailureKind,
    pub message: Seq<char>,
}

impl View for Failure {
    type V = FailureView;

    open spec fn view(&self) -> FailureView {
        FailureView { kind: self.kind, message: self.message@ }
    }
}

/// How one health check ended.
#[derive(Debug, Clone, PartialEq)]
pub enum FetchOutcome {
    /// The node's status, and the time at which the check succeeded.
    Success { status: LnGetInfo, at: String },
    /// The check failed.
    Failed(Failure),
}

/// The mathematical value of a [`FetchOutcome`].
pub enum FetchOutcomeView {
    Success { status: LnGetInfoView, at: Seq<char> },
    Failed(FailureView),
}

impl View for FetchOutcome {
    type V = FetchOutcomeView;

    open spec fn view(&self) -> FetchOutcomeView {
        match *self {
            FetchOutcome::Success { status, at } => FetchOutcomeView::Success {
                status: status@,
                at: at@,
            },
            FetchOutcome::Failed(failure) => FetchOutcomeView::Failed(failure@),
        }
    }
}

/// What a reply amounts to before anything is decoded.
#[derive(Debug, Clone, PartialEq)]
pub enum Triage {
    /// The check is over already: it failed.
    Concluded(FetchOutcome),
    /// The node answered with 200: this body is to be decoded.
    Decode { body: String },
}

/// The mathematical value of a [`Triage`].
pub enum TriageView {
    Concluded(FetchOutcomeView),
    Decode { body: Seq<char> },
}

impl View for Triage {
    type V = TriageView;

    open spec fn view(&self) -> TriageView {
        match *self {
            Triage::Concluded(outcome) => TriageView::Concluded(outcome@),
            Triage::Decode { body } => TriageView::Decode { body: body@ },
        }
    }
}

/// The outcome of a check that failed in the way `kind`, with `message`.
pub open spec fn failure_of(kind: FailureKind, message: Seq<char>) -> FetchOutcomeView {
    FetchOutcomeView::Failed(FailureView { kind, message })
}

/// What a reply amounts to: no answer is a transport failure with the
/// transport's message; an answer with a status other than 200 is a
/// rejection that carries the body; an answer with 200 is to be decoded.
pub open spec fn triage_of(reply: ReplyView) -> TriageView {
    match reply {
        ReplyView::Unreachable { message } => TriageView::Concluded(
            failure_of(FailureKind::Transport, message),
        ),
        ReplyView::Answered { status, body } => if status == STATUS_OK {
            TriageView::Decode { body }
        } else {
            TriageView::Concluded(failure_of(FailureKind::Rejected, body))
        },
    }
}

/// Classifies the reply to one attempt.
pub fn triage(reply: Reply) -> (verdict: Triage)
    ensures
        verdict@ == triage_of(reply@),
{
    match reply {
        Reply::Unreachable { message } => Triage::Concluded(
            FetchOutcome::Failed(Failure { kind: FailureKind::Transport, message }),
        ),
        Reply::Answered { status, body } => {
            if status == STATUS_OK {
                Triage::Decode { body }
            } else {
                Triage::Concluded(
                    FetchOutcome::Failed(Failure { kind: FailureKind::Rejected, message: body }),
                )
            }
        },
    }
}

/// The view of what the decoder returned: a status, or the decoder's
/// message.
pub open spec fn decoded_view(decoded: Result<LnGetInfo, String>) -> Result<LnGetInfoView, Seq<char>> {
    match decoded {
        Ok(status) => Ok(status@),
        Err(message) => Err(message@),
    }
}

/// The outcome of a check whose body went through the decoder: a decoded
/// status is a success at the time `at`; a refused body is a decode failure
/// with the decoder's message.
pub open spec fn conclusion_of(decoded: Result<LnGetInfoView, Seq<char>>, at: Seq<char>) -> FetchOutcomeView {
    match decoded {
        Ok(status) => FetchOutcomeView::Success { status, at },
        Err(message) => failure_of(FailureKind::Decode, message),
    }
}

/// Concludes a check from what the decoder returned, with `at` as the time
/// of success.
pub fn conclude_at(decoded: Result<LnGetInfo, String>, at: String) -> (outcome: FetchOutcome)
    ensures
        outcome@ == conclusion_of(decoded_view(decoded), at@),
{
    match decoded {
        Ok(status) => FetchOutcome::Success { status, at },
        Err(message) => FetchOutcome::Failed(Failure { kind: FailureKind::Decode, message }),
    }
}

/// `Utc::now` and `DateTime::to_rfc3339`: the current time as text. It
/// differs from call to call, so nothing is claimed of it.
#[verifier::external_body]
fn current_time() -> (now: String) {
    Utc::now().to_rfc3339()
}

/// Concludes a check from what the decoder returned, at the current time:
/// the time is whatever the clock says, the rest is as [`conclude_at`] has
/// it.
pub fn conclude(decoded: Result<LnGetInfo, String>) -> (outcome: FetchOutcome)
    ensures
        exists|at: Seq<char>| outcome@ == conclusion_of(decoded_view(decoded), at),
{
    let now = current_time();
    conclude_at(decoded, now)
}

} // verus!
