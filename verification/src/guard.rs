//! The guard against guessing: a counter of authentication attempts per
//! client. Each attempt adds one. While the count is below the threshold the
//! counter lives a short window longer; from the threshold on it lives the
//! long penalty period, and every attempt is denied until it has lapsed.

use crate::protocol::{error_of, reply_error, Command, CommandView, Reply, ReplyView, Step};
use crate::store::{attempts_key, attempts_key_for, SessionStorageError, SessionStorageErrorView};
use vstd::prelude::*;

verus! {

/// The number of attempts in one window from which attempts are denied.
pub const AUTH_TIMEOUT_ATTEMPTS: u32 = 5;

/// Seconds that the counter lives after an attempt that was allowed.
pub const AUTH_TIMEOUT_PERIOD: u32 = 10;

/// Seconds that the counter lives after an attempt that was denied.
pub const AUTH_PENALTY_PERIOD: u32 = 60;

/// Whether an attempt is denied, given the count that includes it.
pub open spec fn denied(count: nat) -> bool {
    count >= AUTH_TIMEOUT_ATTEMPTS
}

/// The seconds that the counter lives after an attempt, given the count that
/// includes it.
pub open spec fn counter_lifetime(count: nat) -> nat {
    if denied(count) {
        AUTH_PENALTY_PERIOD as nat
    } else {
        AUTH_TIMEOUT_PERIOD as nat
    }
}

/// An attempt being recorded.
#[derive(Debug)]
pub struct Guard {
    key: String,
    verdict: Option<bool>,
}

/// The mathematical content of a [`Guard`].
pub struct GuardView {
    /// The key of the client's counter.
    pub key: Seq<char>,
    /// Whether the attempt is denied, once the count is known.
    pub verdict: Option<bool>,
}

impl View for Guard {
    type V = GuardView;

    closed spec fn view(&self) -> GuardView {
        GuardView { key: self.key@, verdict: self.verdict }
    }
}

/// A step of the guard. The result says whether the attempt is denied.
pub type GuardStep = Step<Guard, Command, Result<bool, SessionStorageError>>;

/// The mathematical content of a step of the guard.
pub type GuardStepView = Step<GuardView, CommandView, Result<bool, SessionStorageErrorView>>;

/// The mathematical content of the result of the guard.
pub open spec fn verdict_view(outcome: Result<bool, SessionStorageError>) -> Result<
    bool,
    SessionStorageErrorView,
> {
    match outcome {
        Ok(denied) => Ok(denied),
        Err(error) => Err(error@),
    }
}

/// The mathematical content of a step of the guard.
pub open spec fn guard_view(step: GuardStep) -> GuardStepView {
    step.view_with(|outcome: Result<bool, SessionStorageError>| verdict_view(outcome))
}

impl Guard {
    /// The first step: add one to the client's counter.
    pub open spec fn spec_begin(client: Seq<char>) -> GuardStepView {
        Step::Send(
            GuardView { key: attempts_key(client), verdict: None },
            CommandView::Increment { key: attempts_key(client) },
        )
    }

    /// The step that a reply leads to: from the count to the expiry of the
    /// counter, and from there to the verdict.
    pub open spec fn spec_resume(machine: GuardView, reply: ReplyView) -> GuardStepView {
        match machine.verdict {
            None => match reply {
                ReplyView::Count(count) => Step::Send(
                    GuardView { key: machine.key, verdict: Some(denied(count)) },
                    CommandView::Expire { key: machine.key, seconds: counter_lifetime(count) },
                ),
                other => Step::Finish(Err(reply_error(other))),
            },
            Some(verdict) => match reply {
                ReplyView::Done => Step::Finish(Ok(verdict)),
                other => Step::Finish(Err(reply_error(other))),
            },
        }
    }

    /// Starts the recording of an attempt by the client with the given
    /// identifier.
    pub(crate) fn begin(client: &str) -> (step: GuardStep)
        ensures
            guard_view(step) == Self::spec_begin(client@),
    {
        let key = attempts_key_for(client);
        let asked = key.clone();
        Step::Send(Guard { key, verdict: None }, Command::Increment { key: asked })
    }

    /// Takes the reply to the command last handed out and says what comes
    /// next. The result is `true` where the attempt is denied.
    pub fn resume(self, reply: Reply) -> (step: GuardStep)
        ensures
            guard_view(step) == Self::spec_resume(self@, reply@),
    {
        match self.verdict {
            None => match reply {
                Reply::Count(count) => {
                    let asked = self.key.clone();
                    if count < AUTH_TIMEOUT_ATTEMPTS {
                        Step::Send(
                            Guard { key: self.key, verdict: Some(false) },
                            Command::Expire { key: asked, seconds: AUTH_TIMEOUT_PERIOD },
                        )
                    } else {
                        Step::Send(
                            Guard { key: self.key, verdict: Some(true) },
                            Command::Expire { key: asked, seconds: AUTH_PENALTY_PERIOD },
                        )
                    }
                },
                other => Step::Finish(Err(error_of(other))),
            },
            Some(verdict) => match reply {
                Reply::Done => Step::Finish(Ok(verdict)),
                other => Step::Finish(Err(error_of(other))),
            },
        }
    }
}

/// Records an authentication attempt of a client and tells whether the
/// client is timed out: the first step of a [`Guard`].
pub fn bruteforce_timeout(client: &str) -> (step: GuardStep)
    ensures
        guard_view(step) == Guard::spec_begin(client@),
{
    Guard::begin(client)
}

} // verus!
