//! Creating a session record: claim a key that no record holds yet, fill the
//! record in, and give it its time to live.
//!
//! A candidate token is tried in five steps. The key is probed; the field
//! that tells records apart is set unless it is already set; the field is
//! read back and compared with what was written; the other fields are
//! written; the key's expiry is set. A candidate whose key is taken, or
//! whose field reads back as another's, is dropped for a fresh one.

use crate::protocol::{
    error_of, reply_error, result_view, Command, CommandView, Reply, ReplyView, Step,
};
use crate::sessions::{BaseSession, BaseSessionView};
use crate::store::{
    internal_error, session_key, SessionCreationError, SessionCreationErrorView, SessionInfo,
    SessionInfoView, SessionStorageError, SessionStorageErrorView, StorageFault, Value, ValueView,
};
use crate::token::{generate_token, is_token};
use vstd::prelude::*;

verus! {

/// How many candidate tokens one creation tries before it gives up. A taken
/// candidate is all but impossible; the limit is there so that a store that
/// calls every key taken is noticed.
pub const MAX_ATTEMPTS: u32 = 1000;

/// Where a creation stands with its current candidate.
#[derive(Clone, Copy, Debug, PartialEq, Eq, Structural)]
pub enum CreationPhase {
    /// Asked whether the key is taken.
    Probing,
    /// Asked to set the telling field unless it is set.
    Claiming,
    /// Asked to read the telling field back.
    Confirming,
    /// Asked to write the other fields.
    Filling,
    /// Asked to set the expiry.
    Expiring,
}

/// A creation under way.
#[derive(Debug)]
pub struct Creation {
    info: SessionInfo,
    seconds: u32,
    token: String,
    attempts: u32,
    phase: CreationPhase,
}

/// The mathematical content of a [`Creation`].
pub struct CreationView {
    /// What the record is to hold.
    pub info: SessionInfoView,
    /// The time to live that the record is to get.
    pub seconds: nat,
    /// The candidate token.
    pub token: Seq<char>,
    /// How many candidates were tried, this one included.
    pub attempts: nat,
    pub phase: CreationPhase,
}

impl View for Creation {
    type V = CreationView;

    closed spec fn view(&self) -> CreationView {
        CreationView {
            info: self.info@,
            seconds: self.seconds as nat,
            token: self.token@,
            attempts: self.attempts as nat,
            phase: self.phase,
        }
    }
}

/// A step of a creation.
pub type CreationStep = Step<Creation, Command, Result<BaseSession, SessionStorageError>>;

/// The mathematical content of a step of a creation.
pub type CreationStepView = Step<
    CreationView,
    CommandView,
    Result<BaseSessionView, SessionStorageErrorView>,
>;

/// The mathematical content of a step of a creation.
pub open spec fn creation_view(step: CreationStep) -> CreationStepView {
    step.view_with(|outcome: Result<BaseSession, SessionStorageError>| result_view(outcome))
}

/// What the read-back of the telling field says of a claim: the record is
/// ours if the field holds what was written, another's if it holds
/// something else.
pub open spec fn claim_outcome(written: ValueView, reply: ReplyView) -> Result<
    (),
    SessionCreationErrorView,
> {
    match reply {
        ReplyView::Values(values) => if values.len() == 1 && values[0] is Some {
            if values[0] == Some(written) {
                Ok(())
            } else {
                Err(SessionCreationErrorView::Duplicate)
            }
        } else {
            Err(
                SessionCreationErrorView::StorageError(
                    internal_error(StorageFault::UnexpectedReply),
                ),
            )
        },
        other => Err(SessionCreationErrorView::StorageError(reply_error(other))),
    }
}

/// Judges a claim by the read-back of the telling field.
pub fn confirm_claim(written: &Value, reply: Reply) -> (outcome: Result<(), SessionCreationError>)
    ensures
        match outcome {
            Ok(()) => claim_outcome(written@, reply@) == Ok::<(), SessionCreationErrorView>(()),
            Err(error) => claim_outcome(written@, reply@) == Err::<(), SessionCreationErrorView>(
                error@,
            ),
        },
{
    match reply {
        Reply::Values(values) => {
            assert(values.deep_view().len() == values.len());
            if values.len() == 1 {
                assert(values.deep_view()[0] == values[0].deep_view());
                match &values[0] {
                    Some(read) => {
                        if read.same(written) {
                            Ok(())
                        } else {
                            Err(SessionCreationError::Duplicate)
                        }
                    },
                    None => Err(
                        SessionCreationError::StorageError(
                            SessionStorageError::of(StorageFault::UnexpectedReply),
                        ),
                    ),
                }
            } else {
                Err(
                    SessionCreationError::StorageError(
                        SessionStorageError::of(StorageFault::UnexpectedReply),
                    ),
                )
            }
        },
        other => Err(SessionCreationError::StorageError(error_of(other))),
    }
}

/// Whether the read-back of the telling field shows the record to be
/// another's.
pub fn claim_is_taken(written: &Value, reply: &Reply) -> (taken: bool)
    ensures
        taken == (claim_outcome(written@, reply@) == Err::<(), SessionCreationErrorView>(
            SessionCreationErrorView::Duplicate,
        )),
{
    match reply {
        Reply::Values(values) => {
            assert(values.deep_view().len() == values.len());
            if values.len() == 1 {
                assert(values.deep_view()[0] == values[0].deep_view());
                match &values[0] {
                    Some(read) => !read.same(written),
                    None => false,
                }
            } else {
                false
            }
        },
        _ => false,
    }
}

impl CreationView {
    /// The key that the candidate token names.
    pub open spec fn key(self) -> Seq<char> {
        session_key(self.info.kind(), self.token)
    }

    /// The same creation in another phase.
    pub open spec fn in_phase(self, phase: CreationPhase) -> CreationView {
        CreationView { phase, ..self }
    }

    /// Whether the step that `reply` leads to takes a fresh candidate: the
    /// current one was found taken, at the probe or at the read-back, and
    /// the creation has not yet tried all it may.
    pub open spec fn needs_token(self, reply: ReplyView) -> bool {
        self.attempts < MAX_ATTEMPTS && match self.phase {
            CreationPhase::Probing => reply == ReplyView::Exists(true),
            CreationPhase::Confirming => claim_outcome(self.info.discriminator().1, reply) == Err::<
                (),
                SessionCreationErrorView,
            >(SessionCreationErrorView::Duplicate),
            _ => false,
        }
    }
}

impl Creation {
    /// The first step of a creation: probe the key of the first candidate.
    pub open spec fn spec_begin(info: SessionInfoView, seconds: nat, token: Seq<char>)
        -> CreationStepView {
        Step::Send(
            CreationView { info, seconds, token, attempts: 1, phase: CreationPhase::Probing },
            CommandView::Exists { key: session_key(info.kind(), token) },
        )
    }

    /// The step after a candidate was found taken: probe the next one, or
    /// give up after [`MAX_ATTEMPTS`] candidates.
    pub open spec fn spec_retry(machine: CreationView, fresh: Seq<char>) -> CreationStepView {
        if machine.attempts >= MAX_ATTEMPTS {
            Step::Finish(Err(internal_error(StorageFault::TokensExhausted)))
        } else {
            Step::Send(
                CreationView {
                    token: fresh,
                    attempts: machine.attempts + 1,
                    phase: CreationPhase::Probing,
                    ..machine
                },
                CommandView::Exists { key: session_key(machine.info.kind(), fresh) },
            )
        }
    }

    /// The step that a reply leads to. `fresh` is the candidate to go on
    /// with if the current one turns out to be taken.
    pub open spec fn spec_resume(machine: CreationView, reply: ReplyView, fresh: Seq<char>)
        -> CreationStepView {
        match machine.phase {
            CreationPhase::Probing => match reply {
                ReplyView::Exists(true) => Self::spec_retry(machine, fresh),
                ReplyView::Exists(false) => Step::Send(
                    machine.in_phase(CreationPhase::Claiming),
                    CommandView::SetIfAbsent {
                        key: machine.key(),
                        field: machine.info.discriminator().0,
                        value: machine.info.discriminator().1,
                    },
                ),
                other => Step::Finish(Err(reply_error(other))),
            },
            CreationPhase::Claiming => match reply {
                ReplyView::Done => Step::Send(
                    machine.in_phase(CreationPhase::Confirming),
                    CommandView::ReadFields {
                        key: machine.key(),
                        fields: seq![machine.info.discriminator().0],
                    },
                ),
                other => Step::Finish(Err(reply_error(other))),
            },
            CreationPhase::Confirming => match claim_outcome(
                machine.info.discriminator().1,
                reply,
            ) {
                Ok(()) => Step::Send(
                    machine.in_phase(CreationPhase::Filling),
                    CommandView::WriteFields {
                        key: machine.key(),
                        entries: machine.info.remainder(),
                    },
                ),
                Err(SessionCreationErrorView::Duplicate) => Self::spec_retry(machine, fresh),
                Err(SessionCreationErrorView::StorageError(error)) => Step::Finish(Err(error)),
            },
            CreationPhase::Filling => match reply {
                ReplyView::Done => Step::Send(
                    machine.in_phase(CreationPhase::Expiring),
                    CommandView::Expire { key: machine.key(), seconds: machine.seconds },
                ),
                other => Step::Finish(Err(reply_error(other))),
            },
            CreationPhase::Expiring => match reply {
                ReplyView::Done => Step::Finish(
                    Ok(BaseSessionView { token: machine.token, info: machine.info }),
                ),
                other => Step::Finish(Err(reply_error(other))),
            },
        }
    }

    /// Starts a creation with a given first candidate.
    pub(crate) fn begin_with(info: SessionInfo, seconds: u32, token: String) -> (step: CreationStep)
        ensures
            creation_view(step) == Self::spec_begin(info@, seconds as nat, token@),
    {
        let key = info.session_type().key_for(token.as_str());
        Step::Send(
            Creation { info, seconds, token, attempts: 1, phase: CreationPhase::Probing },
            Command::Exists { key },
        )
    }

    /// Starts a creation with a freshly generated candidate. It ends at once
    /// with `NoRandomness` if the operating system gives no random bytes.
    pub(crate) fn begin(info: SessionInfo, seconds: u32) -> (step: CreationStep)
        ensures
            creation_view(step) == Step::<
                CreationView,
                CommandView,
                Result<BaseSessionView, SessionStorageErrorView>,
            >::Finish(Err(internal_error(StorageFault::NoRandomness))) || exists|token: Seq<char>|
                is_token(token) && creation_view(step) == #[trigger] Self::spec_begin(
                    info@,
                    seconds as nat,
                    token,
                ),
    {
        match generate_token() {
            Some(token) => {
                let ghost text = token@;
                let step = Self::begin_with(info, seconds, token);
                assert(creation_view(step) == Self::spec_begin(info@, seconds as nat, text));
                step
            },
            None => Step::Finish(Err(SessionStorageError::of(StorageFault::NoRandomness))),
        }
    }

    fn key(&self) -> (key: String)
        ensures
            key@ == self@.key(),
    {
        self.info.session_type().key_for(self.token.as_str())
    }

    fn in_phase(self, phase: CreationPhase) -> (next: Creation)
        ensures
            next@ == self@.in_phase(phase),
    {
        Creation {
            info: self.info,
            seconds: self.seconds,
            token: self.token,
            attempts: self.attempts,
            phase,
        }
    }

    fn retry(self, fresh: String) -> (step: CreationStep)
        ensures
            creation_view(step) == Self::spec_retry(self@, fresh@),
    {
        if self.attempts >= MAX_ATTEMPTS {
            Step::Finish(Err(SessionStorageError::of(StorageFault::TokensExhausted)))
        } else {
            let key = self.info.session_type().key_for(fresh.as_str());
            Step::Send(
                Creation {
                    info: self.info,
                    seconds: self.seconds,
                    token: fresh,
                    attempts: self.attempts + 1,
                    phase: CreationPhase::Probing,
                },
                Command::Exists { key },
            )
        }
    }

    /// Whether the step that `reply` leads to takes a fresh candidate.
    pub fn needs_token(&self, reply: &Reply) -> (needs: bool)
        ensures
            needs == self@.needs_token(reply@),
    {
        if self.attempts >= MAX_ATTEMPTS {
            return false;
        }
        match self.phase {
            CreationPhase::Probing => match reply {
                Reply::Exists(true) => true,
                _ => false,
            },
            CreationPhase::Confirming => {
                let (_, written) = self.info.discriminator();
                claim_is_taken(&written, reply)
            },
            _ => false,
        }
    }

    /// Takes the reply to the command last handed out and says what comes
    /// next. `fresh` is the candidate to go on with if the current one turns
    /// out to be taken; it is not looked at otherwise.
    pub fn resume_with(self, reply: Reply, fresh: String) -> (step: CreationStep)
        ensures
            creation_view(step) == Self::spec_resume(self@, reply@, fresh@),
    {
        match self.phase {
            CreationPhase::Probing => match reply {
                Reply::Exists(true) => self.retry(fresh),
                Reply::Exists(false) => {
                    let key = self.key();
                    let (field, value) = self.info.discriminator();
                    Step::Send(
                        self.in_phase(CreationPhase::Claiming),
                        Command::SetIfAbsent { key, field, value },
                    )
                },
                other => Step::Finish(Err(error_of(other))),
            },
            CreationPhase::Claiming => match reply {
                Reply::Done => {
                    let key = self.key();
                    let (field, _) = self.info.discriminator();
                    let fields = vec![field];
                    assert(fields@ =~= seq![self@.info.discriminator().0]);
                    Step::Send(
                        self.in_phase(CreationPhase::Confirming),
                        Command::ReadFields { key, fields },
                    )
                },
                other => Step::Finish(Err(error_of(other))),
            },
            CreationPhase::Confirming => {
                let (_, written) = self.info.discriminator();
                match confirm_claim(&written, reply) {
                    Ok(()) => {
                        let key = self.key();
                        let entries = self.info.remainder();
                        Step::Send(
                            self.in_phase(CreationPhase::Filling),
                            Command::WriteFields { key, entries },
                        )
                    },
                    Err(SessionCreationError::Duplicate) => self.retry(fresh),
                    Err(SessionCreationError::StorageError(error)) => Step::Finish(Err(error)),
                }
            },
            CreationPhase::Filling => match reply {
                Reply::Done => {
                    let key = self.key();
                    let seconds = self.seconds;
                    Step::Send(
                        self.in_phase(CreationPhase::Expiring),
                        Command::Expire { key, seconds },
                    )
                },
                other => Step::Finish(Err(error_of(other))),
            },
            CreationPhase::Expiring => match reply {
                Reply::Done => Step::Finish(Ok(BaseSession::new(self.token, self.info))),
                other => Step::Finish(Err(error_of(other))),
            },
        }
    }

    /// Takes the reply to the command last handed out and says what comes
    /// next. A fresh candidate is generated only where the reply calls for
    /// one; if the operating system then gives no random bytes, the creation
    /// ends with `NoRandomness`.
    pub fn resume(self, reply: Reply) -> (step: CreationStep)
        ensures
            !self@.needs_token(reply@) ==> creation_view(step) == Self::spec_resume(
                self@,
                reply@,
                Seq::empty(),
            ),
            self@.needs_token(reply@) ==> creation_view(step) == Step::<
                CreationView,
                CommandView,
                Result<BaseSessionView, SessionStorageErrorView>,
            >::Finish(Err(internal_error(StorageFault::NoRandomness))) || exists|fresh: Seq<char>|
                is_token(fresh) && creation_view(step) == #[trigger] Self::spec_resume(
                    self@,
                    reply@,
                    fresh,
                ),
    {
        if self.needs_token(&reply) {
            match generate_token() {
                Some(fresh) => {
                    let ghost text = fresh@;
                    let ghost before = self@;
                    let step = self.resume_with(reply, fresh);
                    assert(creation_view(step) == Self::spec_resume(before, reply@, text));
                    step
                },
                None => Step::Finish(Err(SessionStorageError::of(StorageFault::NoRandomness))),
            }
        } else {
            self.resume_with(reply, String::new())
        }
    }
}

} // verus!
