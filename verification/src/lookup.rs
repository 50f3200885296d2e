//! Fetching a session record by its token, and removing one.

use crate::protocol::{
    error_of, option_view, reply_error, Command, CommandView, Reply, ReplyView, Step,
};
use crate::schema::{decode, decode_record, field_list, fields_of};
use crate::sessions::{BaseSession, BaseSessionView};
use crate::store::{session_key, SessionStorageError, SessionStorageErrorView, SessionType};
use vstd::prelude::*;

verus! {

/// A fetch under way: the fields of the record were asked for.
#[derive(Debug)]
pub struct Lookup {
    kind: SessionType,
    token: String,
}

/// The mathematical content of a [`Lookup`].
pub struct LookupView {
    pub kind: SessionType,
    pub token: Seq<char>,
}

impl View for Lookup {
    type V = LookupView;

    closed spec fn view(&self) -> LookupView {
        LookupView { kind: self.kind, token: self.token@ }
    }
}

/// A step of a fetch.
pub type LookupStep = Step<Lookup, Command, Result<Option<BaseSession>, SessionStorageError>>;

/// The mathematical content of a step of a fetch.
pub type LookupStepView = Step<
    LookupView,
    CommandView,
    Result<Option<BaseSessionView>, SessionStorageErrorView>,
>;

/// The mathematical content of the result of a fetch.
pub open spec fn found_view(outcome: Result<Option<BaseSession>, SessionStorageError>) -> Result<
    Option<BaseSessionView>,
    SessionStorageErrorView,
> {
    match outcome {
        Ok(found) => Ok(option_view(found)),
        Err(error) => Err(error@),
    }
}

/// The mathematical content of a step of a fetch.
pub open spec fn lookup_view(step: LookupStep) -> LookupStepView {
    step.view_with(
        |outcome: Result<Option<BaseSession>, SessionStorageError>| found_view(outcome),
    )
}

/// The record that the values of the fields stand for, if they stand for
/// one: a field that is missing makes the whole record missing.
pub open spec fn found(machine: LookupView, values: Seq<Option<crate::store::ValueView>>) -> Option<
    BaseSessionView,
> {
    match decode(machine.kind, values) {
        Some(info) => Some(BaseSessionView { token: machine.token, info }),
        None => None,
    }
}

impl Lookup {
    /// The one command of a fetch: read all the fields of the record that
    /// the token names under the kind.
    pub open spec fn spec_begin(kind: SessionType, token: Seq<char>) -> LookupStepView {
        Step::Send(
            LookupView { kind, token },
            CommandView::ReadFields { key: session_key(kind, token), fields: fields_of(kind) },
        )
    }

    /// The result that the reply leads to.
    pub open spec fn spec_resume(machine: LookupView, reply: ReplyView) -> LookupStepView {
        match reply {
            ReplyView::Values(values) => Step::Finish(Ok(found(machine, values))),
            other => Step::Finish(Err(reply_error(other))),
        }
    }

    /// Starts the fetch of the record that `token` names under `kind`.
    pub fn begin(kind: SessionType, token: &str) -> (step: LookupStep)
        ensures
            lookup_view(step) == Self::spec_begin(kind, token@),
    {
        let key = kind.key_for(token);
        let fields = field_list(kind);
        Step::Send(Lookup { kind, token: token.to_owned() }, Command::ReadFields { key, fields })
    }

    /// Takes the reply and gives the record, `None` where there is none.
    pub fn resume(self, reply: Reply) -> (step: LookupStep)
        ensures
            lookup_view(step) == Self::spec_resume(self@, reply@),
    {
        match reply {
            Reply::Values(values) => {
                match decode_record(self.kind, &values) {
                    Some(info) => Step::Finish(Ok(Some(BaseSession::new(self.token, info)))),
                    None => Step::Finish(Ok(None)),
                }
            },
            other => Step::Finish(Err(error_of(other))),
        }
    }
}

/// A removal under way: the deletion of the key was asked for.
#[derive(Debug)]
pub struct Removal {
    kind: SessionType,
    token: String,
}

impl View for Removal {
    type V = LookupView;

    closed spec fn view(&self) -> LookupView {
        LookupView { kind: self.kind, token: self.token@ }
    }
}

/// A step of a removal.
pub type RemovalStep = Step<Removal, Command, Result<(), SessionStorageError>>;

/// The mathematical content of a step of a removal.
pub type RemovalStepView = Step<LookupView, CommandView, Result<(), SessionStorageErrorView>>;

/// The mathematical content of the result of a removal.
pub open spec fn removed_view(outcome: Result<(), SessionStorageError>) -> Result<
    (),
    SessionStorageErrorView,
> {
    match outcome {
        Ok(()) => Ok(()),
        Err(error) => Err(error@),
    }
}

/// The mathematical content of a step of a removal.
pub open spec fn removal_view(step: RemovalStep) -> RemovalStepView {
    step.view_with(|outcome: Result<(), SessionStorageError>| removed_view(outcome))
}

impl Removal {
    /// The one command of a removal: delete the key, whether or not it
    /// holds a record.
    pub open spec fn spec_begin(kind: SessionType, token: Seq<char>) -> RemovalStepView {
        Step::Send(LookupView { kind, token }, CommandView::Delete { key: session_key(kind, token) })
    }

    /// The result that the reply leads to.
    pub open spec fn spec_resume(machine: LookupView, reply: ReplyView) -> RemovalStepView {
        match reply {
            ReplyView::Done => Step::Finish(Ok(())),
            other => Step::Finish(Err(reply_error(other))),
        }
    }

    /// Starts the removal of the record that `token` names under `kind`.
    pub fn begin(kind: SessionType, token: &str) -> (step: RemovalStep)
        ensures
            removal_view(step) == Self::spec_begin(kind, token@),
    {
        let key = kind.key_for(token);
        Step::Send(Removal { kind, token: token.to_owned() }, Command::Delete { key })
    }

    /// Takes the reply: the record is gone unless the store failed.
    pub fn resume(self, reply: Reply) -> (step: RemovalStep)
        ensures
            removal_view(step) == Self::spec_resume(self@, reply@),
    {
        match reply {
            Reply::Done => Step::Finish(Ok(())),
            other => Step::Finish(Err(error_of(other))),
        }
    }
}

} // verus!
