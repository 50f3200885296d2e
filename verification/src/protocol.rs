//! The conversation between the engine and whoever talks to the session
//! store for it: the commands the engine hands out, the replies it takes
//! back, and the shape of one step of a machine.

use crate::store::{Field, SessionStorageError, StorageFault, Value, ValueView};
use vstd::prelude::*;

verus! {

/// One operation on a single key of the session store.
#[derive(Debug, PartialEq, Eq)]
pub enum Command {
    /// Ask whether the key holds anything.
    Exists { key: String },
    /// Set one field of the record unless the field is already set.
    SetIfAbsent { key: String, field: Field, value: Value },
    /// Read the named fields of the record, in the order given.
    ReadFields { key: String, fields: Vec<Field> },
    /// Set the given fields of the record, whatever they held.
    WriteFields { key: String, entries: Vec<(Field, Value)> },
    /// Let the key lapse after the given number of seconds.
    Expire { key: String, seconds: u32 },
    /// Remove the key and all it holds.
    Delete { key: String },
    /// Add one to the counter under the key and report the new count.
    Increment { key: String },
}

/// The mathematical content of a [`Command`].
pub enum CommandView {
    Exists { key: Seq<char> },
    SetIfAbsent { key: Seq<char>, field: Field, value: ValueView },
    ReadFields { key: Seq<char>, fields: Seq<Field> },
    WriteFields { key: Seq<char>, entries: Seq<(Field, ValueView)> },
    Expire { key: Seq<char>, seconds: nat },
    Delete { key: Seq<char> },
    Increment { key: Seq<char> },
}

impl View for Command {
    type V = CommandView;

    open spec fn view(&self) -> CommandView {
        match *self {
            Command::Exists { key } => CommandView::Exists { key: key@ },
            Command::SetIfAbsent { key, field, value } => CommandView::SetIfAbsent {
                key: key@,
                field,
                value: value@,
            },
            Command::ReadFields { key, fields } => CommandView::ReadFields {
                key: key@,
                fields: fields@,
            },
            Command::WriteFields { key, entries } => CommandView::WriteFields {
                key: key@,
                entries: entries.deep_view(),
            },
            Command::Expire { key, seconds } => CommandView::Expire {
                key: key@,
                seconds: seconds as nat,
            },
            Command::Delete { key } => CommandView::Delete { key: key@ },
            Command::Increment { key } => CommandView::Increment { key: key@ },
        }
    }
}

/// What came back from the store for one command.
#[derive(Debug, PartialEq, Eq)]
pub enum Reply {
    /// To `Exists`: whether the key holds anything.
    Exists(bool),
    /// To a command that only writes: it was carried out.
    Done,
    /// To `ReadFields`: one value per field asked for, `None` where the
    /// record lacks the field.
    Values(Vec<Option<Value>>),
    /// To `Increment`: the count after the increment.
    Count(u32),
    /// The store could not be reached or reported a failure; the text is
    /// the store's own.
    Failed(String),
}

/// The mathematical content of a [`Reply`].
pub enum ReplyView {
    Exists(bool),
    Done,
    Values(Seq<Option<ValueView>>),
    Count(nat),
    Failed(Seq<char>),
}

impl View for Reply {
    type V = ReplyView;

    open spec fn view(&self) -> ReplyView {
        match *self {
            Reply::Exists(present) => ReplyView::Exists(present),
            Reply::Done => ReplyView::Done,
            Reply::Values(values) => ReplyView::Values(values.deep_view()),
            Reply::Count(count) => ReplyView::Count(count as nat),
            Reply::Failed(detail) => ReplyView::Failed(detail@),
        }
    }
}

/// One step of a machine: either the next thing to ask, with the state to
/// resume from, or the end, with the result.
#[derive(Debug)]
pub enum Step<M, C, T> {
    Send(M, C),
    Finish(T),
}

impl<M: View, C: View, T> Step<M, C, T> {
    /// The mathematical content of a step, the result seen through `result`.
    pub open spec fn view_with<U>(self, result: spec_fn(T) -> U) -> Step<M::V, C::V, U> {
        match self {
            Step::Send(machine, command) => Step::Send(machine@, command@),
            Step::Finish(outcome) => Step::Finish(result(outcome)),
        }
    }
}

/// The content of an optional value.
pub open spec fn option_view<T: View>(value: Option<T>) -> Option<T::V> {
    match value {
        Some(inner) => Some(inner@),
        None => None,
    }
}

/// The content of a result whose two sides both have content.
pub open spec fn result_view<T: View, E: View>(value: Result<T, E>) -> Result<T::V, E::V> {
    match value {
        Ok(inner) => Ok(inner@),
        Err(error) => Err(error@),
    }
}

/// The error that stands for a failure reported by the store.
pub open spec fn backend_error(detail: Seq<char>) -> crate::store::SessionStorageErrorView {
    crate::store::SessionStorageErrorView { fault: StorageFault::Backend, detail }
}

/// The error with which a machine ends when `reply` cannot be the reply it
/// waits for: the store's own failure, or a reply of the wrong shape.
pub open spec fn reply_error(reply: ReplyView) -> crate::store::SessionStorageErrorView {
    match reply {
        ReplyView::Failed(detail) => backend_error(detail),
        _ => crate::store::internal_error(StorageFault::UnexpectedReply),
    }
}

/// Turns a reply that a machine cannot use into the error it ends with.
pub fn error_of(reply: Reply) -> (error: SessionStorageError)
    ensures
        error@ == reply_error(reply@),
{
    match reply {
        Reply::Failed(detail) => SessionStorageError { fault: StorageFault::Backend, detail },
        _ => SessionStorageError::of(StorageFault::UnexpectedReply),
    }
}

} // verus!
