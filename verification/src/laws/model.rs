//! A mathematical model of the session store: what each command does to the
//! store and what the store replies, when nothing fails. The machines of the
//! engine are stated against their own step functions; the laws of the engine
//! are stated by running those step functions against this model.

use crate::protocol::{CommandView, ReplyView};
use crate::store::{Field, ValueView};
use vstd::prelude::*;

verus! {

/// What the store holds under one key: the fields of a record, a counter,
/// and the seconds left to live, if the key was given a limit.
pub struct Entry {
    pub fields: Map<Field, ValueView>,
    pub count: nat,
    pub ttl: Option<nat>,
}

/// The whole store: a finite or infinite map from keys to entries.
pub struct StoreState {
    pub entries: Map<Seq<char>, Entry>,
}

/// The entry of a key that was just brought into being.
pub open spec fn blank_entry() -> Entry {
    Entry { fields: Map::empty(), count: 0, ttl: None }
}

/// The fields after the given entries were written over them, in order.
pub open spec fn write_all(fields: Map<Field, ValueView>, entries: Seq<(Field, ValueView)>) -> Map<
    Field,
    ValueView,
>
    decreases entries.len(),
{
    if entries.len() == 0 {
        fields
    } else {
        write_all(fields, entries.drop_last()).insert(entries.last().0, entries.last().1)
    }
}

impl StoreState {
    /// The store that holds nothing.
    pub open spec fn empty() -> StoreState {
        StoreState { entries: Map::empty() }
    }

    /// Whether the key holds anything.
    pub open spec fn holds(self, key: Seq<char>) -> bool {
        self.entries.dom().contains(key)
    }

    /// The entry under a key; a blank one where the key holds nothing.
    pub open spec fn entry(self, key: Seq<char>) -> Entry {
        if self.holds(key) {
            self.entries[key]
        } else {
            blank_entry()
        }
    }

    /// The store with the entry under `key` replaced.
    pub open spec fn with_entry(self, key: Seq<char>, entry: Entry) -> StoreState {
        StoreState { entries: self.entries.insert(key, entry) }
    }

    /// The values of the named fields of the record under `key`.
    pub open spec fn read(self, key: Seq<char>, fields: Seq<Field>) -> Seq<Option<ValueView>> {
        Seq::new(
            fields.len(),
            |i: int|
                if self.entry(key).fields.dom().contains(fields[i]) {
                    Some(self.entry(key).fields[fields[i]])
                } else {
                    None
                },
        )
    }

    /// The count under `key`; zero where the key holds nothing.
    pub open spec fn count(self, key: Seq<char>) -> nat {
        self.entry(key).count
    }

    /// What a command does to the store, and what the store replies.
    pub open spec fn perform(self, command: CommandView) -> (StoreState, ReplyView) {
        match command {
            CommandView::Exists { key } => (self, ReplyView::Exists(self.holds(key))),
            CommandView::SetIfAbsent { key, field, value } => {
                let entry = self.entry(key);
                if entry.fields.dom().contains(field) {
                    (self, ReplyView::Done)
                } else {
                    (
                        self.with_entry(
                            key,
                            Entry { fields: entry.fields.insert(field, value), ..entry },
                        ),
                        ReplyView::Done,
                    )
                }
            },
            CommandView::ReadFields { key, fields } => (
                self,
                ReplyView::Values(self.read(key, fields)),
            ),
            CommandView::WriteFields { key, entries } => {
                let entry = self.entry(key);
                (
                    self.with_entry(
                        key,
                        Entry { fields: write_all(entry.fields, entries), ..entry },
                    ),
                    ReplyView::Done,
                )
            },
            CommandView::Expire { key, seconds } => if self.holds(key) {
                (
                    self.with_entry(key, Entry { ttl: Some(seconds), ..self.entries[key] }),
                    ReplyView::Done,
                )
            } else {
                (self, ReplyView::Done)
            },
            CommandView::Delete { key } => (
                StoreState { entries: self.entries.remove(key) },
                ReplyView::Done,
            ),
            CommandView::Increment { key } => {
                let entry = self.entry(key);
                (
                    self.with_entry(key, Entry { count: entry.count + 1, ..entry }),
                    ReplyView::Count(entry.count + 1),
                )
            },
        }
    }

    /// Whether the key outlives the given number of seconds.
    pub open spec fn outlives(self, key: Seq<char>, seconds: nat) -> bool {
        self.holds(key) && match self.entries[key].ttl {
            Some(left) => left > seconds,
            None => true,
        }
    }

    /// The store after the given number of seconds have passed with no
    /// command: every key whose time is up is gone.
    pub open spec fn elapse(self, seconds: nat) -> StoreState {
        StoreState {
            entries: Map::new(
                |key: Seq<char>| self.outlives(key, seconds),
                |key: Seq<char>|
                    Entry {
                        ttl: match self.entries[key].ttl {
                            Some(left) => Some((left - seconds) as nat),
                            None => None,
                        },
                        ..self.entries[key]
                    },
            ),
        }
    }
}

} // verus!
