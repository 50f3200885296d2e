//! What the guard does over a run of attempts, as its machine and the model
//! of the store give it.

use crate::guard::{counter_lifetime, denied, Guard};
use crate::laws::model::{Entry, StoreState};
use crate::protocol::Step;
use crate::store::{attempts_key, SessionStorageErrorView};
use vstd::prelude::*;

verus! {

/// The store after one attempt was recorded by the model, and the verdict.
pub open spec fn run_guard(store: StoreState, client: Seq<char>) -> (
    StoreState,
    Result<bool, SessionStorageErrorView>,
) {
    match Guard::spec_begin(client) {
        Step::Send(counting, increment) => {
            let (counted, count) = store.perform(increment);
            match Guard::spec_resume(counting, count) {
                Step::Send(judged, expire) => {
                    let (after, done) = counted.perform(expire);
                    match Guard::spec_resume(judged, done) {
                        Step::Finish(outcome) => (after, outcome),
                        Step::Send(_, _) => (after, Ok(false)),
                    }
                },
                Step::Finish(outcome) => (counted, outcome),
            }
        },
        Step::Finish(outcome) => (store, outcome),
    }
}

/// One attempt. The attempt is denied exactly when the count that includes
/// it has reached the threshold; the counter then holds that count and lives
/// the window or the penalty period, and nothing else in the store changes.
pub proof fn law_attempt(store: StoreState, client: Seq<char>)
    ensures
        ({
            let key = attempts_key(client);
            let count = store.count(key) + 1;
            run_guard(store, client) == (
                store.with_entry(
                    key,
                    Entry { count, ttl: Some(counter_lifetime(count)), ..store.entry(key) },
                ),
                Ok::<bool, SessionStorageErrorView>(denied(count)),
            )
        }),
{
    let key = attempts_key(client);
    let count = store.count(key) + 1;
    let counted = store.with_entry(key, Entry { count, ..store.entry(key) });
    let after = counted.with_entry(
        key,
        Entry { ttl: Some(counter_lifetime(count)), ..counted.entries[key] },
    );
    assert(after.entries =~= store.with_entry(
        key,
        Entry { count, ttl: Some(counter_lifetime(count)), ..store.entry(key) },
    ).entries);
}

/// The store after a run of attempts by one client. Before each attempt the
/// given number of seconds pass; the number before the first is that of the
/// first entry.
pub open spec fn after_attempts(store: StoreState, client: Seq<char>, gaps: Seq<nat>) -> StoreState
    decreases gaps.len(),
{
    if gaps.len() == 0 {
        store
    } else {
        run_guard(after_attempts(store, client, gaps.drop_last()).elapse(gaps.last()), client).0
    }
}

/// The verdict on the last attempt of a run of attempts.
pub open spec fn last_verdict(store: StoreState, client: Seq<char>, gaps: Seq<nat>) -> Result<
    bool,
    SessionStorageErrorView,
> {
    run_guard(after_attempts(store, client, gaps.drop_last()).elapse(gaps.last()), client).1
}

/// A run of attempts that never lets the counter lapse: the attempts before
/// the threshold follow each other within the window, the attempts from the
/// threshold on within the penalty period.
pub open spec fn unbroken(gaps: Seq<nat>) -> bool {
    forall|i: int| 1 <= i < gaps.len() ==> (#[trigger] gaps[i]) < counter_lifetime(i as nat)
}

/// The counter. After a run of attempts that never lets the counter lapse,
/// by a client whose counter did not exist before, the counter holds the
/// number of attempts and lives the window or the penalty period that goes
/// with that number; the last attempt was denied exactly when the number had
/// reached the threshold.
pub proof fn law_counter_after_attempts(store: StoreState, client: Seq<char>, gaps: Seq<nat>)
    requires
        !store.holds(attempts_key(client)),
        unbroken(gaps),
        gaps.len() >= 1,
    ensures
        after_attempts(store, client, gaps).holds(attempts_key(client)),
        after_attempts(store, client, gaps).count(attempts_key(client)) == gaps.len(),
        after_attempts(store, client, gaps).entry(attempts_key(client)).ttl == Some(
            counter_lifetime(gaps.len()),
        ),
        last_verdict(store, client, gaps) == Ok::<bool, SessionStorageErrorView>(
            denied(gaps.len()),
        ),
    decreases gaps.len(),
{
    let key = attempts_key(client);
    let earlier = gaps.drop_last();
    let before = after_attempts(store, client, earlier);
    let waited = before.elapse(gaps.last());
    law_attempt(waited, client);
    if earlier.len() == 0 {
        assert(!waited.holds(key));
    } else {
        assert(unbroken(earlier)) by {
            assert forall|i: int| 1 <= i < earlier.len() implies (#[trigger] earlier[i])
                < counter_lifetime(i as nat) by {
                assert(earlier[i] == gaps[i]);
            }
        }
        law_counter_after_attempts(store, client, earlier);
        assert(gaps.last() == gaps[gaps.len() - 1]);
        assert(waited.holds(key));
    }
}

/// The threshold. For a client whose counter does not exist yet, and a run
/// of attempts that never lets the counter lapse, the first four attempts
/// are allowed and the fifth and every later one is denied.
pub proof fn law_threshold(store: StoreState, client: Seq<char>, gaps: Seq<nat>)
    requires
        !store.holds(attempts_key(client)),
        unbroken(gaps),
        gaps.len() >= 1,
    ensures
        last_verdict(store, client, gaps) == Ok::<bool, SessionStorageErrorView>(
            gaps.len() >= 5,
        ),
{
    law_counter_after_attempts(store, client, gaps);
}

/// The window. Once the counter has lapsed, the client counts as new: the
/// next attempt is allowed.
pub proof fn law_lapse(store: StoreState, client: Seq<char>, elapsed: nat)
    requires
        !store.outlives(attempts_key(client), elapsed),
    ensures
        run_guard(store.elapse(elapsed), client).1 == Ok::<bool, SessionStorageErrorView>(false),
{
    law_attempt(store.elapse(elapsed), client);
}

} // verus!
