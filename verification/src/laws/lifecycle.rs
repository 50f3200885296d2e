//! The life of a session record, as the machines and the model of the store
//! give it: what a creation leaves in the store, what a fetch then finds,
//! and what time takes away.

use crate::creation::{Creation, CreationPhase, CreationStepView, CreationView};
use crate::lookup::{Lookup, Removal};
use crate::laws::model::{blank_entry, write_all, Entry, StoreState};
use crate::protocol::{CommandView, ReplyView, Step};
use crate::schema::{fields_of, lemma_decode_values};
use crate::sessions::BaseSessionView;
use crate::store::{internal_error, lemma_namespaces_disjoint, session_key, Field, SessionInfoView, SessionStorageErrorView, SessionType, StorageFault, ValueView};
use vstd::prelude::*;

verus! {

/// The key that a command works on.
pub open spec fn command_key(command: CommandView) -> Seq<char> {
    match command {
        CommandView::Exists { key } => key,
        CommandView::SetIfAbsent { key, .. } => key,
        CommandView::ReadFields { key, .. } => key,
        CommandView::WriteFields { key, .. } => key,
        CommandView::Expire { key, .. } => key,
        CommandView::Delete { key } => key,
        CommandView::Increment { key } => key,
    }
}

/// A command changes nothing but what is under its own key.
pub proof fn lemma_perform_frame(store: StoreState, command: CommandView, key: Seq<char>)
    requires
        key != command_key(command),
    ensures
        store.perform(command).0.holds(key) == store.holds(key),
        store.perform(command).0.entry(key) == store.entry(key),
{
}

/// Where a creation stands, and what the store holds, after at most `fuel`
/// commands were carried out by the model. The candidate tokens after the
/// first come from `supply`, which is asked with the number of candidates
/// tried so far.
pub open spec fn run_creation(
    step: CreationStepView,
    store: StoreState,
    supply: spec_fn(nat) -> Seq<char>,
    fuel: nat,
) -> (StoreState, CreationStepView)
    decreases fuel,
{
    match step {
        Step::Finish(_) => (store, step),
        Step::Send(machine, command) => if fuel == 0 {
            (store, step)
        } else {
            let (next, reply) = store.perform(command);
            run_creation(
                Creation::spec_resume(machine, reply, supply(machine.attempts)),
                next,
                supply,
                (fuel - 1) as nat,
            )
        },
    }
}

/// A step of a creation whose command, if it has one, works on the key of
/// the creation's own candidate.
pub open spec fn on_own_key(step: CreationStepView) -> bool {
    step matches Step::Send(machine, command) ==> command_key(command) == machine.key()
}

/// The kind of record that a step of a creation is about, if it is about one.
pub open spec fn step_kind(step: CreationStepView, kind: SessionType) -> bool {
    step matches Step::Send(machine, _) ==> machine.info.kind() == kind
}

/// Every step of a creation works on the key of its own candidate, and the
/// kind never changes.
pub proof fn lemma_resume_on_own_key(machine: CreationView, reply: ReplyView, fresh: Seq<char>)
    ensures
        on_own_key(Creation::spec_resume(machine, reply, fresh)),
        step_kind(Creation::spec_resume(machine, reply, fresh), machine.info.kind()),
{
}

/// A creation, however far it gets, leaves every key alone that is not a key
/// of its own kind.
pub proof fn lemma_creation_frame(
    step: CreationStepView,
    store: StoreState,
    supply: spec_fn(nat) -> Seq<char>,
    fuel: nat,
    kind: SessionType,
    key: Seq<char>,
)
    requires
        on_own_key(step),
        step_kind(step, kind),
        forall|token: Seq<char>| key != #[trigger] session_key(kind, token),
    ensures
        run_creation(step, store, supply, fuel).0.holds(key) == store.holds(key),
        run_creation(step, store, supply, fuel).0.entry(key) == store.entry(key),
    decreases fuel,
{
    match step {
        Step::Finish(_) => {},
        Step::Send(machine, command) => {
            if fuel > 0 {
                let (next, reply) = store.perform(command);
                assert(command_key(command) == session_key(kind, machine.token));
                lemma_perform_frame(store, command, key);
                let following = Creation::spec_resume(machine, reply, supply(machine.attempts));
                lemma_resume_on_own_key(machine, reply, supply(machine.attempts));
                lemma_creation_frame(following, next, supply, (fuel - 1) as nat, kind, key);
            }
        },
    }
}

/// The fields that a creation leaves in the record it made.
pub open spec fn stored_fields(info: SessionInfoView) -> Map<Field, ValueView> {
    write_all(
        Map::empty().insert(info.discriminator().0, info.discriminator().1),
        info.remainder(),
    )
}

/// The entry that a creation leaves under the key it claimed.
pub open spec fn stored_entry(info: SessionInfoView, seconds: nat) -> Entry {
    Entry { fields: stored_fields(info), count: 0, ttl: Some(seconds) }
}

/// The fields that a creation leaves are the fields of the payload, each
/// with its value, and no others.
pub proof fn lemma_stored_fields(info: SessionInfoView)
    ensures
        forall|i: int|
            0 <= i < fields_of(info.kind()).len() ==> stored_fields(info).dom().contains(
                #[trigger] fields_of(info.kind())[i],
            ) && Some(stored_fields(info)[fields_of(info.kind())[i]]) == info.values()[i],
        info.values().len() == fields_of(info.kind()).len(),
{
    reveal_with_fuel(write_all, 5);
    let rest = info.remainder();
    match info {
        SessionInfoView::PreAuthentication { .. } => {
            assert(rest.drop_last() =~= Seq::empty());
        },
        SessionInfoView::Authenticated { .. } => {
            assert(rest.drop_last() =~= seq![rest[0]]);
            assert(rest.drop_last().drop_last() =~= Seq::empty());
        },
        SessionInfoView::Registration { .. } => {
            assert(rest.drop_last() =~= seq![rest[0], rest[1], rest[2]]);
            assert(rest.drop_last().drop_last() =~= seq![rest[0], rest[1]]);
            assert(rest.drop_last().drop_last().drop_last() =~= seq![rest[0]]);
            assert(rest.drop_last().drop_last().drop_last().drop_last() =~= Seq::empty());
        },
    }
}

/// What a creation that came to its end has done. If it ended well, the
/// token it returns named no record before, the record it names now holds
/// exactly the payload and the time to live that were asked for, and nothing
/// else in the store has changed. If it ended badly, it had run out of
/// candidates and has changed nothing.
pub proof fn lemma_creation_effect(
    machine: CreationView,
    store: StoreState,
    supply: spec_fn(nat) -> Seq<char>,
    fuel: nat,
)
    requires
        machine.phase == CreationPhase::Probing,
    ensures
        match run_creation(
            Step::Send(machine, CommandView::Exists { key: machine.key() }),
            store,
            supply,
            fuel,
        ) {
            (after, Step::Finish(Ok(session))) => {
                &&& session.info == machine.info
                &&& !store.holds(session_key(machine.info.kind(), session.token))
                &&& after == store.with_entry(
                    session_key(machine.info.kind(), session.token),
                    stored_entry(machine.info, machine.seconds),
                )
            },
            (after, Step::Finish(Err(error))) => {
                &&& after == store
                &&& error == internal_error(StorageFault::TokensExhausted)
            },
            (_, Step::Send(_, _)) => true,
        },
    decreases fuel,
{
    reveal_with_fuel(run_creation, 6);
    let key = machine.key();
    if fuel > 0 {
        if store.holds(key) {
            let fresh = supply(machine.attempts);
            let following = Creation::spec_retry(machine, fresh);
            match following {
                Step::Send(next, command) => {
                    lemma_creation_effect(next, store, supply, (fuel - 1) as nat);
                },
                Step::Finish(_) => {},
            }
        } else {
            if fuel >= 5 {
                let disc = machine.info.discriminator();
                let claimed = store.with_entry(
                    key,
                    Entry { fields: blank_entry().fields.insert(disc.0, disc.1), ..blank_entry() },
                );
                assert(store.perform(
                    CommandView::SetIfAbsent { key, field: disc.0, value: disc.1 },
                ).0 == claimed);
                assert(claimed.read(key, seq![disc.0]) =~= seq![Some(disc.1)]);
                let filled = claimed.with_entry(
                    key,
                    Entry { fields: stored_fields(machine.info), ..claimed.entry(key) },
                );
                let expiring = filled.with_entry(key, stored_entry(machine.info, machine.seconds));
                assert(expiring.entries =~= store.with_entry(
                    key,
                    stored_entry(machine.info, machine.seconds),
                ).entries);
            }
        }
    }
}

/// What a fetch finds in a store that answers as the model does.
pub open spec fn run_lookup(store: StoreState, kind: SessionType, token: Seq<char>) -> Result<
    Option<BaseSessionView>,
    SessionStorageErrorView,
> {
    match Lookup::spec_begin(kind, token) {
        Step::Send(machine, command) => match Lookup::spec_resume(
            machine,
            store.perform(command).1,
        ) {
            Step::Finish(outcome) => outcome,
            Step::Send(_, _) => Ok(None),
        },
        Step::Finish(outcome) => outcome,
    }
}

/// The store after a removal was carried out by the model.
pub open spec fn run_removal(store: StoreState, kind: SessionType, token: Seq<char>) -> StoreState {
    match Removal::spec_begin(kind, token) {
        Step::Send(_, command) => store.perform(command).0,
        Step::Finish(_) => store,
    }
}

/// A fetch finds nothing under a key that holds nothing.
pub proof fn lemma_absent_is_not_found(store: StoreState, kind: SessionType, token: Seq<char>)
    requires
        !store.holds(session_key(kind, token)),
    ensures
        run_lookup(store, kind, token) == Ok::<Option<BaseSessionView>, SessionStorageErrorView>(
            None,
        ),
{
    let values = store.read(session_key(kind, token), fields_of(kind));
    assert(values[0] is None);
}

/// What a fetch finds depends on nothing but what is under the record's key.
pub proof fn lemma_lookup_reads_one_key(
    store: StoreState,
    other: StoreState,
    kind: SessionType,
    token: Seq<char>,
)
    requires
        store.entry(session_key(kind, token)) == other.entry(session_key(kind, token)),
    ensures
        run_lookup(store, kind, token) == run_lookup(other, kind, token),
{
    let key = session_key(kind, token);
    assert(store.read(key, fields_of(kind)) =~= other.read(key, fields_of(kind)));
}

/// Round trip. A creation that ends well, from any store and with any supply
/// of candidates, returns a record with the payload it was given, and a
/// fetch of the returned token under the payload's kind finds that very
/// record.
pub proof fn law_round_trip(
    store: StoreState,
    info: SessionInfoView,
    seconds: nat,
    token: Seq<char>,
    supply: spec_fn(nat) -> Seq<char>,
    fuel: nat,
)
    requires
        info.well_formed(),
    ensures
        run_creation(Creation::spec_begin(info, seconds, token), store, supply, fuel) matches (
            after,
            Step::Finish(Ok(session)),
        ) ==> session.info == info && run_lookup(after, info.kind(), session.token) == Ok::<
            Option<BaseSessionView>,
            SessionStorageErrorView,
        >(Some(session)),
{
    let machine = CreationView { info, seconds, token, attempts: 1, phase: CreationPhase::Probing };
    lemma_creation_effect(machine, store, supply, fuel);
    let (after, last) = run_creation(Creation::spec_begin(info, seconds, token), store, supply, fuel);
    if let Step::Finish(Ok(session)) = last {
        let key = session_key(info.kind(), session.token);
        lemma_stored_fields(info);
        lemma_decode_values(info);
        assert(after.read(key, fields_of(info.kind())) =~= info.values());
    }
}

/// A creation with a candidate whose key is free ends well after five
/// commands, with that candidate as the token.
pub proof fn law_free_candidate_is_taken(
    store: StoreState,
    info: SessionInfoView,
    seconds: nat,
    token: Seq<char>,
    supply: spec_fn(nat) -> Seq<char>,
)
    requires
        !store.holds(session_key(info.kind(), token)),
    ensures
        run_creation(Creation::spec_begin(info, seconds, token), store, supply, 5) == (
            store.with_entry(session_key(info.kind(), token), stored_entry(info, seconds)),
            Step::<
                CreationView,
                CommandView,
                Result<BaseSessionView, SessionStorageErrorView>,
            >::Finish(Ok(BaseSessionView { token, info })),
        ),
{
    reveal_with_fuel(run_creation, 6);
    let key = session_key(info.kind(), token);
    let disc = info.discriminator();
    let claimed = store.with_entry(
        key,
        Entry { fields: blank_entry().fields.insert(disc.0, disc.1), ..blank_entry() },
    );
    assert(store.perform(CommandView::SetIfAbsent { key, field: disc.0, value: disc.1 }).0
        == claimed);
    assert(claimed.read(key, seq![disc.0]) =~= seq![Some(disc.1)]);
    let filled = claimed.with_entry(
        key,
        Entry { fields: stored_fields(info), ..claimed.entry(key) },
    );
    let expiring = filled.with_entry(key, stored_entry(info, seconds));
    assert(expiring.entries =~= store.with_entry(key, stored_entry(info, seconds)).entries);
}

/// Namespace isolation. A creation, however far it gets and however it
/// ends, changes nothing of what a fetch under another kind finds, whatever
/// the token: a token made for one kind never resolves under another.
pub proof fn law_namespace_isolation(
    store: StoreState,
    info: SessionInfoView,
    seconds: nat,
    token: Seq<char>,
    supply: spec_fn(nat) -> Seq<char>,
    fuel: nat,
    other_kind: SessionType,
    other_token: Seq<char>,
)
    requires
        other_kind != info.kind(),
    ensures
        run_lookup(
            run_creation(Creation::spec_begin(info, seconds, token), store, supply, fuel).0,
            other_kind,
            other_token,
        ) == run_lookup(store, other_kind, other_token),
{
    let key = session_key(other_kind, other_token);
    assert forall|any: Seq<char>| key != #[trigger] session_key(info.kind(), any) by {
        lemma_namespaces_disjoint(other_kind, other_token, info.kind(), any);
    }
    let begin = Creation::spec_begin(info, seconds, token);
    lemma_creation_frame(begin, store, supply, fuel, info.kind(), key);
    let after = run_creation(begin, store, supply, fuel).0;
    lemma_lookup_reads_one_key(after, store, other_kind, other_token);
}

/// Expiry. Once the time to live that a creation set has passed, the token
/// it returned resolves to nothing.
pub proof fn law_expiry(
    store: StoreState,
    info: SessionInfoView,
    seconds: nat,
    token: Seq<char>,
    supply: spec_fn(nat) -> Seq<char>,
    fuel: nat,
    elapsed: nat,
)
    requires
        elapsed >= seconds,
    ensures
        run_creation(Creation::spec_begin(info, seconds, token), store, supply, fuel) matches (
            after,
            Step::Finish(Ok(session)),
        ) ==> run_lookup(after.elapse(elapsed), info.kind(), session.token) == Ok::<
            Option<BaseSessionView>,
            SessionStorageErrorView,
        >(None),
{
    let machine = CreationView { info, seconds, token, attempts: 1, phase: CreationPhase::Probing };
    lemma_creation_effect(machine, store, supply, fuel);
    let (after, last) = run_creation(Creation::spec_begin(info, seconds, token), store, supply, fuel);
    if let Step::Finish(Ok(session)) = last {
        lemma_absent_is_not_found(after.elapse(elapsed), info.kind(), session.token);
    }
}

/// Until the time to live has passed, the record stays as it was made.
pub proof fn law_alive_until_expiry(
    store: StoreState,
    info: SessionInfoView,
    seconds: nat,
    token: Seq<char>,
    supply: spec_fn(nat) -> Seq<char>,
    fuel: nat,
    elapsed: nat,
)
    requires
        info.well_formed(),
        elapsed < seconds,
    ensures
        run_creation(Creation::spec_begin(info, seconds, token), store, supply, fuel) matches (
            after,
            Step::Finish(Ok(session)),
        ) ==> run_lookup(after.elapse(elapsed), info.kind(), session.token) == Ok::<
            Option<BaseSessionView>,
            SessionStorageErrorView,
        >(Some(session)),
{
    let machine = CreationView { info, seconds, token, attempts: 1, phase: CreationPhase::Probing };
    lemma_creation_effect(machine, store, supply, fuel);
    let (after, last) = run_creation(Creation::spec_begin(info, seconds, token), store, supply, fuel);
    if let Step::Finish(Ok(session)) = last {
        let key = session_key(info.kind(), session.token);
        lemma_stored_fields(info);
        lemma_decode_values(info);
        assert(after.elapse(elapsed).holds(key));
        assert(after.elapse(elapsed).read(key, fields_of(info.kind())) =~= info.values());
    }
}

/// Deletion. After a removal the token resolves to nothing, and a removal of
/// a record that is not there changes nothing.
pub proof fn law_removal(store: StoreState, kind: SessionType, token: Seq<char>)
    ensures
        run_lookup(run_removal(store, kind, token), kind, token) == Ok::<
            Option<BaseSessionView>,
            SessionStorageErrorView,
        >(None),
        !store.holds(session_key(kind, token)) ==> run_removal(store, kind, token).entries
            == store.entries,
{
    lemma_absent_is_not_found(run_removal(store, kind, token), kind, token);
    if !store.holds(session_key(kind, token)) {
        assert(run_removal(store, kind, token).entries =~= store.entries);
    }
}

} // verus!
