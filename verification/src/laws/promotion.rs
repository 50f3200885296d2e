//! What a promotion does to the store, as the machines and the model of the
//! store give it.

use crate::creation::{Creation, CreationStepView};
use crate::laws::lifecycle::{
    law_round_trip, lemma_absent_is_not_found, lemma_creation_frame, run_creation, run_lookup,
};
use crate::laws::model::StoreState;
use crate::promotion::{authenticated_info, Promotion, PromotionStepView, PromotionView};
use crate::protocol::{CommandView, Step};
use crate::sessions::{
    time_to_live, AdministratorSession, BaseSessionView, CustomerSession,
    GenericAuthenticatedSession, SessionTrait,
};
use crate::store::{lemma_namespaces_disjoint, session_key, SessionStorageErrorView, SessionType};
use crate::users::UserId;
use vstd::prelude::*;

verus! {

/// Where a promotion stands, and what the store holds, after at most `fuel`
/// commands were carried out by the model. The candidate tokens after the
/// first come from `supply`, which is asked with the number of candidates
/// tried so far.
pub open spec fn run_promotion(
    step: PromotionStepView,
    store: StoreState,
    supply: spec_fn(nat) -> Seq<char>,
    fuel: nat,
) -> (StoreState, PromotionStepView)
    decreases fuel,
{
    match step {
        Step::Finish(_) => (store, step),
        Step::Send(machine, command) => if fuel == 0 {
            (store, step)
        } else {
            let (next, reply) = store.perform(command);
            let fresh = match machine {
                PromotionView::Creating(creation) => supply(creation.attempts),
                PromotionView::Deleting { .. } => supply(0),
            };
            run_promotion(
                Promotion::spec_resume(machine, reply, fresh),
                next,
                supply,
                (fuel - 1) as nat,
            )
        },
    }
}

/// Once the old record is deleted, a promotion runs as the creation of the
/// new record runs.
pub proof fn lemma_promotion_follows_creation(
    step: CreationStepView,
    store: StoreState,
    supply: spec_fn(nat) -> Seq<char>,
    fuel: nat,
)
    ensures
        run_promotion(Promotion::lift(step), store, supply, fuel) == (
            run_creation(step, store, supply, fuel).0,
            Promotion::lift(run_creation(step, store, supply, fuel).1),
        ),
    decreases fuel,
{
    match step {
        Step::Finish(_) => {},
        Step::Send(creation, command) => {
            if fuel > 0 {
                let (next, reply) = store.perform(command);
                lemma_promotion_follows_creation(
                    Creation::spec_resume(creation, reply, supply(creation.attempts)),
                    next,
                    supply,
                    (fuel - 1) as nat,
                );
            }
        },
    }
}

/// The store in which the creation of the new record starts: the old record
/// is gone.
pub open spec fn after_deletion(store: StoreState, old_token: Seq<char>) -> StoreState {
    store.perform(
        CommandView::Delete { key: session_key(SessionType::PreAuthentication, old_token) },
    ).0
}

/// A promotion is the deletion of the old record followed by the creation of
/// the new one.
pub proof fn lemma_promotion_unfolds(
    store: StoreState,
    old_token: Seq<char>,
    user_id: UserId,
    admin: bool,
    csrf: Seq<char>,
    token: Seq<char>,
    supply: spec_fn(nat) -> Seq<char>,
    fuel: nat,
)
    requires
        fuel >= 1,
    ensures
        ({
            let info = authenticated_info(user_id, admin, csrf);
            let creation = run_creation(
                Creation::spec_begin(info, time_to_live(info), token),
                after_deletion(store, old_token),
                supply,
                (fuel - 1) as nat,
            );
            run_promotion(
                Promotion::spec_begin(old_token, user_id, admin, csrf, token),
                store,
                supply,
                fuel,
            ) == (creation.0, Promotion::lift(creation.1))
        }),
{
    let info = authenticated_info(user_id, admin, csrf);
    lemma_promotion_follows_creation(
        Creation::spec_begin(info, time_to_live(info), token),
        after_deletion(store, old_token),
        supply,
        (fuel - 1) as nat,
    );
}

/// Promotion invalidates its source. From the first command of a promotion
/// on, however far the promotion gets and however it ends, the old token
/// resolves to nothing under the pre-authentication kind.
pub proof fn law_promotion_invalidates_source(
    store: StoreState,
    old_token: Seq<char>,
    user_id: UserId,
    admin: bool,
    csrf: Seq<char>,
    token: Seq<char>,
    supply: spec_fn(nat) -> Seq<char>,
    fuel: nat,
)
    requires
        fuel >= 1,
    ensures
        run_lookup(
            run_promotion(
                Promotion::spec_begin(old_token, user_id, admin, csrf, token),
                store,
                supply,
                fuel,
            ).0,
            SessionType::PreAuthentication,
            old_token,
        ) == Ok::<Option<BaseSessionView>, SessionStorageErrorView>(None),
{
    let info = authenticated_info(user_id, admin, csrf);
    let old_key = session_key(SessionType::PreAuthentication, old_token);
    lemma_promotion_unfolds(store, old_token, user_id, admin, csrf, token, supply, fuel);
    assert forall|any: Seq<char>| old_key != #[trigger] session_key(
        SessionType::Authenticated,
        any,
    ) by {
        lemma_namespaces_disjoint(
            SessionType::PreAuthentication,
            old_token,
            SessionType::Authenticated,
            any,
        );
    }
    lemma_creation_frame(
        Creation::spec_begin(info, time_to_live(info), token),
        after_deletion(store, old_token),
        supply,
        (fuel - 1) as nat,
        SessionType::Authenticated,
        old_key,
    );
    let after = run_promotion(
        Promotion::spec_begin(old_token, user_id, admin, csrf, token),
        store,
        supply,
        fuel,
    ).0;
    lemma_absent_is_not_found(after, SessionType::PreAuthentication, old_token);
}

/// Promotion keeps the user. A promotion that ends well returns an
/// authenticated record for the same user, with the flag and the CSRF token
/// it was started with, and a fetch of the new token under the authenticated
/// kind finds that very record.
pub proof fn law_promotion_keeps_user(
    store: StoreState,
    old_token: Seq<char>,
    user_id: UserId,
    admin: bool,
    csrf: Seq<char>,
    token: Seq<char>,
    supply: spec_fn(nat) -> Seq<char>,
    fuel: nat,
)
    ensures
        run_promotion(
            Promotion::spec_begin(old_token, user_id, admin, csrf, token),
            store,
            supply,
            fuel,
        ) matches (after, Step::Finish(Ok(session))) ==> session.info == authenticated_info(
            user_id,
            admin,
            csrf,
        ) && run_lookup(after, SessionType::Authenticated, session.token) == Ok::<
            Option<BaseSessionView>,
            SessionStorageErrorView,
        >(Some(session)),
{
    if fuel >= 1 {
        let info = authenticated_info(user_id, admin, csrf);
        lemma_promotion_unfolds(store, old_token, user_id, admin, csrf, token, supply, fuel);
        law_round_trip(
            after_deletion(store, old_token),
            info,
            time_to_live(info),
            token,
            supply,
            (fuel - 1) as nat,
        );
    }
}

/// A promotion is consistent. A promotion never ends as `Inconsistent`: the
/// record that its creation makes is always an authenticated one.
pub proof fn law_promotion_is_consistent(
    store: StoreState,
    old_token: Seq<char>,
    user_id: UserId,
    admin: bool,
    csrf: Seq<char>,
    token: Seq<char>,
    supply: spec_fn(nat) -> Seq<char>,
    fuel: nat,
)
    ensures
        run_promotion(
            Promotion::spec_begin(old_token, user_id, admin, csrf, token),
            store,
            supply,
            fuel,
        ).1 != Step::<
            PromotionView,
            CommandView,
            Result<BaseSessionView, SessionStorageErrorView>,
        >::Finish(Err(crate::store::internal_error(crate::store::StorageFault::Inconsistent))),
{
    if fuel >= 1 {
        let info = authenticated_info(user_id, admin, csrf);
        lemma_promotion_unfolds(store, old_token, user_id, admin, csrf, token, supply, fuel);
        crate::laws::lifecycle::lemma_creation_effect(
            crate::creation::CreationView {
                info,
                seconds: time_to_live(info),
                token,
                attempts: 1,
                phase: crate::creation::CreationPhase::Probing,
            },
            after_deletion(store, old_token),
            supply,
            (fuel - 1) as nat,
        );
    }
}

/// Role separation. The record that a promotion leaves is accepted by the
/// administrator's session type exactly when the promotion was to an
/// administrator, by the customer's exactly when it was not, and by the
/// generic type either way.
pub proof fn law_role_separation(
    store: StoreState,
    old_token: Seq<char>,
    user_id: UserId,
    admin: bool,
    csrf: Seq<char>,
    token: Seq<char>,
    supply: spec_fn(nat) -> Seq<char>,
    fuel: nat,
)
    ensures
        run_promotion(
            Promotion::spec_begin(old_token, user_id, admin, csrf, token),
            store,
            supply,
            fuel,
        ) matches (after, Step::Finish(Ok(session))) ==> (run_lookup(
            after,
            SessionType::Authenticated,
            session.token,
        ) matches Ok(Some(found)) && GenericAuthenticatedSession::accepts(found.info)
            && AdministratorSession::accepts(found.info) == admin && CustomerSession::accepts(
            found.info,
        ) == !admin),
{
    law_promotion_keeps_user(store, old_token, user_id, admin, csrf, token, supply, fuel);
}

} // verus!
