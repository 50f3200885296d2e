//! What an attempt at the second factor comes to, as its machine, the model
//! of the session store and a directory that answers each question always
//! the same way give it.

use crate::auth::user_of;
use crate::directory::{
    AnswerView, MfaAuthenticationMethodView, QueryView, RequestView, ResponseView,
    StorageErrorView,
};
use crate::laws::authentication::Randomness;
use crate::laws::lifecycle::run_lookup;
use crate::laws::model::StoreState;
use crate::laws::promotion::{
    law_promotion_invalidates_source, law_promotion_keeps_user, run_promotion,
};
use crate::promotion::{authenticated_info, Promotion, PromotionStepView, PromotionView};
use crate::protocol::Step;
use crate::second_factor::{
    AuthenticationOutcome2faView, SecondFactor, SecondFactorStepView, SecondFactorView,
};
use crate::sessions::BaseSessionView;
use crate::store::{SessionStorageErrorView, SessionType};
use crate::users::{AppUserRole, UserProfile};
use vstd::prelude::*;

verus! {

/// A failed attempt leaves the session alone. Until the directory has
/// accepted the credential, an attempt at the second factor asks nothing of
/// the session store; an attempt that the directory turns down ends without
/// having asked it anything.
pub proof fn law_failure_keeps_session(
    machine: SecondFactorView,
    response: ResponseView,
    csrf: Seq<char>,
    token: Seq<char>,
)
    requires
        machine is SelectingUser || machine is Verifying,
        response != ResponseView::Directory(AnswerView::Verdict(true)),
    ensures
        SecondFactor::spec_resume(machine, response, csrf, token) matches Step::Send(_, request)
            ==> request is Directory,
        machine is Verifying && response == ResponseView::Directory(AnswerView::Verdict(false))
            ==> SecondFactor::spec_resume(machine, response, csrf, token) == Step::<
            SecondFactorView,
            RequestView,
            Result<AuthenticationOutcome2faView, StorageErrorView>,
        >::Finish(Ok(AuthenticationOutcome2faView::Failure)),
{
}

/// The CSRF token and the candidate token that a step from `machine` takes.
pub open spec fn tokens_for(machine: SecondFactorView, full: Randomness) -> (Seq<char>, Seq<char>) {
    (
        full.csrf,
        match machine {
            SecondFactorView::Promoting { promotion: PromotionView::Creating(creation) } => {
                (full.supply)(creation.attempts)
            },
            _ => (full.supply)(0),
        },
    )
}

/// Where an attempt at the second factor stands, and what the session store
/// holds, after at most `fuel` requests were carried out: the commands by
/// the model of the store, the questions by `directory`.
pub open spec fn run_second_factor(
    step: SecondFactorStepView,
    store: StoreState,
    directory: spec_fn(QueryView) -> AnswerView,
    full: Randomness,
    fuel: nat,
) -> (StoreState, SecondFactorStepView)
    decreases fuel,
{
    match step {
        Step::Finish(_) => (store, step),
        Step::Send(machine, request) => if fuel == 0 {
            (store, step)
        } else {
            let (next, response) = match request {
                RequestView::Store(command) => (
                    store.perform(command).0,
                    ResponseView::Store(store.perform(command).1),
                ),
                RequestView::Directory(query) => (store, ResponseView::Directory(directory(query))),
            };
            let (csrf, token) = tokens_for(machine, full);
            run_second_factor(
                SecondFactor::spec_resume(machine, response, csrf, token),
                next,
                directory,
                full,
                (fuel - 1) as nat,
            )
        },
    }
}

/// While the session is promoted, the attempt runs as the promotion runs,
/// and ends as the promotion ends.
pub proof fn lemma_promoting_phase(
    step: PromotionStepView,
    store: StoreState,
    directory: spec_fn(QueryView) -> AnswerView,
    full: Randomness,
    fuel: nat,
)
    ensures
        run_second_factor(SecondFactor::promoting(step), store, directory, full, fuel) == (
            run_promotion(step, store, full.supply, fuel).0,
            SecondFactor::promoting(run_promotion(step, store, full.supply, fuel).1),
        ),
    decreases fuel,
{
    match step {
        Step::Finish(_) => {},
        Step::Send(machine, command) => {
            if fuel > 0 {
                let (next, reply) = store.perform(command);
                let fresh = match machine {
                    PromotionView::Creating(creation) => (full.supply)(creation.attempts),
                    PromotionView::Deleting { .. } => (full.supply)(0),
                };
                lemma_promoting_phase(
                    Promotion::spec_resume(machine, reply, fresh),
                    next,
                    directory,
                    full,
                    (fuel - 1) as nat,
                );
            }
        },
    }
}

/// An accepted second factor. Where the directory knows the session's user
/// and accepts the credential, an attempt that ends well ends as a success
/// of the user's role, with an authenticated session of the same user that a
/// fetch of its token finds; and the token of the pre-authentication
/// session resolves to nothing.
pub proof fn law_second_factor_accepted(
    store: StoreState,
    session: BaseSessionView,
    credential: MfaAuthenticationMethodView,
    profile: UserProfile,
    directory: spec_fn(QueryView) -> AnswerView,
    full: Randomness,
    fuel: nat,
)
    requires
        directory(QueryView::SelectUser { user_id: user_of(session) }) == AnswerView::User(
            Some(profile),
        ),
        directory(QueryView::VerifySecondFactor { user_id: user_of(session), credential })
            == AnswerView::Verdict(true),
    ensures
        run_second_factor(
            SecondFactor::spec_begin(session, credential),
            store,
            directory,
            full,
            fuel,
        ) matches (after, Step::Finish(Ok(outcome))) ==> ({
            let admin = profile.role == AppUserRole::Administrator;
            let promoted = match outcome {
                AuthenticationOutcome2faView::Success(promoted) => promoted,
                AuthenticationOutcome2faView::SuccessAdministrative(promoted) => promoted,
                AuthenticationOutcome2faView::Failure => arbitrary(),
            };
            &&& outcome == (if admin {
                AuthenticationOutcome2faView::SuccessAdministrative(promoted)
            } else {
                AuthenticationOutcome2faView::Success(promoted)
            })
            &&& promoted.info == authenticated_info(user_of(session), admin, full.csrf)
            &&& run_lookup(after, SessionType::Authenticated, promoted.token) == Ok::<
                Option<BaseSessionView>,
                SessionStorageErrorView,
            >(Some(promoted))
            &&& run_lookup(after, SessionType::PreAuthentication, session.token) == Ok::<
                Option<BaseSessionView>,
                SessionStorageErrorView,
            >(None)
        }),
{
    reveal_with_fuel(run_second_factor, 3);
    if fuel >= 3 {
        let admin = profile.role == AppUserRole::Administrator;
        let promotion = Promotion::spec_begin(
            session.token,
            user_of(session),
            admin,
            full.csrf,
            (full.supply)(0),
        );
        let left = (fuel - 2) as nat;
        lemma_promoting_phase(promotion, store, directory, full, left);
        law_promotion_keeps_user(
            store,
            session.token,
            user_of(session),
            admin,
            full.csrf,
            (full.supply)(0),
            full.supply,
            left,
        );
        law_promotion_invalidates_source(
            store,
            session.token,
            user_of(session),
            admin,
            full.csrf,
            (full.supply)(0),
            full.supply,
            left,
        );
    } else if fuel == 2 {
        let admin = profile.role == AppUserRole::Administrator;
        let promotion = Promotion::spec_begin(
            session.token,
            user_of(session),
            admin,
            full.csrf,
            (full.supply)(0),
        );
        lemma_promoting_phase(promotion, store, directory, full, 0);
    }
}

} // verus!
