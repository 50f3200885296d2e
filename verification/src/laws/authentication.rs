//! What an authentication comes to, as its machine, the model of the session
//! store and a directory that answers each question always the same way give
//! it.

use crate::auth::{Authentication, AuthenticationOutcomeView, AuthenticationStepView, AuthenticationView};
use crate::creation::{Creation, CreationStepView};
use crate::directory::{
    AnswerView, PrimaryAuthenticationMethodView, QueryView, RequestView, ResponseView,
    StorageErrorView,
};
use crate::laws::lifecycle::{law_round_trip, run_creation, run_lookup};
use crate::laws::model::StoreState;
use crate::promotion::{
    authenticated_info, pre_authentication_info, Promotion, PromotionStepView, PromotionView,
};
use crate::laws::promotion::{law_promotion_keeps_user, run_promotion};
use crate::protocol::Step;
use crate::sessions::{time_to_live, BaseSessionView};
use crate::store::{SessionStorageErrorView, SessionType};
use crate::users::{AppUserRole, UserProfile};
use vstd::prelude::*;

verus! {

/// The random text that the creation of one session takes: the CSRF token,
/// and the candidate tokens, the one to try after `n` were tried being
/// `supply(n)`.
pub struct Randomness {
    pub csrf: Seq<char>,
    pub supply: spec_fn(nat) -> Seq<char>,
}

/// The CSRF token and the candidate token that a step from `machine` takes:
/// those of the pre-authentication session until it exists, those of the
/// authenticated session from then on.
pub open spec fn tokens_for(machine: AuthenticationView, pre: Randomness, full: Randomness) -> (
    Seq<char>,
    Seq<char>,
) {
    match machine {
        AuthenticationView::FindingUser { .. } => (pre.csrf, (pre.supply)(0)),
        AuthenticationView::Verifying { .. } => (pre.csrf, (pre.supply)(0)),
        AuthenticationView::Creating { creation, .. } => (
            pre.csrf,
            (pre.supply)(creation.attempts),
        ),
        AuthenticationView::CheckingSecondFactor { .. } => (full.csrf, (full.supply)(0)),
        AuthenticationView::Promoting { promotion } => (
            full.csrf,
            match promotion {
                PromotionView::Creating(creation) => (full.supply)(creation.attempts),
                PromotionView::Deleting { .. } => (full.supply)(0),
            },
        ),
    }
}

/// Where an authentication stands, and what the session store holds, after
/// at most `fuel` requests were carried out: the commands by the model of
/// the store, the questions by `directory`.
pub open spec fn run_authentication(
    step: AuthenticationStepView,
    store: StoreState,
    directory: spec_fn(QueryView) -> AnswerView,
    pre: Randomness,
    full: Randomness,
    fuel: nat,
) -> (StoreState, AuthenticationStepView)
    decreases fuel,
{
    match step {
        Step::Finish(_) => (store, step),
        Step::Send(machine, request) => if fuel == 0 {
            (store, step)
        } else {
            let (next, response) = match request {
                RequestView::Store(command) => (
                    store.perform(command).0,
                    ResponseView::Store(store.perform(command).1),
                ),
                RequestView::Directory(query) => (store, ResponseView::Directory(directory(query))),
            };
            let (csrf, token) = tokens_for(machine, pre, full);
            run_authentication(
                Authentication::spec_resume(machine, response, csrf, token),
                next,
                directory,
                pre,
                full,
                (fuel - 1) as nat,
            )
        },
    }
}

/// The number of commands that a creation carries out when it is given
/// `fuel` to run.
pub open spec fn creation_steps(
    step: CreationStepView,
    store: StoreState,
    supply: spec_fn(nat) -> Seq<char>,
    fuel: nat,
) -> nat
    decreases fuel,
{
    match step {
        Step::Finish(_) => 0,
        Step::Send(machine, command) => if fuel == 0 {
            0
        } else {
            1 + creation_steps(
                Creation::spec_resume(machine, store.perform(command).1, supply(machine.attempts)),
                store.perform(command).0,
                supply,
                (fuel - 1) as nat,
            )
        },
    }
}

/// While the pre-authentication session is created, the authentication runs
/// as the creation runs, and goes on from where the creation ends with the
/// fuel that the creation has left.
pub proof fn lemma_creating_phase(
    profile: UserProfile,
    step: CreationStepView,
    store: StoreState,
    directory: spec_fn(QueryView) -> AnswerView,
    pre: Randomness,
    full: Randomness,
    fuel: nat,
)
    ensures
        creation_steps(step, store, pre.supply, fuel) <= fuel,
        run_creation(step, store, pre.supply, fuel).1 is Send ==> creation_steps(
            step,
            store,
            pre.supply,
            fuel,
        ) == fuel,
        run_authentication(
            Authentication::creating(profile, step),
            store,
            directory,
            pre,
            full,
            fuel,
        ) == run_authentication(
            Authentication::creating(profile, run_creation(step, store, pre.supply, fuel).1),
            run_creation(step, store, pre.supply, fuel).0,
            directory,
            pre,
            full,
            (fuel - creation_steps(step, store, pre.supply, fuel)) as nat,
        ),
    decreases fuel,
{
    match step {
        Step::Finish(_) => {},
        Step::Send(machine, command) => {
            if fuel > 0 {
                let (next, reply) = store.perform(command);
                lemma_creating_phase(
                    profile,
                    Creation::spec_resume(machine, reply, (pre.supply)(machine.attempts)),
                    next,
                    directory,
                    pre,
                    full,
                    (fuel - 1) as nat,
                );
            }
        },
    }
}

/// While the session is promoted, the authentication runs as the promotion
/// runs, and ends as the promotion ends.
pub proof fn lemma_promoting_phase(
    step: PromotionStepView,
    store: StoreState,
    directory: spec_fn(QueryView) -> AnswerView,
    pre: Randomness,
    full: Randomness,
    fuel: nat,
)
    ensures
        run_authentication(
            Authentication::promoting(step),
            store,
            directory,
            pre,
            full,
            fuel,
        ) == (
            run_promotion(step, store, full.supply, fuel).0,
            Authentication::promoting(run_promotion(step, store, full.supply, fuel).1),
        ),
    decreases fuel,
{
    match step {
        Step::Finish(_) => {},
        Step::Send(machine, command) => {
            if fuel > 0 {
                let (next, reply) = store.perform(command);
                let fresh = match machine {
                    PromotionView::Creating(creation) => (full.supply)(creation.attempts),
                    PromotionView::Deleting { .. } => (full.supply)(0),
                };
                lemma_promoting_phase(
                    Promotion::spec_resume(machine, reply, fresh),
                    next,
                    directory,
                    pre,
                    full,
                    (fuel - 1) as nat,
                );
            }
        },
    }
}

/// A directory that knows the user of an email address and accepts the
/// credential for that user.
pub open spec fn accepts(
    directory: spec_fn(QueryView) -> AnswerView,
    email: Seq<char>,
    credential: PrimaryAuthenticationMethodView,
    profile: UserProfile,
) -> bool {
    &&& directory(QueryView::FindUser { email }) == AnswerView::User(Some(profile))
    &&& directory(QueryView::VerifyPrimary { user_id: profile.id, credential })
        == AnswerView::Verdict(true)
}

/// Failure changes nothing. Where the directory knows no user of the email
/// address, or does not accept the credential, the authentication ends as a
/// failure after the one or two questions, and the session store is as it
/// was.
pub proof fn law_failure_changes_nothing(
    store: StoreState,
    email: Seq<char>,
    credential: PrimaryAuthenticationMethodView,
    directory: spec_fn(QueryView) -> AnswerView,
    pre: Randomness,
    full: Randomness,
    fuel: nat,
)
    requires
        fuel >= 2,
        directory(QueryView::FindUser { email }) == AnswerView::User(None) || exists|
            profile: UserProfile,
        |
            directory(QueryView::FindUser { email }) == AnswerView::User(Some(profile))
                && #[trigger] directory(QueryView::VerifyPrimary { user_id: profile.id, credential })
                == AnswerView::Verdict(false),
    ensures
        run_authentication(
            Authentication::spec_begin(email, credential),
            store,
            directory,
            pre,
            full,
            fuel,
        ) == (
            store,
            Step::<
                AuthenticationView,
                RequestView,
                Result<AuthenticationOutcomeView, StorageErrorView>,
            >::Finish(Ok(AuthenticationOutcomeView::Failure)),
        ),
{
    reveal_with_fuel(run_authentication, 3);
}

/// The state of an authentication once the directory has accepted the
/// credential: the creation of the pre-authentication session begins.
proof fn lemma_accepted(
    store: StoreState,
    email: Seq<char>,
    credential: PrimaryAuthenticationMethodView,
    profile: UserProfile,
    directory: spec_fn(QueryView) -> AnswerView,
    pre: Randomness,
    full: Randomness,
    fuel: nat,
)
    requires
        fuel >= 2,
        accepts(directory, email, credential, profile),
    ensures
        run_authentication(
            Authentication::spec_begin(email, credential),
            store,
            directory,
            pre,
            full,
            fuel,
        ) == run_authentication(
            Authentication::creating(
                profile,
                Creation::spec_begin(
                    pre_authentication_info(profile.id, pre.csrf),
                    time_to_live(pre_authentication_info(profile.id, pre.csrf)),
                    (pre.supply)(0),
                ),
            ),
            store,
            directory,
            pre,
            full,
            (fuel - 2) as nat,
        ),
{
    reveal_with_fuel(run_authentication, 3);
}

/// A second factor is owed. Where the directory accepts the credential and
/// the user has enrolled a second factor, an authentication that ends well
/// ends as `Partial`, with a pre-authentication session of the user that a
/// fetch of its token finds.
pub proof fn law_second_factor_owed(
    store: StoreState,
    email: Seq<char>,
    credential: PrimaryAuthenticationMethodView,
    profile: UserProfile,
    directory: spec_fn(QueryView) -> AnswerView,
    pre: Randomness,
    full: Randomness,
    fuel: nat,
)
    requires
        accepts(directory, email, credential, profile),
        directory(QueryView::HasSecondFactor { user_id: profile.id }) == AnswerView::Verdict(true),
    ensures
        run_authentication(
            Authentication::spec_begin(email, credential),
            store,
            directory,
            pre,
            full,
            fuel,
        ) matches (after, Step::Finish(Ok(outcome))) ==> (outcome
            matches AuthenticationOutcomeView::Partial(session) && session.info
            == pre_authentication_info(profile.id, pre.csrf) && run_lookup(
            after,
            SessionType::PreAuthentication,
            session.token,
        ) == Ok::<Option<BaseSessionView>, SessionStorageErrorView>(Some(session))),
{
    reveal_with_fuel(run_authentication, 3);
    if fuel >= 2 {
        let info = pre_authentication_info(profile.id, pre.csrf);
        let begin = Creation::spec_begin(info, time_to_live(info), (pre.supply)(0));
        lemma_accepted(store, email, credential, profile, directory, pre, full, fuel);
        lemma_creating_phase(profile, begin, store, directory, pre, full, (fuel - 2) as nat);
        law_round_trip(store, info, time_to_live(info), (pre.supply)(0), pre.supply, (fuel - 2) as nat);
    }
}

/// No second factor. Where the directory accepts the credential and the user
/// has enrolled no second factor, an authentication that ends well ends as a
/// success of the user's role, with an authenticated session of the user
/// that a fetch of its token finds.
pub proof fn law_promoted_at_once(
    store: StoreState,
    email: Seq<char>,
    credential: PrimaryAuthenticationMethodView,
    profile: UserProfile,
    directory: spec_fn(QueryView) -> AnswerView,
    pre: Randomness,
    full: Randomness,
    fuel: nat,
)
    requires
        accepts(directory, email, credential, profile),
        directory(QueryView::HasSecondFactor { user_id: profile.id }) == AnswerView::Verdict(false),
    ensures
        run_authentication(
            Authentication::spec_begin(email, credential),
            store,
            directory,
            pre,
            full,
            fuel,
        ) matches (after, Step::Finish(Ok(outcome))) ==> ({
            let admin = profile.role == AppUserRole::Administrator;
            let session = match outcome {
                AuthenticationOutcomeView::Success(session) => session,
                AuthenticationOutcomeView::SuccessAdministrative(session) => session,
                AuthenticationOutcomeView::Partial(session) => session,
                AuthenticationOutcomeView::Failure => arbitrary(),
            };
            &&& outcome == (if admin {
                AuthenticationOutcomeView::SuccessAdministrative(session)
            } else {
                AuthenticationOutcomeView::Success(session)
            })
            &&& session.info == authenticated_info(profile.id, admin, full.csrf)
            &&& run_lookup(after, SessionType::Authenticated, session.token) == Ok::<
                Option<BaseSessionView>,
                SessionStorageErrorView,
            >(Some(session))
        }),
{
    reveal_with_fuel(run_authentication, 3);
    if fuel >= 2 {
        let info = pre_authentication_info(profile.id, pre.csrf);
        let begin = Creation::spec_begin(info, time_to_live(info), (pre.supply)(0));
        let left = (fuel - 2) as nat;
        lemma_accepted(store, email, credential, profile, directory, pre, full, fuel);
        lemma_creating_phase(profile, begin, store, directory, pre, full, left);
        law_round_trip(store, info, time_to_live(info), (pre.supply)(0), pre.supply, left);
        let (created, ended) = run_creation(begin, store, pre.supply, left);
        let rest = (left - creation_steps(begin, store, pre.supply, left)) as nat;
        if let Step::Finish(Ok(pre_session)) = ended {
            if rest >= 1 {
                let admin = profile.role == AppUserRole::Administrator;
                let promotion = Promotion::spec_begin(
                    pre_session.token,
                    profile.id,
                    admin,
                    full.csrf,
                    (full.supply)(0),
                );
                lemma_promoting_phase(
                    promotion,
                    created,
                    directory,
                    pre,
                    full,
                    (rest - 1) as nat,
                );
                law_promotion_keeps_user(
                    created,
                    pre_session.token,
                    profile.id,
                    admin,
                    full.csrf,
                    (full.supply)(0),
                    full.supply,
                    (rest - 1) as nat,
                );
            }
        }
    }
}

/// The pre-authentication session is used up. Where the directory accepts
/// the credential and the user has enrolled no second factor, an
/// authentication that ends well leaves no pre-authentication record behind:
/// under that kind every token resolves to what it resolved to before.
pub proof fn law_pre_authentication_used_up(
    store: StoreState,
    email: Seq<char>,
    credential: PrimaryAuthenticationMethodView,
    profile: UserProfile,
    directory: spec_fn(QueryView) -> AnswerView,
    pre: Randomness,
    full: Randomness,
    fuel: nat,
    any: Seq<char>,
)
    requires
        accepts(directory, email, credential, profile),
        directory(QueryView::HasSecondFactor { user_id: profile.id }) == AnswerView::Verdict(false),
    ensures
        run_authentication(
            Authentication::spec_begin(email, credential),
            store,
            directory,
            pre,
            full,
            fuel,
        ) matches (after, Step::Finish(Ok(_))) ==> run_lookup(
            after,
            SessionType::PreAuthentication,
            any,
        ) == run_lookup(store, SessionType::PreAuthentication, any),
{
    reveal_with_fuel(run_authentication, 3);
    if fuel >= 2 {
        let info = pre_authentication_info(profile.id, pre.csrf);
        let begin = Creation::spec_begin(info, time_to_live(info), (pre.supply)(0));
        let left = (fuel - 2) as nat;
        lemma_accepted(store, email, credential, profile, directory, pre, full, fuel);
        lemma_creating_phase(profile, begin, store, directory, pre, full, left);
        crate::laws::lifecycle::lemma_creation_effect(
            crate::creation::CreationView {
                info,
                seconds: time_to_live(info),
                token: (pre.supply)(0),
                attempts: 1,
                phase: crate::creation::CreationPhase::Probing,
            },
            store,
            pre.supply,
            left,
        );
        let (created, ended) = run_creation(begin, store, pre.supply, left);
        let rest = (left - creation_steps(begin, store, pre.supply, left)) as nat;
        if let Step::Finish(Ok(pre_session)) = ended {
            if rest >= 2 {
                let admin = profile.role == AppUserRole::Administrator;
                let promotion = Promotion::spec_begin(
                    pre_session.token,
                    profile.id,
                    admin,
                    full.csrf,
                    (full.supply)(0),
                );
                lemma_promoting_phase(promotion, created, directory, pre, full, (rest - 1) as nat);
                crate::laws::promotion::lemma_promotion_unfolds(
                    created,
                    pre_session.token,
                    profile.id,
                    admin,
                    full.csrf,
                    (full.supply)(0),
                    full.supply,
                    (rest - 1) as nat,
                );
                let new_info = authenticated_info(profile.id, admin, full.csrf);
                let key = crate::store::session_key(SessionType::PreAuthentication, any);
                assert forall|token: Seq<char>| key != #[trigger] crate::store::session_key(
                    SessionType::Authenticated,
                    token,
                ) by {
                    crate::store::lemma_namespaces_disjoint(
                        SessionType::PreAuthentication,
                        any,
                        SessionType::Authenticated,
                        token,
                    );
                }
                crate::laws::lifecycle::lemma_creation_frame(
                    Creation::spec_begin(new_info, time_to_live(new_info), (full.supply)(0)),
                    crate::laws::promotion::after_deletion(created, pre_session.token),
                    full.supply,
                    (rest - 2) as nat,
                    SessionType::Authenticated,
                    key,
                );
                let after = run_promotion(promotion, created, full.supply, (rest - 1) as nat).0;
                assert(after.entry(key) == store.entry(key));
                crate::laws::lifecycle::lemma_lookup_reads_one_key(
                    after,
                    store,
                    SessionType::PreAuthentication,
                    any,
                );
            }
        }
    }
}

} // verus!
