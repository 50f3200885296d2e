//! Authentication with a second factor.
//!
//! The holder of a pre-authentication session gives a second credential. If
//! the directory accepts it, the session is promoted to the role that the
//! directory gives the user. If not, nothing is asked of the session store:
//! the pre-authentication record stays and lapses by its own time to live,
//! so the attempt can be made again.

use crate::auth::user_of;
use crate::directory::{
    answer_error, error_of_answer, misdirected, no_randomness_error, Answer, AnswerView,
    MfaAuthenticationMethod, MfaAuthenticationMethodView, Query, QueryView, Request, RequestView,
    Response, ResponseView, StorageError, StorageErrorView,
};
use crate::promotion::{promotion_view, Promotion, PromotionStep, PromotionStepView, PromotionView};
use crate::protocol::Step;
use crate::sessions::{
    AdministratorSession, BaseSessionView, CustomerSession, GenericAuthenticatedSession,
    PreAuthenticationSession, SessionTrait,
};
use crate::store::{SessionInfoView, StorageFault};
use crate::token::{generate_token, is_token};
use crate::users::{AppUserRole, UserProfile};
use vstd::prelude::*;

verus! {

/// The outcome of an attempt at the second factor.
#[derive(Debug)]
pub enum AuthenticationOutcome2fa {
    /// The user is authenticated as a customer.
    Success(CustomerSession),
    /// The user is authenticated as an administrator.
    SuccessAdministrative(AdministratorSession),
    /// The credential is wrong, or the user is no longer known.
    Failure,
}

/// The mathematical content of an [`AuthenticationOutcome2fa`].
pub enum AuthenticationOutcome2faView {
    Success(BaseSessionView),
    SuccessAdministrative(BaseSessionView),
    Failure,
}

impl View for AuthenticationOutcome2fa {
    type V = AuthenticationOutcome2faView;

    open spec fn view(&self) -> AuthenticationOutcome2faView {
        match *self {
            AuthenticationOutcome2fa::Success(session) => AuthenticationOutcome2faView::Success(
                session@,
            ),
            AuthenticationOutcome2fa::SuccessAdministrative(session) => {
                AuthenticationOutcome2faView::SuccessAdministrative(session@)
            },
            AuthenticationOutcome2fa::Failure => AuthenticationOutcome2faView::Failure,
        }
    }
}

/// The outcome that a promoted session stands for: the administrative
/// success for an administrator's record, the plain one otherwise.
pub open spec fn promoted_outcome_2fa(session: BaseSessionView) -> AuthenticationOutcome2faView {
    match session.info {
        SessionInfoView::Authenticated { admin: true, .. } => {
            AuthenticationOutcome2faView::SuccessAdministrative(session)
        },
        _ => AuthenticationOutcome2faView::Success(session),
    }
}

#[derive(Debug)]
enum Stage {
    SelectingUser { session: PreAuthenticationSession, credential: MfaAuthenticationMethod },
    Verifying { session: PreAuthenticationSession, profile: UserProfile },
    Promoting { promotion: Promotion },
}

/// An attempt at the second factor under way.
#[derive(Debug)]
pub struct SecondFactor {
    stage: Stage,
}

/// The mathematical content of a [`SecondFactor`].
pub enum SecondFactorView {
    /// Asked who the session's user is; the credential waits.
    SelectingUser { session: BaseSessionView, credential: MfaAuthenticationMethodView },
    /// Asked whether the credential is the user's second factor.
    Verifying { session: BaseSessionView, profile: UserProfile },
    /// The pre-authentication session is being promoted.
    Promoting { promotion: PromotionView },
}

impl View for SecondFactor {
    type V = SecondFactorView;

    closed spec fn view(&self) -> SecondFactorView {
        match self.stage {
            Stage::SelectingUser { session, credential } => SecondFactorView::SelectingUser {
                session: session@,
                credential: credential@,
            },
            Stage::Verifying { session, profile } => SecondFactorView::Verifying {
                session: session@,
                profile,
            },
            Stage::Promoting { promotion } => SecondFactorView::Promoting { promotion: promotion@ },
        }
    }
}

/// A step of an attempt at the second factor.
pub type SecondFactorStep = Step<
    SecondFactor,
    Request,
    Result<AuthenticationOutcome2fa, StorageError>,
>;

/// The mathematical content of a step of an attempt at the second factor.
pub type SecondFactorStepView = Step<
    SecondFactorView,
    RequestView,
    Result<AuthenticationOutcome2faView, StorageErrorView>,
>;

/// The mathematical content of the result of an attempt at the second
/// factor.
pub open spec fn second_factor_outcome_view(
    outcome: Result<AuthenticationOutcome2fa, StorageError>,
) -> Result<AuthenticationOutcome2faView, StorageErrorView> {
    match outcome {
        Ok(outcome) => Ok(outcome@),
        Err(error) => Err(error@),
    }
}

/// The mathematical content of a step of an attempt at the second factor.
pub open spec fn second_factor_view(step: SecondFactorStep) -> SecondFactorStepView {
    step.view_with(
        |outcome: Result<AuthenticationOutcome2fa, StorageError>|
            second_factor_outcome_view(outcome),
    )
}

impl SecondFactor {
    /// The first step: ask the directory who the session's user is.
    pub open spec fn spec_begin(session: BaseSessionView, credential: MfaAuthenticationMethodView)
        -> SecondFactorStepView {
        Step::Send(
            SecondFactorView::SelectingUser { session, credential },
            RequestView::Directory(QueryView::SelectUser { user_id: user_of(session) }),
        )
    }

    /// A step of the promotion, as a step of the attempt.
    pub open spec fn promoting(step: PromotionStepView) -> SecondFactorStepView {
        match step {
            Step::Send(promotion, command) => Step::Send(
                SecondFactorView::Promoting { promotion },
                RequestView::Store(command),
            ),
            Step::Finish(Ok(session)) => Step::Finish(Ok(promoted_outcome_2fa(session))),
            Step::Finish(Err(error)) => Step::Finish(
                Err(StorageErrorView::SessionStorageError(error)),
            ),
        }
    }

    /// The step that a response leads to. `csrf` is the CSRF token for the
    /// authenticated session, if this step starts the promotion; `token` is
    /// the first candidate token for that session, or the candidate to go
    /// on with if the current one turns out to be taken.
    pub open spec fn spec_resume(
        machine: SecondFactorView,
        response: ResponseView,
        csrf: Seq<char>,
        token: Seq<char>,
    ) -> SecondFactorStepView {
        match machine {
            SecondFactorView::SelectingUser { session, credential } => match response {
                ResponseView::Directory(AnswerView::User(None)) => Step::Finish(
                    Ok(AuthenticationOutcome2faView::Failure),
                ),
                ResponseView::Directory(AnswerView::User(Some(profile))) => Step::Send(
                    SecondFactorView::Verifying { session, profile },
                    RequestView::Directory(
                        QueryView::VerifySecondFactor { user_id: user_of(session), credential },
                    ),
                ),
                other => Step::Finish(Err(answer_error(other))),
            },
            SecondFactorView::Verifying { session, profile } => match response {
                ResponseView::Directory(AnswerView::Verdict(false)) => Step::Finish(
                    Ok(AuthenticationOutcome2faView::Failure),
                ),
                ResponseView::Directory(AnswerView::Verdict(true)) => Self::promoting(
                    Promotion::spec_begin(
                        session.token,
                        user_of(session),
                        profile.role == AppUserRole::Administrator,
                        csrf,
                        token,
                    ),
                ),
                other => Step::Finish(Err(answer_error(other))),
            },
            SecondFactorView::Promoting { promotion } => match response {
                ResponseView::Store(reply) => Self::promoting(
                    Promotion::spec_resume(promotion, reply, token),
                ),
                ResponseView::Directory(_) => Step::Finish(Err(misdirected())),
            },
        }
    }

    /// Whether the step that `response` leads to takes fresh tokens: it
    /// begins the promotion or goes on with another candidate token.
    pub open spec fn spec_needs_tokens(machine: SecondFactorView, response: ResponseView) -> bool {
        match machine {
            SecondFactorView::SelectingUser { .. } => false,
            SecondFactorView::Verifying { .. } => response == ResponseView::Directory(
                AnswerView::Verdict(true),
            ),
            SecondFactorView::Promoting { promotion } => response matches ResponseView::Store(
                reply,
            ) && Promotion::spec_needs_token(promotion, reply),
        }
    }

    /// Starts an attempt at the second factor by the holder of a
    /// pre-authentication session.
    pub(crate) fn begin(session: PreAuthenticationSession, credential: MfaAuthenticationMethod) -> (step:
        SecondFactorStep)
        ensures
            second_factor_view(step) == Self::spec_begin(session@, credential@),
    {
        let user_id = session.user_id();
        Step::Send(
            SecondFactor { stage: Stage::SelectingUser { session, credential } },
            Request::Directory(Query::SelectUser { user_id }),
        )
    }

    fn promoting_step(step: PromotionStep) -> (lifted: SecondFactorStep)
        ensures
            second_factor_view(lifted) == Self::promoting(promotion_view(step)),
    {
        match step {
            Step::Send(promotion, command) => Step::Send(
                SecondFactor { stage: Stage::Promoting { promotion } },
                Request::Store(command),
            ),
            Step::Finish(Ok(session)) => {
                proof {
                    session.lemma_variant();
                }
                match session {
                    GenericAuthenticatedSession::Customer(customer) => Step::Finish(
                        Ok(AuthenticationOutcome2fa::Success(customer)),
                    ),
                    GenericAuthenticatedSession::Administrator(administrator) => Step::Finish(
                        Ok(AuthenticationOutcome2fa::SuccessAdministrative(administrator)),
                    ),
                }
            },
            Step::Finish(Err(error)) => Step::Finish(Err(StorageError::SessionStorageError(error))),
        }
    }

    /// Whether the step that `response` leads to takes fresh tokens.
    pub fn needs_tokens(&self, response: &Response) -> (needs: bool)
        ensures
            needs == Self::spec_needs_tokens(self@, response@),
    {
        match &self.stage {
            Stage::SelectingUser { .. } => false,
            Stage::Verifying { .. } => match response {
                Response::Directory(Answer::Verdict(true)) => true,
                _ => false,
            },
            Stage::Promoting { promotion } => match response {
                Response::Store(reply) => promotion.needs_token(reply),
                Response::Directory(_) => false,
            },
        }
    }

    /// Takes the response to the request last handed out and says what
    /// comes next. `csrf` and `token` are used where the step starts the
    /// promotion or needs another candidate token; they are not looked at
    /// otherwise.
    pub fn resume_with(self, response: Response, csrf: String, token: String) -> (step:
        SecondFactorStep)
        ensures
            second_factor_view(step) == Self::spec_resume(self@, response@, csrf@, token@),
    {
        match self.stage {
            Stage::SelectingUser { session, credential } => match response {
                Response::Directory(Answer::User(None)) => Step::Finish(
                    Ok(AuthenticationOutcome2fa::Failure),
                ),
                Response::Directory(Answer::User(Some(profile))) => {
                    let user_id = session.user_id();
                    Step::Send(
                        SecondFactor { stage: Stage::Verifying { session, profile } },
                        Request::Directory(Query::VerifySecondFactor { user_id, credential }),
                    )
                },
                other => Step::Finish(Err(error_of_answer(other))),
            },
            Stage::Verifying { session, profile } => match response {
                Response::Directory(Answer::Verdict(false)) => Step::Finish(
                    Ok(AuthenticationOutcome2fa::Failure),
                ),
                Response::Directory(Answer::Verdict(true)) => Self::promoting_step(
                    session.promote_with(profile.role.is_admin(), csrf, token),
                ),
                other => Step::Finish(Err(error_of_answer(other))),
            },
            Stage::Promoting { promotion } => match response {
                Response::Store(reply) => Self::promoting_step(
                    promotion.resume_with(reply, token),
                ),
                Response::Directory(_) => Step::Finish(
                    Err(StorageError::of(StorageFault::UnexpectedReply)),
                ),
            },
        }
    }

    /// Takes the response to the request last handed out and says what
    /// comes next. Fresh tokens are generated only where the response calls
    /// for them; if the operating system then gives no random bytes, the
    /// attempt ends with `NoRandomness`.
    pub fn resume(self, response: Response) -> (step: SecondFactorStep)
        ensures
            !Self::spec_needs_tokens(self@, response@) ==> second_factor_view(step) == Self::spec_resume(
                self@,
                response@,
                Seq::empty(),
                Seq::empty(),
            ),
            Self::spec_needs_tokens(self@, response@) ==> second_factor_view(step) == Step::<
                SecondFactorView,
                RequestView,
                Result<AuthenticationOutcome2faView, StorageErrorView>,
            >::Finish(Err(no_randomness_error())) || exists|csrf: Seq<char>, token: Seq<char>|
                is_token(csrf) && is_token(token) && second_factor_view(step)
                    == #[trigger] Self::spec_resume(self@, response@, csrf, token),
    {
        if self.needs_tokens(&response) {
            match generate_token() {
                Some(csrf) => match generate_token() {
                    Some(token) => {
                        let ghost csrf_text = csrf@;
                        let ghost token_text = token@;
                        let ghost before = self@;
                        let step = self.resume_with(response, csrf, token);
                        assert(is_token(csrf_text) && is_token(token_text) && second_factor_view(
                            step,
                        ) == Self::spec_resume(before, response@, csrf_text, token_text));
                        step
                    },
                    None => Step::Finish(Err(StorageError::of(StorageFault::NoRandomness))),
                },
                None => Step::Finish(Err(StorageError::of(StorageFault::NoRandomness))),
            }
        } else {
            self.resume_with(response, String::new(), String::new())
        }
    }
}

/// Authenticates the holder of a pre-authentication session with a second
/// factor: the first step of a [`SecondFactor`].
pub fn authenticate_2fa(session: PreAuthenticationSession, method: MfaAuthenticationMethod) -> (step:
    SecondFactorStep)
    ensures
        second_factor_view(step) == SecondFactor::spec_begin(session@, method@),
{
    SecondFactor::begin(session, method)
}

} // verus!
