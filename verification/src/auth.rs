//! Authentication with a primary credential.
//!
//! The user is looked up by email address and the credential is verified;
//! where either fails, the outcome is a plain failure that says not which.
//! Then a pre-authentication session is created. If the user has enrolled a
//! second factor, that session is the outcome, and the second factor is
//! owed; if not, the session is promoted at once, to the role that the
//! directory gives the user.

use crate::creation::{creation_view, Creation, CreationStep, CreationStepView, CreationView};
use crate::directory::{
    answer_error, error_of_answer, inconsistent, misdirected, no_randomness_error, Answer,
    AnswerView, PrimaryAuthenticationMethod, PrimaryAuthenticationMethodView, Query, QueryView,
    Request, RequestView, Response, ResponseView, StorageError, StorageErrorView,
};
use crate::email::EmailAddress;
use crate::promotion::{
    pre_authentication_info, promotion_view, Promotion, PromotionStep, PromotionStepView,
    PromotionView,
};
use crate::protocol::Step;
use crate::sessions::{
    time_to_live, AdministratorSession, BaseSessionView, CustomerSession,
    GenericAuthenticatedSession, PreAuthenticationSession, SessionTrait,
};
use crate::store::{SessionInfoView, StorageFault};
use crate::token::{generate_token, is_token};
use crate::users::{AppUserRole, UserProfile};
use vstd::prelude::*;

verus! {

/// The outcome of an authentication attempt.
#[derive(Debug)]
pub enum AuthenticationOutcome {
    /// The user is authenticated as a customer.
    Success(CustomerSession),
    /// The primary credential was accepted and a second factor is owed.
    Partial(PreAuthenticationSession),
    /// The user is unknown or the credential is wrong.
    Failure,
    /// The user is authenticated as an administrator.
    SuccessAdministrative(AdministratorSession),
}

/// The mathematical content of an [`AuthenticationOutcome`].
pub enum AuthenticationOutcomeView {
    Success(BaseSessionView),
    Partial(BaseSessionView),
    Failure,
    SuccessAdministrative(BaseSessionView),
}

impl View for AuthenticationOutcome {
    type V = AuthenticationOutcomeView;

    open spec fn view(&self) -> AuthenticationOutcomeView {
        match *self {
            AuthenticationOutcome::Success(session) => AuthenticationOutcomeView::Success(session@),
            AuthenticationOutcome::Partial(session) => AuthenticationOutcomeView::Partial(session@),
            AuthenticationOutcome::Failure => AuthenticationOutcomeView::Failure,
            AuthenticationOutcome::SuccessAdministrative(session) => {
                AuthenticationOutcomeView::SuccessAdministrative(session@)
            },
        }
    }
}

/// The outcome that a promoted session stands for: the administrative
/// success for an administrator's record, the plain one otherwise.
pub open spec fn promoted_outcome(session: BaseSessionView) -> AuthenticationOutcomeView {
    match session.info {
        SessionInfoView::Authenticated { admin: true, .. } => {
            AuthenticationOutcomeView::SuccessAdministrative(session)
        },
        _ => AuthenticationOutcomeView::Success(session),
    }
}

/// The outcome that a promoted session stands for.
pub fn outcome_of(session: GenericAuthenticatedSession) -> (outcome: AuthenticationOutcome)
    ensures
        outcome@ == promoted_outcome(session@),
{
    proof {
        session.lemma_variant();
    }
    match session {
        GenericAuthenticatedSession::Customer(customer) => AuthenticationOutcome::Success(customer),
        GenericAuthenticatedSession::Administrator(administrator) => {
            AuthenticationOutcome::SuccessAdministrative(administrator)
        },
    }
}

#[derive(Debug)]
enum Stage {
    FindingUser { credential: PrimaryAuthenticationMethod },
    Verifying { profile: UserProfile },
    Creating { profile: UserProfile, creation: Creation },
    CheckingSecondFactor { profile: UserProfile, session: PreAuthenticationSession },
    Promoting { promotion: Promotion },
}

/// An authentication under way.
#[derive(Debug)]
pub struct Authentication {
    stage: Stage,
}

/// The mathematical content of an [`Authentication`].
pub enum AuthenticationView {
    /// Asked who has the email address; the credential waits.
    FindingUser { credential: PrimaryAuthenticationMethodView },
    /// Asked whether the credential is the user's.
    Verifying { profile: UserProfile },
    /// The pre-authentication session is being created.
    Creating { profile: UserProfile, creation: CreationView },
    /// Asked whether the user has enrolled a second factor.
    CheckingSecondFactor { profile: UserProfile, session: BaseSessionView },
    /// The pre-authentication session is being promoted.
    Promoting { promotion: PromotionView },
}

impl View for Authentication {
    type V = AuthenticationView;

    closed spec fn view(&self) -> AuthenticationView {
        match self.stage {
            Stage::FindingUser { credential } => AuthenticationView::FindingUser {
                credential: credential@,
            },
            Stage::Verifying { profile } => AuthenticationView::Verifying { profile },
            Stage::Creating { profile, creation } => AuthenticationView::Creating {
                profile,
                creation: creation@,
            },
            Stage::CheckingSecondFactor { profile, session } => {
                AuthenticationView::CheckingSecondFactor { profile, session: session@ }
            },
            Stage::Promoting { promotion } => AuthenticationView::Promoting {
                promotion: promotion@,
            },
        }
    }
}

/// A step of an authentication.
pub type AuthenticationStep = Step<
    Authentication,
    Request,
    Result<AuthenticationOutcome, StorageError>,
>;

/// The mathematical content of a step of an authentication.
pub type AuthenticationStepView = Step<
    AuthenticationView,
    RequestView,
    Result<AuthenticationOutcomeView, StorageErrorView>,
>;

/// The mathematical content of the result of an authentication.
pub open spec fn authenticated_view(outcome: Result<AuthenticationOutcome, StorageError>) -> Result<
    AuthenticationOutcomeView,
    StorageErrorView,
> {
    match outcome {
        Ok(outcome) => Ok(outcome@),
        Err(error) => Err(error@),
    }
}

/// The mathematical content of a step of an authentication.
pub open spec fn authentication_view(step: AuthenticationStep) -> AuthenticationStepView {
    step.view_with(
        |outcome: Result<AuthenticationOutcome, StorageError>| authenticated_view(outcome),
    )
}

/// The user of a pre-authentication record.
pub open spec fn user_of(session: BaseSessionView) -> crate::users::UserId {
    match session.info {
        SessionInfoView::PreAuthentication { user_id, .. } => user_id,
        SessionInfoView::Authenticated { user_id, .. } => user_id,
        SessionInfoView::Registration { .. } => crate::users::UserId { value: 0 },
    }
}

impl Authentication {
    /// The first step: ask the directory who has the email address.
    pub open spec fn spec_begin(email: Seq<char>, credential: PrimaryAuthenticationMethodView)
        -> AuthenticationStepView {
        Step::Send(
            AuthenticationView::FindingUser { credential },
            RequestView::Directory(QueryView::FindUser { email }),
        )
    }

    /// A step of the creation of the pre-authentication session, as a step
    /// of the authentication. Once the session exists, the directory is
    /// asked whether the user has enrolled a second factor.
    pub open spec fn creating(profile: UserProfile, step: CreationStepView)
        -> AuthenticationStepView {
        match step {
            Step::Send(creation, command) => Step::Send(
                AuthenticationView::Creating { profile, creation },
                RequestView::Store(command),
            ),
            Step::Finish(Ok(session)) => if session.info is PreAuthentication {
                Step::Send(
                    AuthenticationView::CheckingSecondFactor { profile, session },
                    RequestView::Directory(QueryView::HasSecondFactor { user_id: profile.id }),
                )
            } else {
                Step::Finish(Err(inconsistent()))
            },
            Step::Finish(Err(error)) => Step::Finish(
                Err(StorageErrorView::SessionStorageError(error)),
            ),
        }
    }

    /// A step of the promotion, as a step of the authentication.
    pub open spec fn promoting(step: PromotionStepView) -> AuthenticationStepView {
        match step {
            Step::Send(promotion, command) => Step::Send(
                AuthenticationView::Promoting { promotion },
                RequestView::Store(command),
            ),
            Step::Finish(Ok(session)) => Step::Finish(Ok(promoted_outcome(session))),
            Step::Finish(Err(error)) => Step::Finish(
                Err(StorageErrorView::SessionStorageError(error)),
            ),
        }
    }

    /// The step that a response leads to. `csrf` is the CSRF token for a
    /// session that this step starts to create; `token` is the first
    /// candidate token for such a session, or the candidate to go on with
    /// if the current one turns out to be taken.
    pub open spec fn spec_resume(
        machine: AuthenticationView,
        response: ResponseView,
        csrf: Seq<char>,
        token: Seq<char>,
    ) -> AuthenticationStepView {
        match machine {
            AuthenticationView::FindingUser { credential } => match response {
                ResponseView::Directory(AnswerView::User(None)) => Step::Finish(
                    Ok(AuthenticationOutcomeView::Failure),
                ),
                ResponseView::Directory(AnswerView::User(Some(profile))) => Step::Send(
                    AuthenticationView::Verifying { profile },
                    RequestView::Directory(
                        QueryView::VerifyPrimary { user_id: profile.id, credential },
                    ),
                ),
                other => Step::Finish(Err(answer_error(other))),
            },
            AuthenticationView::Verifying { profile } => match response {
                ResponseView::Directory(AnswerView::Verdict(false)) => Step::Finish(
                    Ok(AuthenticationOutcomeView::Failure),
                ),
                ResponseView::Directory(AnswerView::Verdict(true)) => Self::creating(
                    profile,
                    Creation::spec_begin(
                        pre_authentication_info(profile.id, csrf),
                        time_to_live(pre_authentication_info(profile.id, csrf)),
                        token,
                    ),
                ),
                other => Step::Finish(Err(answer_error(other))),
            },
            AuthenticationView::Creating { profile, creation } => match response {
                ResponseView::Store(reply) => Self::creating(
                    profile,
                    Creation::spec_resume(creation, reply, token),
                ),
                ResponseView::Directory(_) => Step::Finish(Err(misdirected())),
            },
            AuthenticationView::CheckingSecondFactor { profile, session } => match response {
                ResponseView::Directory(AnswerView::Verdict(true)) => Step::Finish(
                    Ok(AuthenticationOutcomeView::Partial(session)),
                ),
                ResponseView::Directory(AnswerView::Verdict(false)) => Self::promoting(
                    Promotion::spec_begin(
                        session.token,
                        user_of(session),
                        profile.role == AppUserRole::Administrator,
                        csrf,
                        token,
                    ),
                ),
                other => Step::Finish(Err(answer_error(other))),
            },
            AuthenticationView::Promoting { promotion } => match response {
                ResponseView::Store(reply) => Self::promoting(
                    Promotion::spec_resume(promotion, reply, token),
                ),
                ResponseView::Directory(_) => Step::Finish(Err(misdirected())),
            },
        }
    }

    /// Whether the step that `response` leads to takes fresh tokens: it
    /// begins the creation of the pre-authentication session or the
    /// promotion, or goes on with another candidate token.
    pub open spec fn spec_needs_tokens(machine: AuthenticationView, response: ResponseView) -> bool {
        match machine {
            AuthenticationView::FindingUser { .. } => false,
            AuthenticationView::Verifying { .. } => response == ResponseView::Directory(
                AnswerView::Verdict(true),
            ),
            AuthenticationView::Creating { creation, .. } => response matches ResponseView::Store(
                reply,
            ) && creation.needs_token(reply),
            AuthenticationView::CheckingSecondFactor { .. } => response == ResponseView::Directory(
                AnswerView::Verdict(false),
            ),
            AuthenticationView::Promoting { promotion } => response matches ResponseView::Store(
                reply,
            ) && Promotion::spec_needs_token(promotion, reply),
        }
    }

    /// Starts the authentication of whoever has the email address, with the
    /// credential given.
    pub(crate) fn begin(email: EmailAddress, credential: PrimaryAuthenticationMethod) -> (step:
        AuthenticationStep)
        ensures
            authentication_view(step) == Self::spec_begin(email@, credential@),
    {
        Step::Send(
            Authentication { stage: Stage::FindingUser { credential } },
            Request::Directory(Query::FindUser { email }),
        )
    }

    fn creating_step(profile: UserProfile, step: CreationStep) -> (lifted: AuthenticationStep)
        ensures
            authentication_view(lifted) == Self::creating(profile, creation_view(step)),
    {
        match step {
            Step::Send(creation, command) => Step::Send(
                Authentication { stage: Stage::Creating { profile, creation } },
                Request::Store(command),
            ),
            Step::Finish(Ok(session)) => match PreAuthenticationSession::from_base(session) {
                Some(session) => Step::Send(
                    Authentication { stage: Stage::CheckingSecondFactor { profile, session } },
                    Request::Directory(Query::HasSecondFactor { user_id: profile.id }),
                ),
                None => Step::Finish(Err(StorageError::of(StorageFault::Inconsistent))),
            },
            Step::Finish(Err(error)) => Step::Finish(Err(StorageError::SessionStorageError(error))),
        }
    }

    fn promoting_step(step: PromotionStep) -> (lifted: AuthenticationStep)
        ensures
            authentication_view(lifted) == Self::promoting(promotion_view(step)),
    {
        match step {
            Step::Send(promotion, command) => Step::Send(
                Authentication { stage: Stage::Promoting { promotion } },
                Request::Store(command),
            ),
            Step::Finish(Ok(session)) => Step::Finish(Ok(outcome_of(session))),
            Step::Finish(Err(error)) => Step::Finish(Err(StorageError::SessionStorageError(error))),
        }
    }

    /// Whether the step that `response` leads to takes fresh tokens.
    pub fn needs_tokens(&self, response: &Response) -> (needs: bool)
        ensures
            needs == Self::spec_needs_tokens(self@, response@),
    {
        match &self.stage {
            Stage::FindingUser { .. } => false,
            Stage::Verifying { .. } => match response {
                Response::Directory(Answer::Verdict(true)) => true,
                _ => false,
            },
            Stage::Creating { creation, .. } => match response {
                Response::Store(reply) => creation.needs_token(reply),
                Response::Directory(_) => false,
            },
            Stage::CheckingSecondFactor { .. } => match response {
                Response::Directory(Answer::Verdict(false)) => true,
                _ => false,
            },
            Stage::Promoting { promotion } => match response {
                Response::Store(reply) => promotion.needs_token(reply),
                Response::Directory(_) => false,
            },
        }
    }

    /// Takes the response to the request last handed out and says what
    /// comes next. `csrf` and `token` are used where the step starts a
    /// session or needs another candidate token; they are not looked at
    /// otherwise.
    pub fn resume_with(self, response: Response, csrf: String, token: String) -> (step:
        AuthenticationStep)
        ensures
            authentication_view(step) == Self::spec_resume(self@, response@, csrf@, token@),
    {
        match self.stage {
            Stage::FindingUser { credential } => match response {
                Response::Directory(Answer::User(None)) => Step::Finish(
                    Ok(AuthenticationOutcome::Failure),
                ),
                Response::Directory(Answer::User(Some(profile))) => Step::Send(
                    Authentication { stage: Stage::Verifying { profile } },
                    Request::Directory(Query::VerifyPrimary { user_id: profile.id, credential }),
                ),
                other => Step::Finish(Err(error_of_answer(other))),
            },
            Stage::Verifying { profile } => match response {
                Response::Directory(Answer::Verdict(false)) => Step::Finish(
                    Ok(AuthenticationOutcome::Failure),
                ),
                Response::Directory(Answer::Verdict(true)) => Self::creating_step(
                    profile,
                    PreAuthenticationSession::create_with(profile.id, csrf, token),
                ),
                other => Step::Finish(Err(error_of_answer(other))),
            },
            Stage::Creating { profile, creation } => match response {
                Response::Store(reply) => Self::creating_step(
                    profile,
                    creation.resume_with(reply, token),
                ),
                Response::Directory(_) => Step::Finish(
                    Err(StorageError::of(StorageFault::UnexpectedReply)),
                ),
            },
            Stage::CheckingSecondFactor { profile, session } => match response {
                Response::Directory(Answer::Verdict(true)) => Step::Finish(
                    Ok(AuthenticationOutcome::Partial(session)),
                ),
                Response::Directory(Answer::Verdict(false)) => {
                    proof {
                        session.lemma_shape();
                    }
                    Self::promoting_step(
                        session.promote_with(profile.role.is_admin(), csrf, token),
                    )
                },
                other => Step::Finish(Err(error_of_answer(other))),
            },
            Stage::Promoting { promotion } => match response {
                Response::Store(reply) => Self::promoting_step(
                    promotion.resume_with(reply, token),
                ),
                Response::Directory(_) => Step::Finish(
                    Err(StorageError::of(StorageFault::UnexpectedReply)),
                ),
            },
        }
    }

    /// Takes the response to the request last handed out and says what
    /// comes next. Fresh tokens are generated only where the response calls
    /// for them; if the operating system then gives no random bytes, the
    /// authentication ends with `NoRandomness`.
    pub fn resume(self, response: Response) -> (step: AuthenticationStep)
        ensures
            !Self::spec_needs_tokens(self@, response@) ==> authentication_view(step) == Self::spec_resume(
                self@,
                response@,
                Seq::empty(),
                Seq::empty(),
            ),
            Self::spec_needs_tokens(self@, response@) ==> authentication_view(step) == Step::<
                AuthenticationView,
                RequestView,
                Result<AuthenticationOutcomeView, StorageErrorView>,
            >::Finish(Err(no_randomness_error())) || exists|csrf: Seq<char>, token: Seq<char>|
                is_token(csrf) && is_token(token) && authentication_view(step)
                    == #[trigger] Self::spec_resume(self@, response@, csrf, token),
    {
        if self.needs_tokens(&response) {
            match generate_token() {
                Some(csrf) => match generate_token() {
                    Some(token) => {
                        let ghost csrf_text = csrf@;
                        let ghost token_text = token@;
                        let ghost before = self@;
                        let step = self.resume_with(response, csrf, token);
                        assert(is_token(csrf_text) && is_token(token_text) && authentication_view(
                            step,
                        ) == Self::spec_resume(before, response@, csrf_text, token_text));
                        step
                    },
                    None => Step::Finish(Err(StorageError::of(StorageFault::NoRandomness))),
                },
                None => Step::Finish(Err(StorageError::of(StorageFault::NoRandomness))),
            }
        } else {
            self.resume_with(response, String::new(), String::new())
        }
    }
}

/// Authenticates whoever has the email address with a primary credential:
/// the first step of an [`Authentication`].
pub fn authenticate(email: EmailAddress, credential: PrimaryAuthenticationMethod) -> (step:
    AuthenticationStep)
    ensures
        authentication_view(step) == Authentication::spec_begin(email@, credential@),
{
    Authentication::begin(email, credential)
}

} // verus!
