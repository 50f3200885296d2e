//! The login of a client: the guard against guessing first, then the
//! authentication, then the cookies that carry the session.
//!
//! The client is named by the header that the reverse proxy sets. A request
//! without that header is turned away: the guard is never skipped.

use crate::auth::{
    authentication_view, Authentication, AuthenticationOutcome, AuthenticationOutcomeView,
    AuthenticationStep, AuthenticationStepView, AuthenticationView,
};
use crate::directory::{
    misdirected, no_randomness_error, PrimaryAuthenticationMethod, PrimaryAuthenticationMethodView,
    Request, RequestView, Response, ResponseView, StorageError, StorageErrorView,
};
use crate::email::EmailAddress;
use crate::guard::{guard_view, Guard, GuardStep, GuardStepView, GuardView};
use crate::http::{
    csrf_cookie, csrf_cookie_of, session_cookie, session_cookie_of, Cookie, CookieView,
    HeaderValue, HeaderValueView, STATUS_BAD_REQUEST, STATUS_INTERNAL_SERVER_ERROR,
    STATUS_TOO_MANY_REQUESTS, STATUS_UNAUTHORIZED,
};
use crate::protocol::Step;
use crate::second_factor::{AuthenticationOutcome2fa, AuthenticationOutcome2faView};
use crate::sessions::{BaseSessionView, SessionTrait};
use crate::store::StorageFault;
use crate::token::{generate_token, is_token};
use vstd::prelude::*;

verus! {

/// Why a login was turned away.
#[derive(Debug)]
pub enum LoginRejection {
    /// The request does not name its client.
    ClientAddressMissing,
    /// The header that names the client cannot be read as text.
    ClientAddressUnreadable,
    /// The client has made too many attempts; whether the credential is
    /// right is not even looked at.
    TooManyAttempts,
    /// The user is unknown or the credential is wrong.
    AuthenticationFailed,
    /// The second factor is wrong, or its user is no longer known.
    SecondFactorFailed,
    /// One of the stores failed.
    Storage(StorageError),
}

/// The mathematical content of a [`LoginRejection`].
pub enum LoginRejectionView {
    ClientAddressMissing,
    ClientAddressUnreadable,
    TooManyAttempts,
    AuthenticationFailed,
    SecondFactorFailed,
    Storage(StorageErrorView),
}

impl View for LoginRejection {
    type V = LoginRejectionView;

    open spec fn view(&self) -> LoginRejectionView {
        match *self {
            LoginRejection::ClientAddressMissing => LoginRejectionView::ClientAddressMissing,
            LoginRejection::ClientAddressUnreadable => LoginRejectionView::ClientAddressUnreadable,
            LoginRejection::TooManyAttempts => LoginRejectionView::TooManyAttempts,
            LoginRejection::AuthenticationFailed => LoginRejectionView::AuthenticationFailed,
            LoginRejection::SecondFactorFailed => LoginRejectionView::SecondFactorFailed,
            LoginRejection::Storage(error) => LoginRejectionView::Storage(error@),
        }
    }
}

impl LoginRejection {
    /// The status code that answers the rejected login.
    pub fn status(&self) -> (code: u16)
        ensures
            code == match self@ {
                LoginRejectionView::ClientAddressMissing => STATUS_BAD_REQUEST,
                LoginRejectionView::ClientAddressUnreadable => STATUS_BAD_REQUEST,
                LoginRejectionView::TooManyAttempts => STATUS_TOO_MANY_REQUESTS,
                LoginRejectionView::AuthenticationFailed => STATUS_UNAUTHORIZED,
                LoginRejectionView::SecondFactorFailed => STATUS_UNAUTHORIZED,
                LoginRejectionView::Storage(_) => STATUS_INTERNAL_SERVER_ERROR,
            },
    {
        match self {
            LoginRejection::ClientAddressMissing => STATUS_BAD_REQUEST,
            LoginRejection::ClientAddressUnreadable => STATUS_BAD_REQUEST,
            LoginRejection::TooManyAttempts => STATUS_TOO_MANY_REQUESTS,
            LoginRejection::AuthenticationFailed => STATUS_UNAUTHORIZED,
            LoginRejection::SecondFactorFailed => STATUS_UNAUTHORIZED,
            LoginRejection::Storage(_) => STATUS_INTERNAL_SERVER_ERROR,
        }
    }

    /// The words that answer the rejected login.
    pub fn message(&self) -> (text: String)
        ensures
            text@ == match self@ {
                LoginRejectionView::ClientAddressMissing => "X-Real-IP not set"@,
                LoginRejectionView::ClientAddressUnreadable => "X-Real-IP value unparseable"@,
                LoginRejectionView::TooManyAttempts => "Too many authentication attempts."@,
                LoginRejectionView::AuthenticationFailed => "Authentication failed"@,
                LoginRejectionView::SecondFactorFailed => "Two-factor authentication failed"@,
                LoginRejectionView::Storage(StorageErrorView::DatabaseError(error)) => error.detail,
                LoginRejectionView::Storage(StorageErrorView::SessionStorageError(error)) => {
                    error.detail
                },
            },
    {
        match self {
            LoginRejection::ClientAddressMissing => String::from_str("X-Real-IP not set"),
            LoginRejection::ClientAddressUnreadable => String::from_str(
                "X-Real-IP value unparseable",
            ),
            LoginRejection::TooManyAttempts => String::from_str(
                "Too many authentication attempts.",
            ),
            LoginRejection::AuthenticationFailed => String::from_str("Authentication failed"),
            LoginRejection::SecondFactorFailed => String::from_str(
                "Two-factor authentication failed",
            ),
            LoginRejection::Storage(error) => error.message(),
        }
    }
}

/// What a successful login answers with.
#[derive(Debug)]
pub struct LoginGrant {
    /// The cookie that carries the session token.
    pub session_cookie: Cookie,
    /// The cookie that carries the session's CSRF token.
    pub csrf_cookie: Cookie,
    /// Whether a second factor is owed.
    pub mfa_required: bool,
    /// Whether the session is an administrator's; `None` while a second
    /// factor is owed.
    pub is_admin: Option<bool>,
}

/// The mathematical content of a [`LoginGrant`].
pub struct LoginGrantView {
    pub session_cookie: CookieView,
    pub csrf_cookie: CookieView,
    pub mfa_required: bool,
    pub is_admin: Option<bool>,
}

impl View for LoginGrant {
    type V = LoginGrantView;

    open spec fn view(&self) -> LoginGrantView {
        LoginGrantView {
            session_cookie: self.session_cookie@,
            csrf_cookie: self.csrf_cookie@,
            mfa_required: self.mfa_required,
            is_admin: self.is_admin,
        }
    }
}

/// The grant for a session: its two cookies, and what is told of it.
pub open spec fn grant_for(session: BaseSessionView, mfa_required: bool, is_admin: Option<bool>)
    -> LoginGrantView {
    LoginGrantView {
        session_cookie: session_cookie_of(session.token),
        csrf_cookie: csrf_cookie_of(session.info.csrf()),
        mfa_required,
        is_admin,
    }
}

/// What the outcome of an authentication comes to for the client.
pub open spec fn grant_of(outcome: AuthenticationOutcomeView) -> Result<
    LoginGrantView,
    LoginRejectionView,
> {
    match outcome {
        AuthenticationOutcomeView::Failure => Err(LoginRejectionView::AuthenticationFailed),
        AuthenticationOutcomeView::SuccessAdministrative(session) => Ok(
            grant_for(session, false, Some(true)),
        ),
        AuthenticationOutcomeView::Success(session) => Ok(grant_for(session, false, Some(false))),
        AuthenticationOutcomeView::Partial(session) => Ok(grant_for(session, true, None)),
    }
}

fn grant_session<T: SessionTrait>(session: &T, mfa_required: bool, is_admin: Option<bool>) -> (grant:
    LoginGrant)
    ensures
        grant@ == grant_for(session.record(), mfa_required, is_admin),
{
    LoginGrant {
        session_cookie: session_cookie(session.token()),
        csrf_cookie: csrf_cookie(session.csrf_token()),
        mfa_required,
        is_admin,
    }
}

/// Turns the outcome of an authentication into the answer for the client.
pub fn login_grant(outcome: AuthenticationOutcome) -> (answer: Result<LoginGrant, LoginRejection>)
    ensures
        login_answer_view(answer) == grant_of(outcome@),
{
    match outcome {
        AuthenticationOutcome::Failure => Err(LoginRejection::AuthenticationFailed),
        AuthenticationOutcome::SuccessAdministrative(session) => Ok(
            grant_session(&session, false, Some(true)),
        ),
        AuthenticationOutcome::Success(session) => Ok(grant_session(&session, false, Some(false))),
        AuthenticationOutcome::Partial(session) => Ok(grant_session(&session, true, None)),
    }
}

/// What the outcome of an attempt at the second factor comes to for the
/// client: the cookies of the new session and whether it is an
/// administrator's, or `SecondFactorFailed` where the attempt failed.
pub open spec fn second_factor_grant_of(outcome: AuthenticationOutcome2faView) -> Result<
    LoginGrantView,
    LoginRejectionView,
> {
    match outcome {
        AuthenticationOutcome2faView::Failure => Err(LoginRejectionView::SecondFactorFailed),
        AuthenticationOutcome2faView::Success(session) => Ok(
            grant_for(session, false, Some(false)),
        ),
        AuthenticationOutcome2faView::SuccessAdministrative(session) => Ok(
            grant_for(session, false, Some(true)),
        ),
    }
}

/// Turns the outcome of an attempt at the second factor into the answer for
/// the client.
pub fn second_factor_grant(outcome: AuthenticationOutcome2fa) -> (answer: Result<
    LoginGrant,
    LoginRejection,
>)
    ensures
        login_answer_view(answer) == second_factor_grant_of(outcome@),
{
    match outcome {
        AuthenticationOutcome2fa::Failure => Err(LoginRejection::SecondFactorFailed),
        AuthenticationOutcome2fa::Success(session) => Ok(
            grant_session(&session, false, Some(false)),
        ),
        AuthenticationOutcome2fa::SuccessAdministrative(session) => Ok(
            grant_session(&session, false, Some(true)),
        ),
    }
}

#[derive(Debug)]
enum Stage {
    Guarding { guard: Guard, email: EmailAddress, credential: PrimaryAuthenticationMethod },
    Authenticating { authentication: Authentication },
}

/// A login under way.
#[derive(Debug)]
pub struct Login {
    stage: Stage,
}

/// The mathematical content of a [`Login`].
pub enum LoginView {
    /// The attempt is being recorded; email address and credential wait.
    Guarding { guard: GuardView, email: Seq<char>, credential: PrimaryAuthenticationMethodView },
    /// The attempt was allowed; the authentication runs.
    Authenticating { authentication: AuthenticationView },
}

impl View for Login {
    type V = LoginView;

    closed spec fn view(&self) -> LoginView {
        match self.stage {
            Stage::Guarding { guard, email, credential } => LoginView::Guarding {
                guard: guard@,
                email: email@,
                credential: credential@,
            },
            Stage::Authenticating { authentication } => LoginView::Authenticating {
                authentication: authentication@,
            },
        }
    }
}

/// A step of a login.
pub type LoginStep = Step<Login, Request, Result<LoginGrant, LoginRejection>>;

/// The mathematical content of a step of a login.
pub type LoginStepView = Step<LoginView, RequestView, Result<LoginGrantView, LoginRejectionView>>;

/// The mathematical content of the answer of a login.
pub open spec fn login_answer_view(answer: Result<LoginGrant, LoginRejection>) -> Result<
    LoginGrantView,
    LoginRejectionView,
> {
    match answer {
        Ok(grant) => Ok(grant@),
        Err(rejection) => Err(rejection@),
    }
}

/// The mathematical content of a step of a login.
pub open spec fn login_view(step: LoginStep) -> LoginStepView {
    step.view_with(|answer: Result<LoginGrant, LoginRejection>| login_answer_view(answer))
}

impl Login {
    /// A step of the authentication, as a step of the login.
    pub open spec fn authenticating(step: AuthenticationStepView) -> LoginStepView {
        match step {
            Step::Send(authentication, request) => Step::Send(
                LoginView::Authenticating { authentication },
                request,
            ),
            Step::Finish(Ok(outcome)) => Step::Finish(grant_of(outcome)),
            Step::Finish(Err(error)) => Step::Finish(Err(LoginRejectionView::Storage(error))),
        }
    }

    /// A step of the guard, as a step of the login. A denied attempt ends
    /// the login; an allowed one starts the authentication.
    pub open spec fn guarding(
        email: Seq<char>,
        credential: PrimaryAuthenticationMethodView,
        step: GuardStepView,
    ) -> LoginStepView {
        match step {
            Step::Send(guard, command) => Step::Send(
                LoginView::Guarding { guard, email, credential },
                RequestView::Store(command),
            ),
            Step::Finish(Ok(true)) => Step::Finish(Err(LoginRejectionView::TooManyAttempts)),
            Step::Finish(Ok(false)) => Self::authenticating(
                Authentication::spec_begin(email, credential),
            ),
            Step::Finish(Err(error)) => Step::Finish(
                Err(LoginRejectionView::Storage(StorageErrorView::SessionStorageError(error))),
            ),
        }
    }

    /// The first step: a request that does not name its client is turned
    /// away; for any other, the attempt is recorded.
    pub open spec fn spec_begin(
        address: HeaderValueView,
        email: Seq<char>,
        credential: PrimaryAuthenticationMethodView,
    ) -> LoginStepView {
        match address {
            HeaderValueView::Missing => Step::Finish(Err(LoginRejectionView::ClientAddressMissing)),
            HeaderValueView::Unreadable => Step::Finish(
                Err(LoginRejectionView::ClientAddressUnreadable),
            ),
            HeaderValueView::Text(client) => Self::guarding(
                email,
                credential,
                Guard::spec_begin(client),
            ),
        }
    }

    /// The step that a response leads to. `csrf` and `token` are as for the
    /// authentication.
    pub open spec fn spec_resume(
        machine: LoginView,
        response: ResponseView,
        csrf: Seq<char>,
        token: Seq<char>,
    ) -> LoginStepView {
        match machine {
            LoginView::Guarding { guard, email, credential } => match response {
                ResponseView::Store(reply) => Self::guarding(
                    email,
                    credential,
                    Guard::spec_resume(guard, reply),
                ),
                ResponseView::Directory(_) => Step::Finish(
                    Err(LoginRejectionView::Storage(misdirected())),
                ),
            },
            LoginView::Authenticating { authentication } => Self::authenticating(
                Authentication::spec_resume(authentication, response, csrf, token),
            ),
        }
    }

    /// Whether the step that `response` leads to takes fresh tokens.
    pub open spec fn spec_needs_tokens(machine: LoginView, response: ResponseView) -> bool {
        machine matches LoginView::Authenticating { authentication }
            && Authentication::spec_needs_tokens(authentication, response)
    }

    fn authenticating_step(step: AuthenticationStep) -> (lifted: LoginStep)
        ensures
            login_view(lifted) == Self::authenticating(authentication_view(step)),
    {
        match step {
            Step::Send(authentication, request) => Step::Send(
                Login { stage: Stage::Authenticating { authentication } },
                request,
            ),
            Step::Finish(Ok(outcome)) => Step::Finish(login_grant(outcome)),
            Step::Finish(Err(error)) => Step::Finish(Err(LoginRejection::Storage(error))),
        }
    }

    fn guarding_step(email: EmailAddress, credential: PrimaryAuthenticationMethod, step: GuardStep)
        -> (lifted: LoginStep)
        ensures
            login_view(lifted) == Self::guarding(email@, credential@, guard_view(step)),
    {
        match step {
            Step::Send(guard, command) => Step::Send(
                Login { stage: Stage::Guarding { guard, email, credential } },
                Request::Store(command),
            ),
            Step::Finish(Ok(true)) => Step::Finish(Err(LoginRejection::TooManyAttempts)),
            Step::Finish(Ok(false)) => Self::authenticating_step(
                Authentication::begin(email, credential),
            ),
            Step::Finish(Err(error)) => Step::Finish(
                Err(LoginRejection::Storage(StorageError::SessionStorageError(error))),
            ),
        }
    }

    /// Starts the login of the client that `address`, the header set by the
    /// reverse proxy, names.
    pub(crate) fn begin(address: HeaderValue, email: EmailAddress, credential: PrimaryAuthenticationMethod)
        -> (step: LoginStep)
        ensures
            login_view(step) == Self::spec_begin(address@, email@, credential@),
    {
        match address {
            HeaderValue::Missing => Step::Finish(Err(LoginRejection::ClientAddressMissing)),
            HeaderValue::Unreadable => Step::Finish(Err(LoginRejection::ClientAddressUnreadable)),
            HeaderValue::Text(client) => Self::guarding_step(
                email,
                credential,
                Guard::begin(client.as_str()),
            ),
        }
    }

    /// Whether the step that `response` leads to takes fresh tokens.
    pub fn needs_tokens(&self, response: &Response) -> (needs: bool)
        ensures
            needs == Self::spec_needs_tokens(self@, response@),
    {
        match &self.stage {
            Stage::Guarding { .. } => false,
            Stage::Authenticating { authentication } => authentication.needs_tokens(response),
        }
    }

    /// Takes the response to the request last handed out and says what
    /// comes next. `csrf` and `token` are used where the step starts a
    /// session or needs another candidate token; they are not looked at
    /// otherwise.
    pub fn resume_with(self, response: Response, csrf: String, token: String) -> (step: LoginStep)
        ensures
            login_view(step) == Self::spec_resume(self@, response@, csrf@, token@),
    {
        match self.stage {
            Stage::Guarding { guard, email, credential } => match response {
                Response::Store(reply) => Self::guarding_step(
                    email,
                    credential,
                    guard.resume(reply),
                ),
                Response::Directory(_) => Step::Finish(
                    Err(LoginRejection::Storage(StorageError::of(StorageFault::UnexpectedReply))),
                ),
            },
            Stage::Authenticating { authentication } => Self::authenticating_step(
                authentication.resume_with(response, csrf, token),
            ),
        }
    }

    /// Takes the response to the request last handed out and says what
    /// comes next. Fresh tokens are generated only where the response calls
    /// for them; if the operating system then gives no random bytes, the
    /// login ends with `NoRandomness`.
    pub fn resume(self, response: Response) -> (step: LoginStep)
        ensures
            !Self::spec_needs_tokens(self@, response@) ==> login_view(step) == Self::spec_resume(
                self@,
                response@,
                Seq::empty(),
                Seq::empty(),
            ),
            Self::spec_needs_tokens(self@, response@) ==> login_view(step) == Step::<
                LoginView,
                RequestView,
                Result<LoginGrantView, LoginRejectionView>,
            >::Finish(Err(LoginRejectionView::Storage(no_randomness_error()))) || exists|
                csrf: Seq<char>,
                token: Seq<char>,
            |
                is_token(csrf) && is_token(token) && login_view(step)
                    == #[trigger] Self::spec_resume(self@, response@, csrf, token),
    {
        if self.needs_tokens(&response) {
            match generate_token() {
                Some(csrf) => match generate_token() {
                    Some(token) => {
                        let ghost csrf_text = csrf@;
                        let ghost token_text = token@;
                        let ghost before = self@;
                        let step = self.resume_with(response, csrf, token);
                        assert(is_token(csrf_text) && is_token(token_text) && login_view(step)
                            == Self::spec_resume(before, response@, csrf_text, token_text));
                        step
                    },
                    None => Step::Finish(
                        Err(LoginRejection::Storage(StorageError::of(StorageFault::NoRandomness))),
                    ),
                },
                None => Step::Finish(
                    Err(LoginRejection::Storage(StorageError::of(StorageFault::NoRandomness))),
                ),
            }
        } else {
            self.resume_with(response, String::new(), String::new())
        }
    }
}

/// Logs in the client that `address` names: the first step of a [`Login`].
pub fn login(address: HeaderValue, email: EmailAddress, credential: PrimaryAuthenticationMethod)
    -> (step: LoginStep)
    ensures
        login_view(step) == Login::spec_begin(address@, email@, credential@),
{
    Login::begin(address, email, credential)
}

} // verus!
