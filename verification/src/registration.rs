//! Signing up, in two requests. The first keeps the new user's data in a
//! registration session; nothing is written to the user directory. The
//! second brings a credential: the user is stored, the credential is
//! attached, and the registration session is deleted. If the credential
//! cannot be attached, the user that was just stored is removed again, so
//! that no account is left without a credential.

use crate::creation::{creation_view, Creation, CreationStep, CreationStepView, CreationView};
use crate::directory::{
    answer_error, error_of_answer, inconsistent, misdirected, no_randomness_error, Answer,
    AnswerView, PrimaryAuthenticationMethod, PrimaryAuthenticationMethodView, Query, QueryView,
    Request, RequestView, Response, ResponseView, StorageError, StorageErrorView,
};
use crate::http::{STATUS_CONFLICT, STATUS_INTERNAL_SERVER_ERROR, STATUS_UNPROCESSABLE_ENTITY};
use crate::protocol::{error_of, reply_error, Command, CommandView, Reply, ReplyView, Step};
use crate::sessions::{time_to_live, BaseSessionView, RegistrationSession, SessionTrait};
use crate::store::{session_key, SessionInfoView, SessionType, StorageFault};
use crate::token::{generate_token, is_token};
use crate::users::{AppUserInsert, AppUserInsertView, UserId};
use vstd::prelude::*;

verus! {

/// The fewest bytes a password may have.
pub const PASSWORD_MIN_LENGTH: usize = 8;

/// The most bytes a password may have. Hashing a longer one would cost too
/// much.
pub const PASSWORD_MAX_LENGTH: usize = 128;

/// Why a sign-up could not begin.
#[derive(Debug)]
pub enum SignupInitError {
    /// One of the stores failed.
    StorageError(StorageError),
    /// The email address is already a user's.
    DuplicateEmail(String),
    /// The address is empty.
    EmptyAddress,
    /// The surname is empty.
    EmptySurname,
    /// The forename is empty.
    EmptyForename,
}

/// The mathematical content of a [`SignupInitError`].
pub enum SignupInitErrorView {
    StorageError(StorageErrorView),
    DuplicateEmail(Seq<char>),
    EmptyAddress,
    EmptySurname,
    EmptyForename,
}

impl View for SignupInitError {
    type V = SignupInitErrorView;

    open spec fn view(&self) -> SignupInitErrorView {
        match *self {
            SignupInitError::StorageError(error) => SignupInitErrorView::StorageError(error@),
            SignupInitError::DuplicateEmail(email) => SignupInitErrorView::DuplicateEmail(email@),
            SignupInitError::EmptyAddress => SignupInitErrorView::EmptyAddress,
            SignupInitError::EmptySurname => SignupInitErrorView::EmptySurname,
            SignupInitError::EmptyForename => SignupInitErrorView::EmptyForename,
        }
    }
}

impl SignupInitError {
    /// The status code that answers the refused sign-up.
    pub fn status(&self) -> (code: u16)
        ensures
            code == match self@ {
                SignupInitErrorView::StorageError(_) => STATUS_INTERNAL_SERVER_ERROR,
                SignupInitErrorView::DuplicateEmail(_) => STATUS_CONFLICT,
                _ => STATUS_UNPROCESSABLE_ENTITY,
            },
    {
        match self {
            SignupInitError::StorageError(_) => STATUS_INTERNAL_SERVER_ERROR,
            SignupInitError::DuplicateEmail(_) => STATUS_CONFLICT,
            _ => STATUS_UNPROCESSABLE_ENTITY,
        }
    }
}

/// What is wrong with sign-up data, if anything: the address is looked at
/// first, then the surname, then the forename.
pub open spec fn data_fault(user: AppUserInsertView) -> Option<SignupInitErrorView> {
    if user.address.len() == 0 {
        Some(SignupInitErrorView::EmptyAddress)
    } else if user.surname.len() == 0 {
        Some(SignupInitErrorView::EmptySurname)
    } else if user.forename.len() == 0 {
        Some(SignupInitErrorView::EmptyForename)
    } else {
        None
    }
}

/// Checks sign-up data for empty fields.
pub fn check_user_data(user: &AppUserInsert) -> (outcome: Result<(), SignupInitError>)
    ensures
        match outcome {
            Ok(()) => data_fault(user@) is None,
            Err(error) => data_fault(user@) == Some(error@),
        },
{
    if user.address.as_str().is_empty() {
        Err(SignupInitError::EmptyAddress)
    } else if user.surname.as_str().is_empty() {
        Err(SignupInitError::EmptySurname)
    } else if user.forename.as_str().is_empty() {
        Err(SignupInitError::EmptyForename)
    } else {
        Ok(())
    }
}

#[derive(Debug)]
enum SignupStage {
    Finding { user_data: AppUserInsert },
    Creating { creation: Creation },
}

/// The beginning of a sign-up under way.
#[derive(Debug)]
pub struct Signup {
    stage: SignupStage,
}

/// The mathematical content of a [`Signup`].
pub enum SignupView {
    /// Asked whether the email address is already a user's.
    Finding { user_data: AppUserInsertView },
    /// The registration session is being created.
    Creating { creation: CreationView },
}

impl View for Signup {
    type V = SignupView;

    closed spec fn view(&self) -> SignupView {
        match self.stage {
            SignupStage::Finding { user_data } => SignupView::Finding { user_data: user_data@ },
            SignupStage::Creating { creation } => SignupView::Creating { creation: creation@ },
        }
    }
}

/// A step of the beginning of a sign-up.
pub type SignupStep = Step<Signup, Request, Result<RegistrationSession, SignupInitError>>;

/// The mathematical content of a step of the beginning of a sign-up.
pub type SignupStepView = Step<
    SignupView,
    RequestView,
    Result<BaseSessionView, SignupInitErrorView>,
>;

/// The mathematical content of the result of the beginning of a sign-up.
pub open spec fn signup_outcome_view(outcome: Result<RegistrationSession, SignupInitError>)
    -> Result<BaseSessionView, SignupInitErrorView> {
    match outcome {
        Ok(session) => Ok(session@),
        Err(error) => Err(error@),
    }
}

/// The mathematical content of a step of the beginning of a sign-up.
pub open spec fn signup_view(step: SignupStep) -> SignupStepView {
    step.view_with(
        |outcome: Result<RegistrationSession, SignupInitError>| signup_outcome_view(outcome),
    )
}

/// The payload of a registration record.
pub open spec fn registration_info(user: AppUserInsertView, csrf: Seq<char>) -> SessionInfoView {
    SessionInfoView::Registration { csrf, user }
}

impl Signup {
    /// The first step: ask the directory who has the email address.
    pub open spec fn spec_begin(user_data: AppUserInsertView) -> SignupStepView {
        Step::Send(
            SignupView::Finding { user_data },
            RequestView::Directory(QueryView::FindUser { email: user_data.email }),
        )
    }

    /// A step of the creation of the registration session, as a step of the
    /// sign-up.
    pub open spec fn creating(step: CreationStepView) -> SignupStepView {
        match step {
            Step::Send(creation, command) => Step::Send(
                SignupView::Creating { creation },
                RequestView::Store(command),
            ),
            Step::Finish(Ok(session)) => if session.info is Registration {
                Step::Finish(Ok(session))
            } else {
                Step::Finish(Err(SignupInitErrorView::StorageError(inconsistent())))
            },
            Step::Finish(Err(error)) => Step::Finish(
                Err(
                    SignupInitErrorView::StorageError(
                        StorageErrorView::SessionStorageError(error),
                    ),
                ),
            ),
        }
    }

    /// The step that a response leads to. `csrf` is the CSRF token for the
    /// registration session, if this step starts to create it; `token` is
    /// the first candidate token for it, or the candidate to go on with if
    /// the current one turns out to be taken.
    pub open spec fn spec_resume(
        machine: SignupView,
        response: ResponseView,
        csrf: Seq<char>,
        token: Seq<char>,
    ) -> SignupStepView {
        match machine {
            SignupView::Finding { user_data } => match response {
                ResponseView::Directory(AnswerView::User(Some(_))) => Step::Finish(
                    Err(SignupInitErrorView::DuplicateEmail(user_data.email)),
                ),
                ResponseView::Directory(AnswerView::User(None)) => match data_fault(user_data) {
                    Some(fault) => Step::Finish(Err(fault)),
                    None => Self::creating(
                        Creation::spec_begin(
                            registration_info(user_data, csrf),
                            time_to_live(registration_info(user_data, csrf)),
                            token,
                        ),
                    ),
                },
                other => Step::Finish(Err(SignupInitErrorView::StorageError(answer_error(other)))),
            },
            SignupView::Creating { creation } => match response {
                ResponseView::Store(reply) => Self::creating(
                    Creation::spec_resume(creation, reply, token),
                ),
                ResponseView::Directory(_) => Step::Finish(
                    Err(SignupInitErrorView::StorageError(misdirected())),
                ),
            },
        }
    }

    /// Whether the step that `response` leads to takes fresh tokens: it
    /// begins the creation of the registration session or goes on with
    /// another candidate token.
    pub open spec fn spec_needs_tokens(machine: SignupView, response: ResponseView) -> bool {
        match machine {
            SignupView::Finding { user_data } => response == ResponseView::Directory(
                AnswerView::User(None),
            ) && data_fault(user_data) is None,
            SignupView::Creating { creation } => response matches ResponseView::Store(reply)
                && creation.needs_token(reply),
        }
    }

    /// Starts a sign-up with the data of the new user.
    pub(crate) fn begin(user_data: AppUserInsert) -> (step: SignupStep)
        ensures
            signup_view(step) == Self::spec_begin(user_data@),
    {
        let email = user_data.email.duplicate();
        Step::Send(
            Signup { stage: SignupStage::Finding { user_data } },
            Request::Directory(Query::FindUser { email }),
        )
    }

    fn creating_step(step: CreationStep) -> (lifted: SignupStep)
        ensures
            signup_view(lifted) == Self::creating(creation_view(step)),
    {
        match step {
            Step::Send(creation, command) => Step::Send(
                Signup { stage: SignupStage::Creating { creation } },
                Request::Store(command),
            ),
            Step::Finish(Ok(session)) => match RegistrationSession::from_base(session) {
                Some(session) => Step::Finish(Ok(session)),
                None => Step::Finish(
                    Err(SignupInitError::StorageError(StorageError::of(StorageFault::Inconsistent))),
                ),
            },
            Step::Finish(Err(error)) => Step::Finish(
                Err(SignupInitError::StorageError(StorageError::SessionStorageError(error))),
            ),
        }
    }

    /// Whether the step that `response` leads to takes fresh tokens.
    pub fn needs_tokens(&self, response: &Response) -> (needs: bool)
        ensures
            needs == Self::spec_needs_tokens(self@, response@),
    {
        match &self.stage {
            SignupStage::Finding { user_data } => match response {
                Response::Directory(Answer::User(None)) => check_user_data(user_data).is_ok(),
                _ => false,
            },
            SignupStage::Creating { creation } => match response {
                Response::Store(reply) => creation.needs_token(reply),
                Response::Directory(_) => false,
            },
        }
    }

    /// Takes the response to the request last handed out and says what
    /// comes next. `csrf` and `token` are used where the step starts the
    /// session or needs another candidate token; they are not looked at
    /// otherwise.
    pub fn resume_with(self, response: Response, csrf: String, token: String) -> (step: SignupStep)
        ensures
            signup_view(step) == Self::spec_resume(self@, response@, csrf@, token@),
    {
        match self.stage {
            SignupStage::Finding { user_data } => match response {
                Response::Directory(Answer::User(Some(_))) => Step::Finish(
                    Err(SignupInitError::DuplicateEmail(user_data.email.into_string())),
                ),
                Response::Directory(Answer::User(None)) => match check_user_data(&user_data) {
                    Err(fault) => Step::Finish(Err(fault)),
                    Ok(()) => Self::creating_step(
                        RegistrationSession::create_with(user_data, csrf, token),
                    ),
                },
                other => Step::Finish(Err(SignupInitError::StorageError(error_of_answer(other)))),
            },
            SignupStage::Creating { creation } => match response {
                Response::Store(reply) => Self::creating_step(creation.resume_with(reply, token)),
                Response::Directory(_) => Step::Finish(
                    Err(
                        SignupInitError::StorageError(
                            StorageError::of(StorageFault::UnexpectedReply),
                        ),
                    ),
                ),
            },
        }
    }

    /// Takes the response to the request last handed out and says what
    /// comes next. Fresh tokens are generated only where the response calls
    /// for them; if the operating system then gives no random bytes, the
    /// sign-up ends with `NoRandomness`.
    pub fn resume(self, response: Response) -> (step: SignupStep)
        ensures
            !Self::spec_needs_tokens(self@, response@) ==> signup_view(step) == Self::spec_resume(
                self@,
                response@,
                Seq::empty(),
                Seq::empty(),
            ),
            Self::spec_needs_tokens(self@, response@) ==> signup_view(step) == Step::<
                SignupView,
                RequestView,
                Result<BaseSessionView, SignupInitErrorView>,
            >::Finish(Err(SignupInitErrorView::StorageError(no_randomness_error()))) || exists|
                csrf: Seq<char>,
                token: Seq<char>,
            |
                is_token(csrf) && is_token(token) && signup_view(step)
                    == #[trigger] Self::spec_resume(self@, response@, csrf, token),
    {
        if self.needs_tokens(&response) {
            match generate_token() {
                Some(csrf) => match generate_token() {
                    Some(token) => {
                        let ghost csrf_text = csrf@;
                        let ghost token_text = token@;
                        let ghost before = self@;
                        let step = self.resume_with(response, csrf, token);
                        assert(is_token(csrf_text) && is_token(token_text) && signup_view(step)
                            == Self::spec_resume(before, response@, csrf_text, token_text));
                        step
                    },
                    None => Step::Finish(
                        Err(
                            SignupInitError::StorageError(
                                StorageError::of(StorageFault::NoRandomness),
                            ),
                        ),
                    ),
                },
                None => Step::Finish(
                    Err(SignupInitError::StorageError(StorageError::of(StorageFault::NoRandomness))),
                ),
            }
        } else {
            self.resume_with(response, String::new(), String::new())
        }
    }
}

/// Begins a sign-up with the data of the new user: the first step of a
/// [`Signup`].
pub fn signup_init(user_data: AppUserInsert) -> (step: SignupStep)
    ensures
        signup_view(step) == Signup::spec_begin(user_data@),
{
    Signup::begin(user_data)
}

/// Why a sign-up could not be completed.
#[derive(Debug)]
pub enum AddCredentialError {
    /// One of the stores failed.
    StorageError(StorageError),
    /// The password has fewer bytes than [`PASSWORD_MIN_LENGTH`].
    PasswordTooShort,
    /// The password has more bytes than [`PASSWORD_MAX_LENGTH`].
    PasswordTooLong,
}

/// The mathematical content of an [`AddCredentialError`].
pub enum AddCredentialErrorView {
    StorageError(StorageErrorView),
    PasswordTooShort,
    PasswordTooLong,
}

impl View for AddCredentialError {
    type V = AddCredentialErrorView;

    open spec fn view(&self) -> AddCredentialErrorView {
        match *self {
            AddCredentialError::StorageError(error) => AddCredentialErrorView::StorageError(error@),
            AddCredentialError::PasswordTooShort => AddCredentialErrorView::PasswordTooShort,
            AddCredentialError::PasswordTooLong => AddCredentialErrorView::PasswordTooLong,
        }
    }
}

impl AddCredentialError {
    /// The status code that answers the refused request.
    pub fn status(&self) -> (code: u16)
        ensures
            code == match self@ {
                AddCredentialErrorView::StorageError(_) => STATUS_INTERNAL_SERVER_ERROR,
                _ => STATUS_UNPROCESSABLE_ENTITY,
            },
    {
        match self {
            AddCredentialError::StorageError(_) => STATUS_INTERNAL_SERVER_ERROR,
            _ => STATUS_UNPROCESSABLE_ENTITY,
        }
    }
}

/// The length of a password: the number of bytes of its UTF-8 encoding.
pub open spec fn password_length(password: Seq<char>) -> nat {
    vstd::utf8::encode_utf8(password).len()
}

/// What is wrong with a credential, if anything.
pub open spec fn credential_fault(credential: PrimaryAuthenticationMethodView) -> Option<
    AddCredentialErrorView,
> {
    match credential {
        PrimaryAuthenticationMethodView::Password { password } => if password_length(password)
            < PASSWORD_MIN_LENGTH {
            Some(AddCredentialErrorView::PasswordTooShort)
        } else if password_length(password) > PASSWORD_MAX_LENGTH {
            Some(AddCredentialErrorView::PasswordTooLong)
        } else {
            None
        },
    }
}

/// Checks a credential against the password policy.
pub fn check_credential(credential: &PrimaryAuthenticationMethod) -> (outcome: Result<
    (),
    AddCredentialError,
>)
    ensures
        match outcome {
            Ok(()) => credential_fault(credential@) is None,
            Err(error) => credential_fault(credential@) == Some(error@),
        },
{
    match credential {
        PrimaryAuthenticationMethod::Password { password } => {
            let length = password.as_str().as_bytes().len();
            if length < PASSWORD_MIN_LENGTH {
                Err(AddCredentialError::PasswordTooShort)
            } else if length > PASSWORD_MAX_LENGTH {
                Err(AddCredentialError::PasswordTooLong)
            } else {
                Ok(())
            }
        },
    }
}

#[derive(Debug)]
enum CommitStage {
    CreatingUser { token: String, credential: PrimaryAuthenticationMethod },
    Attaching { token: String, user_id: UserId },
    RollingBack { error: StorageError },
    Deleting { user_id: UserId },
}

/// The completion of a sign-up under way.
#[derive(Debug)]
pub struct Commit {
    stage: CommitStage,
}

/// The mathematical content of a [`Commit`].
pub enum CommitView {
    /// Asked to store the user; the session's token and the credential wait.
    CreatingUser { token: Seq<char>, credential: PrimaryAuthenticationMethodView },
    /// Asked to attach the credential to the user that was stored.
    Attaching { token: Seq<char>, user_id: UserId },
    /// The credential could not be attached, for the reason kept here; asked
    /// to remove the user again.
    RollingBack { error: StorageErrorView },
    /// Asked to delete the registration session.
    Deleting { user_id: UserId },
}

impl View for Commit {
    type V = CommitView;

    closed spec fn view(&self) -> CommitView {
        match self.stage {
            CommitStage::CreatingUser { token, credential } => CommitView::CreatingUser {
                token: token@,
                credential: credential@,
            },
            CommitStage::Attaching { token, user_id } => CommitView::Attaching {
                token: token@,
                user_id,
            },
            CommitStage::RollingBack { error } => CommitView::RollingBack { error: error@ },
            CommitStage::Deleting { user_id } => CommitView::Deleting { user_id },
        }
    }
}

/// A step of the completion of a sign-up.
pub type CommitStep = Step<Commit, Request, Result<UserId, AddCredentialError>>;

/// The mathematical content of a step of the completion of a sign-up.
pub type CommitStepView = Step<CommitView, RequestView, Result<UserId, AddCredentialErrorView>>;

/// The mathematical content of the result of the completion of a sign-up.
pub open spec fn commit_outcome_view(outcome: Result<UserId, AddCredentialError>) -> Result<
    UserId,
    AddCredentialErrorView,
> {
    match outcome {
        Ok(user_id) => Ok(user_id),
        Err(error) => Err(error@),
    }
}

/// The mathematical content of a step of the completion of a sign-up.
pub open spec fn commit_view(step: CommitStep) -> CommitStepView {
    step.view_with(|outcome: Result<UserId, AddCredentialError>| commit_outcome_view(outcome))
}

/// The sign-up data of a registration record.
pub open spec fn user_data_of(session: BaseSessionView) -> AppUserInsertView {
    match session.info {
        SessionInfoView::Registration { user, .. } => user,
        _ => AppUserInsertView {
            email: Seq::empty(),
            forename: Seq::empty(),
            surname: Seq::empty(),
            address: Seq::empty(),
        },
    }
}

impl Commit {
    /// The first step: a credential that breaks the password policy ends the
    /// completion before anything is stored; otherwise the directory is
    /// asked to store the user.
    pub open spec fn spec_begin(session: BaseSessionView, credential: PrimaryAuthenticationMethodView)
        -> CommitStepView {
        match credential_fault(credential) {
            Some(fault) => Step::Finish(Err(fault)),
            None => Step::Send(
                CommitView::CreatingUser { token: session.token, credential },
                RequestView::Directory(QueryView::CreateUser { user_data: user_data_of(session) }),
            ),
        }
    }

    /// The step that a response leads to.
    pub open spec fn spec_resume(machine: CommitView, response: ResponseView) -> CommitStepView {
        match machine {
            CommitView::CreatingUser { token, credential } => match response {
                ResponseView::Directory(AnswerView::Created(user_id)) => Step::Send(
                    CommitView::Attaching { token, user_id },
                    RequestView::Directory(QueryView::AttachCredential { user_id, credential }),
                ),
                other => Step::Finish(Err(AddCredentialErrorView::StorageError(answer_error(other)))),
            },
            CommitView::Attaching { token, user_id } => match response {
                ResponseView::Directory(AnswerView::Done) => Step::Send(
                    CommitView::Deleting { user_id },
                    RequestView::Store(
                        CommandView::Delete { key: session_key(SessionType::Registration, token) },
                    ),
                ),
                other => Step::Send(
                    CommitView::RollingBack { error: answer_error(other) },
                    RequestView::Directory(QueryView::RemoveUser { user_id }),
                ),
            },
            CommitView::RollingBack { error } => match response {
                ResponseView::Directory(AnswerView::Done) => Step::Finish(
                    Err(AddCredentialErrorView::StorageError(error)),
                ),
                other => Step::Finish(Err(AddCredentialErrorView::StorageError(answer_error(other)))),
            },
            CommitView::Deleting { user_id } => match response {
                ResponseView::Store(ReplyView::Done) => Step::Finish(Ok(user_id)),
                ResponseView::Store(other) => Step::Finish(
                    Err(
                        AddCredentialErrorView::StorageError(
                            StorageErrorView::SessionStorageError(reply_error(other)),
                        ),
                    ),
                ),
                ResponseView::Directory(_) => Step::Finish(
                    Err(AddCredentialErrorView::StorageError(misdirected())),
                ),
            },
        }
    }

    /// Starts the completion of the sign-up that a registration session
    /// stands for, with the credential given.
    pub(crate) fn begin(session: RegistrationSession, credential: PrimaryAuthenticationMethod) -> (step:
        CommitStep)
        ensures
            commit_view(step) == Self::spec_begin(session@, credential@),
    {
        match check_credential(&credential) {
            Err(fault) => Step::Finish(Err(fault)),
            Ok(()) => {
                let user_data = session.user_data();
                let token = session.token();
                Step::Send(
                    Commit { stage: CommitStage::CreatingUser { token, credential } },
                    Request::Directory(Query::CreateUser { user_data }),
                )
            },
        }
    }

    /// Takes the response to the request last handed out and says what
    /// comes next.
    pub fn resume(self, response: Response) -> (step: CommitStep)
        ensures
            commit_view(step) == Self::spec_resume(self@, response@),
    {
        match self.stage {
            CommitStage::CreatingUser { token, credential } => match response {
                Response::Directory(Answer::Created(user_id)) => Step::Send(
                    Commit { stage: CommitStage::Attaching { token, user_id } },
                    Request::Directory(Query::AttachCredential { user_id, credential }),
                ),
                other => Step::Finish(Err(AddCredentialError::StorageError(error_of_answer(other)))),
            },
            CommitStage::Attaching { token, user_id } => match response {
                Response::Directory(Answer::Done) => {
                    let key = SessionType::Registration.key_for(token.as_str());
                    Step::Send(
                        Commit { stage: CommitStage::Deleting { user_id } },
                        Request::Store(Command::Delete { key }),
                    )
                },
                other => Step::Send(
                    Commit { stage: CommitStage::RollingBack { error: error_of_answer(other) } },
                    Request::Directory(Query::RemoveUser { user_id }),
                ),
            },
            CommitStage::RollingBack { error } => match response {
                Response::Directory(Answer::Done) => Step::Finish(
                    Err(AddCredentialError::StorageError(error)),
                ),
                other => Step::Finish(Err(AddCredentialError::StorageError(error_of_answer(other)))),
            },
            CommitStage::Deleting { user_id } => match response {
                Response::Store(Reply::Done) => Step::Finish(Ok(user_id)),
                Response::Store(other) => Step::Finish(
                    Err(
                        AddCredentialError::StorageError(
                            StorageError::SessionStorageError(error_of(other)),
                        ),
                    ),
                ),
                Response::Directory(_) => Step::Finish(
                    Err(
                        AddCredentialError::StorageError(
                            StorageError::of(StorageFault::UnexpectedReply),
                        ),
                    ),
                ),
            },
        }
    }
}

/// Gives the user of a registration session a credential and stores the
/// user: the first step of a [`Commit`].
pub fn add_credential_and_commit(
    registration_session: RegistrationSession,
    credential: PrimaryAuthenticationMethod,
) -> (step: CommitStep)
    ensures
        commit_view(step) == Commit::spec_begin(registration_session@, credential@),
{
    Commit::begin(registration_session, credential)
}

} // verus!
