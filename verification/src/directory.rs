//! The conversation between the engine and the user directory: the store of
//! users and their credentials, which the engine only ever asks questions
//! of. Together with the commands for the session store these make up
//! everything a machine can ask for.

use crate::email::EmailAddress;
use crate::protocol::{Command, CommandView, Reply, ReplyView};
use crate::store::{SessionStorageError, SessionStorageErrorView};
use crate::users::{AppUserInsert, AppUserInsertView, UserId, UserProfile};
use vstd::prelude::*;

verus! {

/// A way to prove who one is with something one knows.
#[derive(Debug)]
pub enum PrimaryAuthenticationMethod {
    /// Standard password authentication.
    Password { password: String },
}

/// The mathematical content of a [`PrimaryAuthenticationMethod`].
pub enum PrimaryAuthenticationMethodView {
    Password { password: Seq<char> },
}

impl View for PrimaryAuthenticationMethod {
    type V = PrimaryAuthenticationMethodView;

    open spec fn view(&self) -> PrimaryAuthenticationMethodView {
        match *self {
            PrimaryAuthenticationMethod::Password { password } => {
                PrimaryAuthenticationMethodView::Password { password: password@ }
            },
        }
    }
}

/// A way to prove who one is a second time.
#[derive(Debug)]
pub enum MfaAuthenticationMethod {
    /// Time-based one-time password.
    Totp { code: String },
}

/// The mathematical content of an [`MfaAuthenticationMethod`].
pub enum MfaAuthenticationMethodView {
    Totp { code: Seq<char> },
}

impl View for MfaAuthenticationMethod {
    type V = MfaAuthenticationMethodView;

    open spec fn view(&self) -> MfaAuthenticationMethodView {
        match *self {
            MfaAuthenticationMethod::Totp { code } => MfaAuthenticationMethodView::Totp {
                code: code@,
            },
        }
    }
}

/// The primary methods on offer, each with a sample of its shape.
pub fn list_supported_authentication_methods() -> (methods: Vec<PrimaryAuthenticationMethod>)
    ensures
        methods.len() == 1,
        methods[0]@ == (PrimaryAuthenticationMethodView::Password { password: "string"@ }),
{
    vec![PrimaryAuthenticationMethod::Password { password: String::from_str("string") }]
}

/// The second-factor methods on offer to a user, each with a sample of its
/// shape: the one-time password where the user has enrolled one.
pub fn list_mfa_methods(totp_enabled: bool) -> (methods: Vec<MfaAuthenticationMethod>)
    ensures
        methods.len() == (if totp_enabled {
            1nat
        } else {
            0nat
        }),
        totp_enabled ==> methods[0]@ == (MfaAuthenticationMethodView::Totp { code: "string"@ }),
{
    let mut methods = Vec::new();
    if totp_enabled {
        methods.push(MfaAuthenticationMethod::Totp { code: String::from_str("string") });
    }
    methods
}

/// One question to the user directory.
#[derive(Debug)]
#[allow(inconsistent_fields)]
pub enum Query {
    /// Who has this email address?
    FindUser { email: EmailAddress },
    /// Who is this user?
    SelectUser { user_id: UserId },
    /// Is this the user's primary credential?
    VerifyPrimary { user_id: UserId, credential: PrimaryAuthenticationMethod },
    /// Has the user enrolled a second factor?
    HasSecondFactor { user_id: UserId },
    /// Is this the user's second factor, now?
    VerifySecondFactor { user_id: UserId, credential: MfaAuthenticationMethod },
    /// Store this person as a customer.
    CreateUser { user_data: AppUserInsert },
    /// Store this as the user's primary credential.
    AttachCredential { user_id: UserId, credential: PrimaryAuthenticationMethod },
    /// Remove the user.
    RemoveUser { user_id: UserId },
}

/// The mathematical content of a [`Query`].
#[allow(inconsistent_fields)]
pub enum QueryView {
    FindUser { email: Seq<char> },
    SelectUser { user_id: UserId },
    VerifyPrimary { user_id: UserId, credential: PrimaryAuthenticationMethodView },
    HasSecondFactor { user_id: UserId },
    VerifySecondFactor { user_id: UserId, credential: MfaAuthenticationMethodView },
    CreateUser { user_data: AppUserInsertView },
    AttachCredential { user_id: UserId, credential: PrimaryAuthenticationMethodView },
    RemoveUser { user_id: UserId },
}

impl View for Query {
    type V = QueryView;

    open spec fn view(&self) -> QueryView {
        match *self {
            Query::FindUser { email } => QueryView::FindUser { email: email@ },
            Query::SelectUser { user_id } => QueryView::SelectUser { user_id },
            Query::VerifyPrimary { user_id, credential } => QueryView::VerifyPrimary {
                user_id,
                credential: credential@,
            },
            Query::HasSecondFactor { user_id } => QueryView::HasSecondFactor { user_id },
            Query::VerifySecondFactor { user_id, credential } => QueryView::VerifySecondFactor {
                user_id,
                credential: credential@,
            },
            Query::CreateUser { user_data } => QueryView::CreateUser { user_data: user_data@ },
            Query::AttachCredential { user_id, credential } => QueryView::AttachCredential {
                user_id,
                credential: credential@,
            },
            Query::RemoveUser { user_id } => QueryView::RemoveUser { user_id },
        }
    }
}

/// What came back from the directory for one question.
#[derive(Debug)]
pub enum Answer {
    /// To `FindUser` and `SelectUser`: the user, if there is one.
    User(Option<UserProfile>),
    /// To a question that asks yes or no.
    Verdict(bool),
    /// To `CreateUser`: the identifier of the user that now exists.
    Created(UserId),
    /// To a question that only writes: it was carried out.
    Done,
    /// The directory could not be reached or reported a failure; the text
    /// is the directory's own.
    Failed(String),
}

/// The mathematical content of an [`Answer`].
pub enum AnswerView {
    User(Option<UserProfile>),
    Verdict(bool),
    Created(UserId),
    Done,
    Failed(Seq<char>),
}

impl View for Answer {
    type V = AnswerView;

    open spec fn view(&self) -> AnswerView {
        match *self {
            Answer::User(user) => AnswerView::User(user),
            Answer::Verdict(verdict) => AnswerView::Verdict(verdict),
            Answer::Created(user_id) => AnswerView::Created(user_id),
            Answer::Done => AnswerView::Done,
            Answer::Failed(detail) => AnswerView::Failed(detail@),
        }
    }
}

/// Anything a machine can ask for.
#[derive(Debug)]
pub enum Request {
    Store(Command),
    Directory(Query),
}

/// The mathematical content of a [`Request`].
pub enum RequestView {
    Store(CommandView),
    Directory(QueryView),
}

impl View for Request {
    type V = RequestView;

    open spec fn view(&self) -> RequestView {
        match *self {
            Request::Store(command) => RequestView::Store(command@),
            Request::Directory(query) => RequestView::Directory(query@),
        }
    }
}

/// Anything a machine can be told.
#[derive(Debug)]
pub enum Response {
    Store(Reply),
    Directory(Answer),
}

/// The mathematical content of a [`Response`].
pub enum ResponseView {
    Store(ReplyView),
    Directory(AnswerView),
}

impl View for Response {
    type V = ResponseView;

    open spec fn view(&self) -> ResponseView {
        match *self {
            Response::Store(reply) => ResponseView::Store(reply@),
            Response::Directory(answer) => ResponseView::Directory(answer@),
        }
    }
}

/// What went wrong between the engine and the user directory.
#[derive(Clone, Copy, Debug, PartialEq, Eq, Structural)]
pub enum DirectoryFault {
    /// The directory could not be reached or reported a failure.
    Backend,
    /// The answer does not answer the question that was asked.
    UnexpectedAnswer,
}

/// A failure of the user directory, with the directory's own words.
#[derive(Debug)]
pub struct DatabaseError {
    pub fault: DirectoryFault,
    pub detail: String,
}

/// The mathematical content of a [`DatabaseError`].
pub struct DatabaseErrorView {
    pub fault: DirectoryFault,
    pub detail: Seq<char>,
}

impl View for DatabaseError {
    type V = DatabaseErrorView;

    open spec fn view(&self) -> DatabaseErrorView {
        DatabaseErrorView { fault: self.fault, detail: self.detail@ }
    }
}

/// A failure of one of the two stores behind the engine.
#[derive(Debug)]
pub enum StorageError {
    /// The user directory failed.
    DatabaseError(DatabaseError),
    /// The session store failed.
    SessionStorageError(SessionStorageError),
}

/// The mathematical content of a [`StorageError`].
pub enum StorageErrorView {
    DatabaseError(DatabaseErrorView),
    SessionStorageError(SessionStorageErrorView),
}

impl View for StorageError {
    type V = StorageErrorView;

    open spec fn view(&self) -> StorageErrorView {
        match *self {
            StorageError::DatabaseError(error) => StorageErrorView::DatabaseError(error@),
            StorageError::SessionStorageError(error) => StorageErrorView::SessionStorageError(
                error@,
            ),
        }
    }
}

impl StorageError {
    /// The words of the error, for a log or a response body.
    pub fn message(&self) -> (text: String)
        ensures
            text@ == match self@ {
                StorageErrorView::DatabaseError(error) => error.detail,
                StorageErrorView::SessionStorageError(error) => error.detail,
            },
    {
        match self {
            StorageError::DatabaseError(error) => error.detail.clone(),
            StorageError::SessionStorageError(error) => error.detail.clone(),
        }
    }
}

/// The error with which a machine ends when `response` cannot be the answer
/// of the directory that it waits for: the directory's own failure, or
/// anything of another shape.
pub open spec fn answer_error(response: ResponseView) -> StorageErrorView {
    match response {
        ResponseView::Directory(AnswerView::Failed(detail)) => StorageErrorView::DatabaseError(
            DatabaseErrorView { fault: DirectoryFault::Backend, detail },
        ),
        _ => StorageErrorView::DatabaseError(
            DatabaseErrorView { fault: DirectoryFault::UnexpectedAnswer, detail: Seq::empty() },
        ),
    }
}

/// Turns a response that a machine cannot use, where it waits for the
/// directory, into the error it ends with.
pub fn error_of_answer(response: Response) -> (error: StorageError)
    ensures
        error@ == answer_error(response@),
{
    match response {
        Response::Directory(Answer::Failed(detail)) => StorageError::DatabaseError(
            DatabaseError { fault: DirectoryFault::Backend, detail },
        ),
        _ => StorageError::DatabaseError(
            DatabaseError { fault: DirectoryFault::UnexpectedAnswer, detail: String::new() },
        ),
    }
}

/// The error with which a machine ends when it waits for the session store
/// and is told something by the directory.
pub open spec fn misdirected() -> StorageErrorView {
    StorageErrorView::SessionStorageError(
        crate::store::internal_error(crate::store::StorageFault::UnexpectedReply),
    )
}

/// The error that stands for the lack of random bytes.
pub open spec fn no_randomness_error() -> StorageErrorView {
    StorageErrorView::SessionStorageError(
        crate::store::internal_error(crate::store::StorageFault::NoRandomness),
    )
}

/// The error that stands for a record of another shape than the engine gave
/// it.
pub open spec fn inconsistent() -> StorageErrorView {
    StorageErrorView::SessionStorageError(
        crate::store::internal_error(crate::store::StorageFault::Inconsistent),
    )
}

impl StorageError {
    /// An error of the session store that the engine itself raises.
    pub fn of(fault: crate::store::StorageFault) -> (error: StorageError)
        ensures
            error@ == StorageErrorView::SessionStorageError(crate::store::internal_error(fault)),
    {
        StorageError::SessionStorageError(SessionStorageError::of(fault))
    }
}

} // verus!
