//! What the session store holds: the kinds of session, the key under which
//! each record lives, and the fields that make up a record.

use crate::users::{AppUserInsert, AppUserInsertView, UserId};
use vstd::prelude::*;
use vstd::string::*;

verus! {

/// The kind of a session. Each kind has a namespace of its own in the store.
#[derive(Clone, Copy, Debug, PartialEq, Eq, Structural)]
pub enum SessionType {
    /// Primary credentials were accepted; a second factor is still owed.
    PreAuthentication,
    /// Fully authenticated, as a customer or as an administrator.
    Authenticated,
    /// Sign-up data waiting for a credential.
    Registration,
}

impl SessionType {
    /// The namespace of the kind: the part of every key before the token.
    pub open spec fn parent_key(self) -> Seq<char> {
        match self {
            SessionType::PreAuthentication => "sessions:preauthentication"@,
            SessionType::Authenticated => "sessions:authenticated"@,
            SessionType::Registration => "sessions:registration"@,
        }
    }

    /// The namespace of the kind as a string.
    pub fn to_parent_key_name(self) -> (name: String)
        ensures
            name@ == self.parent_key(),
    {
        match self {
            SessionType::PreAuthentication => String::from_str("sessions:preauthentication"),
            SessionType::Authenticated => String::from_str("sessions:authenticated"),
            SessionType::Registration => String::from_str("sessions:registration"),
        }
    }

    /// The key of the record that a token names under this kind.
    pub fn key_for(self, token: &str) -> (key: String)
        ensures
            key@ == session_key(self, token@),
    {
        proof {
            reveal_strlit(":");
        }
        let mut key = self.to_parent_key_name();
        key.append(":");
        key.append(token);
        assert(key@ =~= session_key(self, token@));
        key
    }
}

/// The key of a session record: namespace, a colon, the token.
pub open spec fn session_key(kind: SessionType, token: Seq<char>) -> Seq<char> {
    kind.parent_key() + seq![':'] + token
}

/// The key of the attempt counter of one client.
pub open spec fn attempts_key(client: Seq<char>) -> Seq<char> {
    "bruteforce:"@ + client
}

/// The key of the attempt counter of one client, as a string.
pub fn attempts_key_for(client: &str) -> (key: String)
    ensures
        key@ == attempts_key(client@),
{
    let mut key = String::from_str("bruteforce:");
    key.append(client);
    key
}

/// Keys of different kinds never coincide, whatever the tokens.
pub proof fn lemma_namespaces_disjoint(
    kind: SessionType,
    token: Seq<char>,
    other_kind: SessionType,
    other_token: Seq<char>,
)
    requires
        kind != other_kind,
    ensures
        session_key(kind, token) != session_key(other_kind, other_token),
{
    reveal_strlit("sessions:preauthentication");
    reveal_strlit("sessions:authenticated");
    reveal_strlit("sessions:registration");
    let a = session_key(kind, token);
    let b = session_key(other_kind, other_token);
    assert(a[9] == kind.parent_key()[9]);
    assert(b[9] == other_kind.parent_key()[9]);
    assert(a[9] != b[9]);
}

/// Within one kind, different tokens have different keys.
pub proof fn lemma_key_injective(kind: SessionType, token: Seq<char>, other_token: Seq<char>)
    requires
        session_key(kind, token) == session_key(kind, other_token),
    ensures
        token == other_token,
{
    let prefix = kind.parent_key() + seq![':'];
    let a = session_key(kind, token);
    let b = session_key(kind, other_token);
    assert(a.len() == prefix.len() + token.len());
    assert(b.len() == prefix.len() + other_token.len());
    assert forall|i: int| 0 <= i < token.len() implies token[i] == other_token[i] by {
        assert(a[prefix.len() + i] == token[i]);
        assert(b[prefix.len() + i] == other_token[i]);
    }
    assert(token =~= other_token);
}

/// No session key is the key of an attempt counter.
pub proof fn lemma_counters_apart(kind: SessionType, token: Seq<char>, client: Seq<char>)
    ensures
        session_key(kind, token) != attempts_key(client),
{
    reveal_strlit("sessions:preauthentication");
    reveal_strlit("sessions:authenticated");
    reveal_strlit("sessions:registration");
    reveal_strlit("bruteforce:");
    let a = session_key(kind, token);
    let b = attempts_key(client);
    assert(a[0] == kind.parent_key()[0]);
    assert(b[0] == 'b');
}

/// The names of the fields that records are made of.
#[derive(Clone, Copy, Debug, PartialEq, Eq, Structural, Hash)]
pub enum Field {
    UserId,
    Admin,
    Csrf,
    Email,
    Forename,
    Surname,
    Address,
}

impl Field {
    /// The name under which the store keeps the field.
    pub open spec fn spec_name(self) -> Seq<char> {
        match self {
            Field::UserId => "user_id"@,
            Field::Admin => "admin"@,
            Field::Csrf => "csrf"@,
            Field::Email => "email"@,
            Field::Forename => "forename"@,
            Field::Surname => "surname"@,
            Field::Address => "address"@,
        }
    }

    /// The name under which the store keeps the field.
    pub fn name(self) -> (name: &'static str)
        ensures
            name@ == self.spec_name(),
    {
        match self {
            Field::UserId => "user_id",
            Field::Admin => "admin",
            Field::Csrf => "csrf",
            Field::Email => "email",
            Field::Forename => "forename",
            Field::Surname => "surname",
            Field::Address => "address",
        }
    }
}

/// The kinds of value that fields hold.
#[derive(Clone, Copy, Debug, PartialEq, Eq, Structural)]
pub enum ValueKind {
    /// A user identifier.
    Id,
    /// A yes or a no.
    Flag,
    /// Any text.
    Text,
}

impl Field {
    /// The kind of value that the field holds, as a specification.
    pub open spec fn spec_kind(self) -> ValueKind {
        match self {
            Field::UserId => ValueKind::Id,
            Field::Admin => ValueKind::Flag,
            _ => ValueKind::Text,
        }
    }

    /// The kind of value that the field holds.
    pub fn kind(self) -> (kind: ValueKind)
        ensures
            kind == self.spec_kind(),
    {
        match self {
            Field::UserId => ValueKind::Id,
            Field::Admin => ValueKind::Flag,
            _ => ValueKind::Text,
        }
    }
}

/// The value of one field.
#[derive(Debug, PartialEq, Eq)]
pub enum Value {
    /// A user identifier.
    Id(UserId),
    /// A yes or a no.
    Flag(bool),
    /// Any text.
    Text(String),
}

/// The mathematical content of a [`Value`].
pub enum ValueView {
    Id(UserId),
    Flag(bool),
    Text(Seq<char>),
}

impl View for Value {
    type V = ValueView;

    open spec fn view(&self) -> ValueView {
        match *self {
            Value::Id(id) => ValueView::Id(id),
            Value::Flag(flag) => ValueView::Flag(flag),
            Value::Text(text) => ValueView::Text(text@),
        }
    }
}

impl DeepView for Value {
    type V = ValueView;

    open spec fn deep_view(&self) -> ValueView {
        self@
    }
}

impl DeepView for Field {
    type V = Field;

    open spec fn deep_view(&self) -> Field {
        *self
    }
}

impl ValueView {
    /// The kind of the value.
    pub open spec fn kind(self) -> ValueKind {
        match self {
            ValueView::Id(_) => ValueKind::Id,
            ValueView::Flag(_) => ValueKind::Flag,
            ValueView::Text(_) => ValueKind::Text,
        }
    }
}

impl Value {
    /// The kind of the value.
    pub fn kind(&self) -> (kind: ValueKind)
        ensures
            kind == self@.kind(),
    {
        match self {
            Value::Id(_) => ValueKind::Id,
            Value::Flag(_) => ValueKind::Flag,
            Value::Text(_) => ValueKind::Text,
        }
    }

    /// Whether two values have the same content.
    pub fn same(&self, other: &Value) -> (same: bool)
        ensures
            same == (self@ == other@),
    {
        match (self, other) {
            (Value::Id(a), Value::Id(b)) => a.value == b.value,
            (Value::Flag(a), Value::Flag(b)) => *a == *b,
            (Value::Text(a), Value::Text(b)) => *a == *b,
            _ => false,
        }
    }

    /// A second value with the same content.
    pub fn duplicate(&self) -> (copy: Value)
        ensures
            copy@ == self@,
    {
        match self {
            Value::Id(id) => Value::Id(*id),
            Value::Flag(flag) => Value::Flag(*flag),
            Value::Text(text) => Value::Text(text.clone()),
        }
    }
}

/// What a pre-authentication record says of its user.
#[derive(Clone, Copy, Debug, PartialEq, Eq, Structural)]
pub struct PreAuthenticationSessionData {
    /// The user who is in the middle of authenticating.
    pub user_id: UserId,
}

/// What an authenticated record says of its user.
#[derive(Clone, Copy, Debug, PartialEq, Eq, Structural)]
pub struct AuthenticatedSessionData {
    /// The user who authenticated.
    pub user_id: UserId,
    /// Whether the session is an administrator's.
    pub admin: bool,
}

/// What a registration record holds: the sign-up data.
#[derive(Debug)]
pub struct RegistrationSessionData {
    /// The data the new user submitted.
    pub user_data: AppUserInsert,
}

/// The payload of a session record together with its CSRF token.
#[derive(Debug)]
#[allow(inconsistent_fields)]
pub enum SessionInfo {
    PreAuthentication { csrf: String, data: PreAuthenticationSessionData },
    Authenticated { csrf: String, data: AuthenticatedSessionData },
    Registration { csrf: String, data: RegistrationSessionData },
}

/// The mathematical content of a [`SessionInfo`].
pub enum SessionInfoView {
    PreAuthentication { csrf: Seq<char>, user_id: UserId },
    Authenticated { csrf: Seq<char>, user_id: UserId, admin: bool },
    Registration { csrf: Seq<char>, user: AppUserInsertView },
}

impl View for SessionInfo {
    type V = SessionInfoView;

    open spec fn view(&self) -> SessionInfoView {
        match *self {
            SessionInfo::PreAuthentication { csrf, data } => SessionInfoView::PreAuthentication {
                csrf: csrf@,
                user_id: data.user_id,
            },
            SessionInfo::Authenticated { csrf, data } => SessionInfoView::Authenticated {
                csrf: csrf@,
                user_id: data.user_id,
                admin: data.admin,
            },
            SessionInfo::Registration { csrf, data } => SessionInfoView::Registration {
                csrf: csrf@,
                user: data.user_data@,
            },
        }
    }
}

impl Clone for RegistrationSessionData {
    fn clone(&self) -> (copy: RegistrationSessionData)
        ensures
            copy.user_data@ == self.user_data@,
    {
        RegistrationSessionData { user_data: self.user_data.duplicate() }
    }
}

impl Clone for SessionInfo {
    fn clone(&self) -> (copy: SessionInfo)
        ensures
            copy@ == self@,
    {
        self.duplicate()
    }
}

impl SessionInfoView {
    /// The kind of session that the payload belongs to.
    pub open spec fn kind(self) -> SessionType {
        match self {
            SessionInfoView::PreAuthentication { .. } => SessionType::PreAuthentication,
            SessionInfoView::Authenticated { .. } => SessionType::Authenticated,
            SessionInfoView::Registration { .. } => SessionType::Registration,
        }
    }

    /// The CSRF token of the record.
    pub open spec fn csrf(self) -> Seq<char> {
        match self {
            SessionInfoView::PreAuthentication { csrf, .. } => csrf,
            SessionInfoView::Authenticated { csrf, .. } => csrf,
            SessionInfoView::Registration { csrf, .. } => csrf,
        }
    }
}

impl SessionInfo {
    /// The kind of session that the payload belongs to.
    pub fn session_type(&self) -> (kind: SessionType)
        ensures
            kind == self@.kind(),
    {
        match self {
            SessionInfo::PreAuthentication { .. } => SessionType::PreAuthentication,
            SessionInfo::Authenticated { .. } => SessionType::Authenticated,
            SessionInfo::Registration { .. } => SessionType::Registration,
        }
    }

    /// The CSRF token of the record.
    pub fn csrf_token(&self) -> (csrf: String)
        ensures
            csrf@ == self@.csrf(),
    {
        match self {
            SessionInfo::PreAuthentication { csrf, .. } => csrf.clone(),
            SessionInfo::Authenticated { csrf, .. } => csrf.clone(),
            SessionInfo::Registration { csrf, .. } => csrf.clone(),
        }
    }

    /// The payload of a pre-authentication record; `None` for any other kind.
    pub fn as_pre_auth(&self) -> (data: Option<&PreAuthenticationSessionData>)
        ensures
            match self@ {
                SessionInfoView::PreAuthentication { user_id, .. } => data matches Some(d)
                    && d.user_id == user_id,
                _ => data is None,
            },
    {
        match self {
            SessionInfo::PreAuthentication { data, .. } => Some(data),
            _ => None,
        }
    }

    /// The payload of an authenticated record; `None` for any other kind.
    pub fn as_auth(&self) -> (data: Option<&AuthenticatedSessionData>)
        ensures
            match self@ {
                SessionInfoView::Authenticated { user_id, admin, .. } => data matches Some(d)
                    && d.user_id == user_id && d.admin == admin,
                _ => data is None,
            },
    {
        match self {
            SessionInfo::Authenticated { data, .. } => Some(data),
            _ => None,
        }
    }

    /// The payload of a registration record; `None` for any other kind.
    pub fn as_registration(&self) -> (data: Option<&RegistrationSessionData>)
        ensures
            match self@ {
                SessionInfoView::Registration { user, .. } => data matches Some(d)
                    && d.user_data@ == user,
                _ => data is None,
            },
    {
        match self {
            SessionInfo::Registration { data, .. } => Some(data),
            _ => None,
        }
    }

    /// A second value with the same content.
    pub fn duplicate(&self) -> (copy: SessionInfo)
        ensures
            copy@ == self@,
    {
        match self {
            SessionInfo::PreAuthentication { csrf, data } => SessionInfo::PreAuthentication {
                csrf: csrf.clone(),
                data: *data,
            },
            SessionInfo::Authenticated { csrf, data } => SessionInfo::Authenticated {
                csrf: csrf.clone(),
                data: *data,
            },
            SessionInfo::Registration { csrf, data } => SessionInfo::Registration {
                csrf: csrf.clone(),
                data: RegistrationSessionData { user_data: data.user_data.duplicate() },
            },
        }
    }
}

/// What went wrong between the engine and the session store.
#[derive(Clone, Copy, Debug, PartialEq, Eq, Structural)]
pub enum StorageFault {
    /// The store could not be reached or reported a failure.
    Backend,
    /// The reply does not answer the request that was made.
    UnexpectedReply,
    /// Every candidate token was already taken.
    TokensExhausted,
    /// The operating system gave no random bytes.
    NoRandomness,
    /// A record does not have the shape that the engine itself gave it.
    Inconsistent,
}

/// A failure of the session store, with the store's own words.
#[derive(Debug)]
pub struct SessionStorageError {
    pub fault: StorageFault,
    pub detail: String,
}

/// The mathematical content of a [`SessionStorageError`].
pub struct SessionStorageErrorView {
    pub fault: StorageFault,
    pub detail: Seq<char>,
}

impl View for SessionStorageError {
    type V = SessionStorageErrorView;

    open spec fn view(&self) -> SessionStorageErrorView {
        SessionStorageErrorView { fault: self.fault, detail: self.detail@ }
    }
}

impl SessionStorageError {
    /// An error that the engine itself raises; it has no words of the store.
    pub fn of(fault: StorageFault) -> (error: SessionStorageError)
        ensures
            error@ == internal_error(fault),
    {
        SessionStorageError { fault, detail: String::new() }
    }

    /// The words of the error, for a log or a response body.
    pub fn message(&self) -> (text: String)
        ensures
            text@ == self@.detail,
    {
        self.detail.clone()
    }
}

/// The error that the engine raises for a fault of its own finding.
pub open spec fn internal_error(fault: StorageFault) -> SessionStorageErrorView {
    SessionStorageErrorView { fault, detail: Seq::empty() }
}

/// Why a record could not be claimed.
#[derive(Debug)]
pub enum SessionCreationError {
    /// There is already a session with the same token.
    Duplicate,
    /// The store failed while writing or reading.
    StorageError(SessionStorageError),
}

/// The mathematical content of a [`SessionCreationError`].
pub enum SessionCreationErrorView {
    Duplicate,
    StorageError(SessionStorageErrorView),
}

impl View for SessionCreationError {
    type V = SessionCreationErrorView;

    open spec fn view(&self) -> SessionCreationErrorView {
        match *self {
            SessionCreationError::Duplicate => SessionCreationErrorView::Duplicate,
            SessionCreationError::StorageError(error) => SessionCreationErrorView::StorageError(
                error@,
            ),
        }
    }
}

} // verus!
