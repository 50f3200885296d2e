//! Session records as the engine hands them out: the untyped record, and the
//! typed variants that each accept one shape of payload only.

use crate::lookup::{lookup_view, removal_view, Lookup, LookupStep, Removal, RemovalStep};
use crate::store::{PreAuthenticationSessionData, RegistrationSessionData, SessionInfo, SessionInfoView, SessionType};
use crate::users::{AppUserInsert, UserId};
use vstd::prelude::*;

verus! {

/// A session record: the token that names it and what is stored with it.
/// It says nothing of how far its user has authenticated; the typed
/// sessions do.
#[derive(Debug)]
pub struct BaseSession {
    token: String,
    session_info: SessionInfo,
}

/// The mathematical content of a [`BaseSession`].
pub struct BaseSessionView {
    pub token: Seq<char>,
    pub info: SessionInfoView,
}

impl View for BaseSession {
    type V = BaseSessionView;

    closed spec fn view(&self) -> BaseSessionView {
        BaseSessionView { token: self.token@, info: self.session_info@ }
    }
}

impl BaseSession {
    /// The record of a token and its payload.
    pub(crate) fn new(token: String, session_info: SessionInfo) -> (session: BaseSession)
        ensures
            session@ == (BaseSessionView { token: token@, info: session_info@ }),
    {
        BaseSession { token, session_info }
    }

    /// The token that names the record.
    pub fn token(&self) -> (token: String)
        ensures
            token@ == self@.token,
    {
        self.token.clone()
    }

    /// What is stored with the token.
    pub fn info(&self) -> (info: SessionInfo)
        ensures
            info@ == self@.info,
    {
        self.session_info.duplicate()
    }

    /// The kind of the record.
    pub fn session_type(&self) -> (kind: SessionType)
        ensures
            kind == self@.info.kind(),
    {
        self.session_info.session_type()
    }

    /// Takes the record apart.
    pub(crate) fn into_parts(self) -> (parts: (String, SessionInfo))
        ensures
            parts.0@ == self@.token,
            parts.1@ == self@.info,
    {
        (self.token, self.session_info)
    }
}

/// Seconds that a customer's session lives: seven days.
pub const SESSION_TIMEOUT: u32 = 604800;

/// Seconds that a pre-authentication session lives: five minutes.
pub const PREAUTH_SESSION_TIMEOUT: u32 = 300;

/// Seconds that a registration session lives: ten minutes.
pub const REGISTRATION_SESSION_TIMEOUT: u32 = 600;

/// Seconds that an administrator's session lives: two hours.
pub const ADMIN_SESSION_TIMEOUT: u32 = 7200;

/// The time to live of a record with the given payload.
pub open spec fn time_to_live(info: SessionInfoView) -> nat {
    match info {
        SessionInfoView::Registration { .. } => REGISTRATION_SESSION_TIMEOUT as nat,
        SessionInfoView::PreAuthentication { .. } => PREAUTH_SESSION_TIMEOUT as nat,
        SessionInfoView::Authenticated { admin, .. } => if admin {
            ADMIN_SESSION_TIMEOUT as nat
        } else {
            SESSION_TIMEOUT as nat
        },
    }
}

/// The time to live of a record with the given payload, in seconds.
pub fn timeout_for(info: &SessionInfo) -> (seconds: u32)
    ensures
        seconds as nat == time_to_live(info@),
{
    match info {
        SessionInfo::Registration { .. } => REGISTRATION_SESSION_TIMEOUT,
        SessionInfo::PreAuthentication { .. } => PREAUTH_SESSION_TIMEOUT,
        SessionInfo::Authenticated { data, .. } => if data.admin {
            ADMIN_SESSION_TIMEOUT
        } else {
            SESSION_TIMEOUT
        },
    }
}

/// What all typed sessions have in common. A typed session stands for a
/// record of one kind and one shape of payload; it can only be had from a
/// record that has them.
pub trait SessionTrait: Sized {
    /// The record that the session stands for.
    spec fn record(&self) -> BaseSessionView;

    /// The kind of record that sessions of this type are read from.
    spec fn kind() -> SessionType;

    /// Whether sessions of this type accept the payload.
    spec fn accepts(info: SessionInfoView) -> bool;

    /// The kind of record that sessions of this type are read from.
    fn session_type() -> (kind: SessionType)
        ensures
            kind == Self::kind(),
    ;

    /// The typed session of a record; `None` where the record is of another
    /// kind or shape than the type accepts.
    fn from_base(session: BaseSession) -> (typed: Option<Self>)
        ensures
            typed is Some == Self::accepts(session@.info),
            typed matches Some(accepted) ==> accepted.record() == session@,
    ;

    /// Starts the fetch of the record that `token` names under the type's
    /// kind. What it finds goes through [`SessionTrait::from_base`].
    fn get(token: &str) -> (step: LookupStep)
        ensures
            lookup_view(step) == Lookup::spec_begin(Self::kind(), token@),
    ;

    /// The token that names the session.
    fn token(&self) -> (token: String)
        ensures
            token@ == self.record().token,
    ;

    /// Starts the removal of the session's record, which ends the session.
    fn delete(self) -> (step: RemovalStep)
        ensures
            removal_view(step) == Removal::spec_begin(Self::kind(), self.record().token),
    ;

    /// The CSRF token that was made with the session.
    fn csrf_token(&self) -> (csrf: String)
        ensures
            csrf@ == self.record().info.csrf(),
    ;
}

/// A session of a user who passed the primary credential and still owes a
/// second factor.
#[derive(Debug)]
pub struct PreAuthenticationSession {
    token: String,
    csrf: String,
    data: PreAuthenticationSessionData,
}

/// A session of a fully authenticated customer.
#[derive(Debug)]
pub struct CustomerSession {
    token: String,
    csrf: String,
    user_id: UserId,
}

/// A session of a fully authenticated administrator. No session is both an
/// administrator's and a customer's.
#[derive(Debug)]
pub struct AdministratorSession {
    token: String,
    csrf: String,
    user_id: UserId,
}

/// A session of someone who is signing up.
#[derive(Debug)]
pub struct RegistrationSession {
    token: String,
    csrf: String,
    data: RegistrationSessionData,
}

/// A fully authenticated session, a customer's or an administrator's.
#[derive(Debug)]
pub enum GenericAuthenticatedSession {
    Customer(CustomerSession),
    Administrator(AdministratorSession),
}

impl View for PreAuthenticationSession {
    type V = BaseSessionView;

    closed spec fn view(&self) -> BaseSessionView {
        BaseSessionView {
            token: self.token@,
            info: SessionInfoView::PreAuthentication {
                csrf: self.csrf@,
                user_id: self.data.user_id,
            },
        }
    }
}

impl View for CustomerSession {
    type V = BaseSessionView;

    closed spec fn view(&self) -> BaseSessionView {
        BaseSessionView {
            token: self.token@,
            info: SessionInfoView::Authenticated {
                csrf: self.csrf@,
                user_id: self.user_id,
                admin: false,
            },
        }
    }
}

impl View for AdministratorSession {
    type V = BaseSessionView;

    closed spec fn view(&self) -> BaseSessionView {
        BaseSessionView {
            token: self.token@,
            info: SessionInfoView::Authenticated {
                csrf: self.csrf@,
                user_id: self.user_id,
                admin: true,
            },
        }
    }
}

impl View for RegistrationSession {
    type V = BaseSessionView;

    closed spec fn view(&self) -> BaseSessionView {
        BaseSessionView {
            token: self.token@,
            info: SessionInfoView::Registration { csrf: self.csrf@, user: self.data.user_data@ },
        }
    }
}

impl View for GenericAuthenticatedSession {
    type V = BaseSessionView;

    open spec fn view(&self) -> BaseSessionView {
        match *self {
            GenericAuthenticatedSession::Customer(session) => session@,
            GenericAuthenticatedSession::Administrator(session) => session@,
        }
    }
}

impl Clone for BaseSession {
    fn clone(&self) -> (copy: BaseSession)
        ensures
            copy@ == self@,
    {
        BaseSession { token: self.token.clone(), session_info: self.session_info.duplicate() }
    }
}

impl Clone for PreAuthenticationSession {
    fn clone(&self) -> (copy: PreAuthenticationSession)
        ensures
            copy@ == self@,
    {
        PreAuthenticationSession {
            token: self.token.clone(),
            csrf: self.csrf.clone(),
            data: self.data,
        }
    }
}

impl Clone for CustomerSession {
    fn clone(&self) -> (copy: CustomerSession)
        ensures
            copy@ == self@,
    {
        CustomerSession {
            token: self.token.clone(),
            csrf: self.csrf.clone(),
            user_id: self.user_id,
        }
    }
}

impl Clone for AdministratorSession {
    fn clone(&self) -> (copy: AdministratorSession)
        ensures
            copy@ == self@,
    {
        AdministratorSession {
            token: self.token.clone(),
            csrf: self.csrf.clone(),
            user_id: self.user_id,
        }
    }
}

impl Clone for RegistrationSession {
    fn clone(&self) -> (copy: RegistrationSession)
        ensures
            copy@ == self@,
    {
        RegistrationSession {
            token: self.token.clone(),
            csrf: self.csrf.clone(),
            data: RegistrationSessionData { user_data: self.data.user_data.duplicate() },
        }
    }
}

impl Clone for GenericAuthenticatedSession {
    fn clone(&self) -> (copy: GenericAuthenticatedSession)
        ensures
            copy@ == self@,
    {
        match self {
            GenericAuthenticatedSession::Customer(session) => GenericAuthenticatedSession::Customer(
                session.clone(),
            ),
            GenericAuthenticatedSession::Administrator(session) => {
                GenericAuthenticatedSession::Administrator(session.clone())
            },
        }
    }
}

impl SessionTrait for PreAuthenticationSession {
    open spec fn record(&self) -> BaseSessionView {
        self@
    }

    open spec fn kind() -> SessionType {
        SessionType::PreAuthentication
    }

    open spec fn accepts(info: SessionInfoView) -> bool {
        info is PreAuthentication
    }

    fn session_type() -> (kind: SessionType) {
        SessionType::PreAuthentication
    }

    fn from_base(session: BaseSession) -> (typed: Option<Self>) {
        let (token, info) = session.into_parts();
        match info {
            SessionInfo::PreAuthentication { csrf, data } => Some(
                PreAuthenticationSession { token, csrf, data },
            ),
            _ => None,
        }
    }

    fn get(token: &str) -> (step: LookupStep) {
        Lookup::begin(SessionType::PreAuthentication, token)
    }

    fn token(&self) -> (token: String) {
        self.token.clone()
    }

    fn delete(self) -> (step: RemovalStep) {
        Removal::begin(SessionType::PreAuthentication, self.token.as_str())
    }

    fn csrf_token(&self) -> (csrf: String) {
        self.csrf.clone()
    }
}

impl PreAuthenticationSession {
    /// The user who is in the middle of authenticating.
    pub fn user_id(&self) -> (user_id: UserId)
        ensures
            self@.info matches SessionInfoView::PreAuthentication { user_id: stored, .. }
                && user_id == stored,
    {
        self.data.user_id
    }

    /// Every pre-authentication session stands for a record of that kind.
    pub proof fn lemma_shape(self)
        ensures
            self@.info is PreAuthentication,
    {
    }
}

impl SessionTrait for CustomerSession {
    open spec fn record(&self) -> BaseSessionView {
        self@
    }

    open spec fn kind() -> SessionType {
        SessionType::Authenticated
    }

    open spec fn accepts(info: SessionInfoView) -> bool {
        info matches SessionInfoView::Authenticated { admin, .. } && !admin
    }

    fn session_type() -> (kind: SessionType) {
        SessionType::Authenticated
    }

    fn from_base(session: BaseSession) -> (typed: Option<Self>) {
        let (token, info) = session.into_parts();
        match info {
            SessionInfo::Authenticated { csrf, data } => {
                if data.admin {
                    None
                } else {
                    Some(CustomerSession { token, csrf, user_id: data.user_id })
                }
            },
            _ => None,
        }
    }

    fn get(token: &str) -> (step: LookupStep) {
        Lookup::begin(SessionType::Authenticated, token)
    }

    fn token(&self) -> (token: String) {
        self.token.clone()
    }

    fn delete(self) -> (step: RemovalStep) {
        Removal::begin(SessionType::Authenticated, self.token.as_str())
    }

    fn csrf_token(&self) -> (csrf: String) {
        self.csrf.clone()
    }
}

impl CustomerSession {
    /// The customer who authenticated.
    pub fn user_id(&self) -> (user_id: UserId)
        ensures
            self@.info matches SessionInfoView::Authenticated { user_id: stored, .. }
                && user_id == stored,
    {
        self.user_id
    }

    /// Every customer session stands for an authenticated record that is not
    /// an administrator's.
    pub proof fn lemma_shape(self)
        ensures
            self@.info matches SessionInfoView::Authenticated { admin, .. } && !admin,
    {
    }
}

impl SessionTrait for AdministratorSession {
    open spec fn record(&self) -> BaseSessionView {
        self@
    }

    open spec fn kind() -> SessionType {
        SessionType::Authenticated
    }

    open spec fn accepts(info: SessionInfoView) -> bool {
        info matches SessionInfoView::Authenticated { admin, .. } && admin
    }

    fn session_type() -> (kind: SessionType) {
        SessionType::Authenticated
    }

    fn from_base(session: BaseSession) -> (typed: Option<Self>) {
        let (token, info) = session.into_parts();
        match info {
            SessionInfo::Authenticated { csrf, data } => {
                if data.admin {
                    Some(AdministratorSession { token, csrf, user_id: data.user_id })
                } else {
                    None
                }
            },
            _ => None,
        }
    }

    fn get(token: &str) -> (step: LookupStep) {
        Lookup::begin(SessionType::Authenticated, token)
    }

    fn token(&self) -> (token: String) {
        self.token.clone()
    }

    fn delete(self) -> (step: RemovalStep) {
        Removal::begin(SessionType::Authenticated, self.token.as_str())
    }

    fn csrf_token(&self) -> (csrf: String) {
        self.csrf.clone()
    }
}

impl AdministratorSession {
    /// The administrator who authenticated.
    pub fn user_id(&self) -> (user_id: UserId)
        ensures
            self@.info matches SessionInfoView::Authenticated { user_id: stored, .. }
                && user_id == stored,
    {
        self.user_id
    }

    /// Every administrator session stands for an authenticated record that
    /// is an administrator's.
    pub proof fn lemma_shape(self)
        ensures
            self@.info matches SessionInfoView::Authenticated { admin, .. } && admin,
    {
    }
}

impl SessionTrait for RegistrationSession {
    open spec fn record(&self) -> BaseSessionView {
        self@
    }

    open spec fn kind() -> SessionType {
        SessionType::Registration
    }

    open spec fn accepts(info: SessionInfoView) -> bool {
        info is Registration
    }

    fn session_type() -> (kind: SessionType) {
        SessionType::Registration
    }

    fn from_base(session: BaseSession) -> (typed: Option<Self>) {
        let (token, info) = session.into_parts();
        match info {
            SessionInfo::Registration { csrf, data } => Some(
                RegistrationSession { token, csrf, data },
            ),
            _ => None,
        }
    }

    fn get(token: &str) -> (step: LookupStep) {
        Lookup::begin(SessionType::Registration, token)
    }

    fn token(&self) -> (token: String) {
        self.token.clone()
    }

    fn delete(self) -> (step: RemovalStep) {
        Removal::begin(SessionType::Registration, self.token.as_str())
    }

    fn csrf_token(&self) -> (csrf: String) {
        self.csrf.clone()
    }
}

impl RegistrationSession {
    /// The sign-up data that the session keeps.
    pub fn user_data(&self) -> (user_data: AppUserInsert)
        ensures
            self@.info matches SessionInfoView::Registration { user, .. } && user_data@ == user,
    {
        self.data.user_data.duplicate()
    }

    /// Every registration session stands for a record of that kind.
    pub proof fn lemma_shape(self)
        ensures
            self@.info is Registration,
    {
    }
}

impl SessionTrait for GenericAuthenticatedSession {
    open spec fn record(&self) -> BaseSessionView {
        self@
    }

    open spec fn kind() -> SessionType {
        SessionType::Authenticated
    }

    open spec fn accepts(info: SessionInfoView) -> bool {
        info is Authenticated
    }

    fn session_type() -> (kind: SessionType) {
        SessionType::Authenticated
    }

    fn from_base(session: BaseSession) -> (typed: Option<Self>) {
        let (token, info) = session.into_parts();
        match info {
            SessionInfo::Authenticated { csrf, data } => {
                if data.admin {
                    Some(
                        GenericAuthenticatedSession::Administrator(
                            AdministratorSession { token, csrf, user_id: data.user_id },
                        ),
                    )
                } else {
                    Some(
                        GenericAuthenticatedSession::Customer(
                            CustomerSession { token, csrf, user_id: data.user_id },
                        ),
                    )
                }
            },
            _ => None,
        }
    }

    fn get(token: &str) -> (step: LookupStep) {
        Lookup::begin(SessionType::Authenticated, token)
    }

    fn token(&self) -> (token: String) {
        match self {
            GenericAuthenticatedSession::Customer(session) => session.token(),
            GenericAuthenticatedSession::Administrator(session) => session.token(),
        }
    }

    fn delete(self) -> (step: RemovalStep) {
        match self {
            GenericAuthenticatedSession::Customer(session) => session.delete(),
            GenericAuthenticatedSession::Administrator(session) => session.delete(),
        }
    }

    fn csrf_token(&self) -> (csrf: String) {
        match self {
            GenericAuthenticatedSession::Customer(session) => session.csrf_token(),
            GenericAuthenticatedSession::Administrator(session) => session.csrf_token(),
        }
    }
}

impl GenericAuthenticatedSession {
    /// The user who authenticated.
    pub fn user_id(&self) -> (user_id: UserId)
        ensures
            self@.info matches SessionInfoView::Authenticated { user_id: stored, .. }
                && user_id == stored,
    {
        match self {
            GenericAuthenticatedSession::Customer(session) => session.user_id(),
            GenericAuthenticatedSession::Administrator(session) => session.user_id(),
        }
    }

    /// Whether the session is an administrator's.
    pub fn is_admin(&self) -> (admin: bool)
        ensures
            admin == (self is Administrator),
            self@.info matches SessionInfoView::Authenticated { admin: stored, .. } && admin
                == stored,
    {
        match self {
            GenericAuthenticatedSession::Customer(session) => {
                proof {
                    session.lemma_shape();
                }
                false
            },
            GenericAuthenticatedSession::Administrator(session) => {
                proof {
                    session.lemma_shape();
                }
                true
            },
        }
    }

    /// The variant of a session is the one that its record's flag names.
    pub proof fn lemma_variant(self)
        ensures
            self@.info matches SessionInfoView::Authenticated { admin, .. } && admin == (self
                is Administrator),
    {
        match self {
            GenericAuthenticatedSession::Customer(session) => {
                session.lemma_shape();
            },
            GenericAuthenticatedSession::Administrator(session) => {
                session.lemma_shape();
            },
        }
    }
}

} // verus!
