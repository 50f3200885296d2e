//! The ways into a session: a pre-authentication session is created for a
//! user, a registration session for sign-up data, and a pre-authentication
//! session is promoted to an authenticated one.
//!
//! A promotion first deletes the pre-authentication record and only then
//! creates the authenticated one, under a new token and with a new CSRF
//! token. Between the two the user has no session at all; at no time has
//! the user two.

use crate::creation::{creation_view, Creation, CreationStep, CreationStepView, CreationView};
use crate::protocol::{error_of, reply_error, Command, CommandView, Reply, ReplyView, Step};
use crate::sessions::{time_to_live, timeout_for, BaseSessionView, GenericAuthenticatedSession, PreAuthenticationSession, RegistrationSession, SessionTrait};
use crate::store::{
    internal_error, session_key, AuthenticatedSessionData, PreAuthenticationSessionData,
    RegistrationSessionData, SessionInfo, SessionInfoView, SessionStorageError,
    SessionStorageErrorView, SessionType, StorageFault,
};
use crate::token::{generate_token, is_token};
use crate::users::{AppUserInsert, UserId};
use vstd::prelude::*;

verus! {

/// The payload of a pre-authentication record.
pub open spec fn pre_authentication_info(user_id: UserId, csrf: Seq<char>) -> SessionInfoView {
    SessionInfoView::PreAuthentication { csrf, user_id }
}

/// The payload of an authenticated record.
pub open spec fn authenticated_info(user_id: UserId, admin: bool, csrf: Seq<char>)
    -> SessionInfoView {
    SessionInfoView::Authenticated { csrf, user_id, admin }
}

/// The step with which a creation ends when the operating system gives no
/// random bytes.
pub open spec fn no_randomness() -> CreationStepView {
    Step::Finish(Err(internal_error(StorageFault::NoRandomness)))
}

/// Starts the creation of a record with a freshly generated first candidate.
fn begin_creation(info: SessionInfo) -> (step: CreationStep)
    ensures
        creation_view(step) == no_randomness() || exists|token: Seq<char>|
            is_token(token) && creation_view(step) == #[trigger] Creation::spec_begin(
                info@,
                time_to_live(info@),
                token,
            ),
{
    let seconds = timeout_for(&info);
    Creation::begin(info, seconds)
}

impl PreAuthenticationSession {
    /// Starts the creation of a pre-authentication session for a user, with
    /// the given CSRF token and first candidate token. The record lives
    /// five minutes.
    pub fn create_with(user_id: UserId, csrf: String, token: String) -> (step: CreationStep)
        ensures
            creation_view(step) == Creation::spec_begin(
                pre_authentication_info(user_id, csrf@),
                time_to_live(pre_authentication_info(user_id, csrf@)),
                token@,
            ),
    {
        let info = SessionInfo::PreAuthentication {
            csrf,
            data: PreAuthenticationSessionData { user_id },
        };
        let seconds = timeout_for(&info);
        Creation::begin_with(info, seconds, token)
    }

    /// Starts the creation of a pre-authentication session for a user, with
    /// a freshly generated CSRF token and first candidate token. It ends at
    /// once with `NoRandomness` if the operating system gives no random
    /// bytes.
    pub fn create(user_id: UserId) -> (step: CreationStep)
        ensures
            creation_view(step) == no_randomness() || exists|csrf: Seq<char>, token: Seq<char>|
                is_token(csrf) && is_token(token) && creation_view(step)
                    == #[trigger] Creation::spec_begin(
                    pre_authentication_info(user_id, csrf),
                    time_to_live(pre_authentication_info(user_id, csrf)),
                    token,
                ),
    {
        match generate_token() {
            Some(csrf) => {
                let ghost csrf_text = csrf@;
                let step = begin_creation(
                    SessionInfo::PreAuthentication {
                        csrf,
                        data: PreAuthenticationSessionData { user_id },
                    },
                );
                proof {
                    if creation_view(step) != no_randomness() {
                        let token = choose|token: Seq<char>|
                            is_token(token) && creation_view(step) == #[trigger] Creation::spec_begin(
                                pre_authentication_info(user_id, csrf_text),
                                time_to_live(pre_authentication_info(user_id, csrf_text)),
                                token,
                            );
                        assert(is_token(csrf_text) && is_token(token) && creation_view(step)
                            == Creation::spec_begin(
                            pre_authentication_info(user_id, csrf_text),
                            time_to_live(pre_authentication_info(user_id, csrf_text)),
                            token,
                        ));
                    }
                }
                step
            },
            None => Step::Finish(Err(SessionStorageError::of(StorageFault::NoRandomness))),
        }
    }

    /// Starts the promotion of this session to an authenticated one, an
    /// administrator's if `admin` says so, with the given CSRF token and
    /// first candidate token for the new record.
    pub fn promote_with(self, admin: bool, csrf: String, token: String) -> (step: PromotionStep)
        ensures
            self@.info matches SessionInfoView::PreAuthentication { user_id, .. }
                && promotion_view(step) == Promotion::spec_begin(
                self@.token,
                user_id,
                admin,
                csrf@,
                token@,
            ),
    {
        let user_id = self.user_id();
        let old_token = self.token();
        let key = SessionType::PreAuthentication.key_for(old_token.as_str());
        let info = SessionInfo::Authenticated {
            csrf,
            data: AuthenticatedSessionData { user_id, admin },
        };
        Step::Send(Promotion { stage: Stage::Deleting { info, token } }, Command::Delete { key })
    }

    fn promote_as(self, admin: bool) -> (step: PromotionStep)
        ensures
            self@.info matches SessionInfoView::PreAuthentication { user_id, .. } && (
            promotion_view(step) == promotion_without_randomness() || exists|
                csrf: Seq<char>,
                token: Seq<char>,
            |
                is_token(csrf) && is_token(token) && promotion_view(step)
                    == #[trigger] Promotion::spec_begin(self@.token, user_id, admin, csrf, token)),
    {
        proof {
            self.lemma_shape();
        }
        let ghost old = self@;
        match generate_token() {
            Some(csrf) => match generate_token() {
                Some(token) => {
                    let ghost csrf_text = csrf@;
                    let ghost token_text = token@;
                    let step = self.promote_with(admin, csrf, token);
                    assert(is_token(csrf_text) && is_token(token_text) && promotion_view(step)
                        == Promotion::spec_begin(
                        old.token,
                        old.info->PreAuthentication_user_id,
                        admin,
                        csrf_text,
                        token_text,
                    ));
                    step
                },
                None => Step::Finish(Err(SessionStorageError::of(StorageFault::NoRandomness))),
            },
            None => Step::Finish(Err(SessionStorageError::of(StorageFault::NoRandomness))),
        }
    }

    /// Starts the promotion of this session to a customer's session. The
    /// session is consumed: its token stops resolving with the first
    /// command, and the new session has a new token and a new CSRF token.
    /// It ends at once with `NoRandomness`, and nothing is deleted, if the
    /// operating system gives no random bytes.
    pub fn promote(self) -> (step: PromotionStep)
        ensures
            self@.info matches SessionInfoView::PreAuthentication { user_id, .. } && (
            promotion_view(step) == promotion_without_randomness() || exists|
                csrf: Seq<char>,
                token: Seq<char>,
            |
                is_token(csrf) && is_token(token) && promotion_view(step)
                    == #[trigger] Promotion::spec_begin(self@.token, user_id, false, csrf, token)),
    {
        self.promote_as(false)
    }

    /// Starts the promotion of this session to an administrator's session.
    /// Only for a user who is known to be an administrator. Otherwise as
    /// [`PreAuthenticationSession::promote`].
    pub fn promote_to_admin(self) -> (step: PromotionStep)
        ensures
            self@.info matches SessionInfoView::PreAuthentication { user_id, .. } && (
            promotion_view(step) == promotion_without_randomness() || exists|
                csrf: Seq<char>,
                token: Seq<char>,
            |
                is_token(csrf) && is_token(token) && promotion_view(step)
                    == #[trigger] Promotion::spec_begin(self@.token, user_id, true, csrf, token)),
    {
        self.promote_as(true)
    }
}

impl RegistrationSession {
    /// Starts the creation of a registration session for sign-up data, with
    /// the given CSRF token and first candidate token. The record lives ten
    /// minutes.
    pub fn create_with(user_data: AppUserInsert, csrf: String, token: String) -> (step:
        CreationStep)
        ensures
            creation_view(step) == Creation::spec_begin(
                SessionInfoView::Registration { csrf: csrf@, user: user_data@ },
                time_to_live(SessionInfoView::Registration { csrf: csrf@, user: user_data@ }),
                token@,
            ),
    {
        let info = SessionInfo::Registration { csrf, data: RegistrationSessionData { user_data } };
        let seconds = timeout_for(&info);
        Creation::begin_with(info, seconds, token)
    }

    /// Starts the creation of a registration session for sign-up data, with
    /// a freshly generated CSRF token and first candidate token. It ends at
    /// once with `NoRandomness` if the operating system gives no random
    /// bytes.
    pub fn create(user_data: AppUserInsert) -> (step: CreationStep)
        ensures
            creation_view(step) == no_randomness() || exists|csrf: Seq<char>, token: Seq<char>|
                is_token(csrf) && is_token(token) && creation_view(step)
                    == #[trigger] Creation::spec_begin(
                    SessionInfoView::Registration { csrf, user: user_data@ },
                    time_to_live(SessionInfoView::Registration { csrf, user: user_data@ }),
                    token,
                ),
    {
        match generate_token() {
            Some(csrf) => {
                let ghost csrf_text = csrf@;
                let ghost info = SessionInfoView::Registration { csrf: csrf_text, user: user_data@ };
                let step = begin_creation(
                    SessionInfo::Registration { csrf, data: RegistrationSessionData { user_data } },
                );
                proof {
                    if creation_view(step) != no_randomness() {
                        let token = choose|token: Seq<char>|
                            is_token(token) && creation_view(step) == #[trigger] Creation::spec_begin(
                                info,
                                time_to_live(info),
                                token,
                            );
                        assert(is_token(csrf_text) && is_token(token) && creation_view(step)
                            == Creation::spec_begin(
                            SessionInfoView::Registration { csrf: csrf_text, user: user_data@ },
                            time_to_live(
                                SessionInfoView::Registration { csrf: csrf_text, user: user_data@ },
                            ),
                            token,
                        ));
                    }
                }
                step
            },
            None => Step::Finish(Err(SessionStorageError::of(StorageFault::NoRandomness))),
        }
    }
}

#[derive(Debug)]
enum Stage {
    Deleting { info: SessionInfo, token: String },
    Creating(Creation),
}

/// A promotion under way.
#[derive(Debug)]
pub struct Promotion {
    stage: Stage,
}

/// The mathematical content of a [`Promotion`].
pub enum PromotionView {
    /// The deletion of the pre-authentication record was asked for; the
    /// payload and the first candidate token of the new record wait.
    Deleting { info: SessionInfoView, token: Seq<char> },
    /// The authenticated record is being created.
    Creating(CreationView),
}

impl View for Promotion {
    type V = PromotionView;

    closed spec fn view(&self) -> PromotionView {
        match self.stage {
            Stage::Deleting { info, token } => PromotionView::Deleting {
                info: info@,
                token: token@,
            },
            Stage::Creating(creation) => PromotionView::Creating(creation@),
        }
    }
}

/// A step of a promotion.
pub type PromotionStep = Step<
    Promotion,
    Command,
    Result<GenericAuthenticatedSession, SessionStorageError>,
>;

/// The mathematical content of a step of a promotion.
pub type PromotionStepView = Step<
    PromotionView,
    CommandView,
    Result<BaseSessionView, SessionStorageErrorView>,
>;

/// The mathematical content of the result of a promotion.
pub open spec fn promoted_view(
    outcome: Result<GenericAuthenticatedSession, SessionStorageError>,
) -> Result<BaseSessionView, SessionStorageErrorView> {
    match outcome {
        Ok(session) => Ok(session@),
        Err(error) => Err(error@),
    }
}

/// The mathematical content of a step of a promotion.
pub open spec fn promotion_view(step: PromotionStep) -> PromotionStepView {
    step.view_with(
        |outcome: Result<GenericAuthenticatedSession, SessionStorageError>|
            promoted_view(outcome),
    )
}

/// The step with which a promotion ends when the operating system gives no
/// random bytes.
pub open spec fn promotion_without_randomness() -> PromotionStepView {
    Step::Finish(Err(internal_error(StorageFault::NoRandomness)))
}

impl Promotion {
    /// The first step of a promotion: delete the pre-authentication record.
    pub open spec fn spec_begin(
        old_token: Seq<char>,
        user_id: UserId,
        admin: bool,
        csrf: Seq<char>,
        token: Seq<char>,
    ) -> PromotionStepView {
        Step::Send(
            PromotionView::Deleting { info: authenticated_info(user_id, admin, csrf), token },
            CommandView::Delete { key: session_key(SessionType::PreAuthentication, old_token) },
        )
    }

    /// A step of the creation of the new record, as a step of the promotion.
    /// A record that comes out of the creation and is not an authenticated
    /// one is reported as `Inconsistent`.
    pub open spec fn lift(step: CreationStepView) -> PromotionStepView {
        match step {
            Step::Send(creation, command) => Step::Send(PromotionView::Creating(creation), command),
            Step::Finish(Ok(session)) => if session.info is Authenticated {
                Step::Finish(Ok(session))
            } else {
                Step::Finish(Err(internal_error(StorageFault::Inconsistent)))
            },
            Step::Finish(Err(error)) => Step::Finish(Err(error)),
        }
    }

    /// The step that a reply leads to. `fresh` is the candidate token to go
    /// on with if the current one turns out to be taken.
    pub open spec fn spec_resume(machine: PromotionView, reply: ReplyView, fresh: Seq<char>)
        -> PromotionStepView {
        match machine {
            PromotionView::Deleting { info, token } => match reply {
                ReplyView::Done => Self::lift(Creation::spec_begin(info, time_to_live(info), token)),
                other => Step::Finish(Err(reply_error(other))),
            },
            PromotionView::Creating(creation) => Self::lift(
                Creation::spec_resume(creation, reply, fresh),
            ),
        }
    }

    /// Whether the step that `reply` leads to takes a fresh candidate
    /// token.
    pub open spec fn spec_needs_token(machine: PromotionView, reply: ReplyView) -> bool {
        machine matches PromotionView::Creating(creation) && creation.needs_token(reply)
    }

    fn lift_step(step: CreationStep) -> (lifted: PromotionStep)
        ensures
            promotion_view(lifted) == Self::lift(creation_view(step)),
    {
        match step {
            Step::Send(creation, command) => Step::Send(
                Promotion { stage: Stage::Creating(creation) },
                command,
            ),
            Step::Finish(Ok(session)) => match GenericAuthenticatedSession::from_base(session) {
                Some(typed) => Step::Finish(Ok(typed)),
                None => Step::Finish(Err(SessionStorageError::of(StorageFault::Inconsistent))),
            },
            Step::Finish(Err(error)) => Step::Finish(Err(error)),
        }
    }

    /// Whether the step that `reply` leads to takes a fresh candidate
    /// token.
    pub fn needs_token(&self, reply: &Reply) -> (needs: bool)
        ensures
            needs == Self::spec_needs_token(self@, reply@),
    {
        match &self.stage {
            Stage::Deleting { .. } => false,
            Stage::Creating(creation) => creation.needs_token(reply),
        }
    }

    /// Takes the reply to the command last handed out and says what comes
    /// next. `fresh` is the candidate token to go on with if the current one
    /// turns out to be taken; it is not looked at otherwise.
    pub fn resume_with(self, reply: Reply, fresh: String) -> (step: PromotionStep)
        ensures
            promotion_view(step) == Self::spec_resume(self@, reply@, fresh@),
    {
        match self.stage {
            Stage::Deleting { info, token } => match reply {
                Reply::Done => {
                    let seconds = timeout_for(&info);
                    Self::lift_step(Creation::begin_with(info, seconds, token))
                },
                other => Step::Finish(Err(error_of(other))),
            },
            Stage::Creating(creation) => Self::lift_step(creation.resume_with(reply, fresh)),
        }
    }

    /// Takes the reply to the command last handed out and says what comes
    /// next. A fresh candidate token is generated only where the reply
    /// calls for one; if the operating system then gives no random bytes,
    /// the promotion ends with `NoRandomness`.
    pub fn resume(self, reply: Reply) -> (step: PromotionStep)
        ensures
            !Self::spec_needs_token(self@, reply@) ==> promotion_view(step) == Self::spec_resume(
                self@,
                reply@,
                Seq::empty(),
            ),
            Self::spec_needs_token(self@, reply@) ==> promotion_view(step)
                == promotion_without_randomness()
                || exists|fresh: Seq<char>|
                is_token(fresh) && promotion_view(step) == #[trigger] Self::spec_resume(
                    self@,
                    reply@,
                    fresh,
                ),
    {
        if self.needs_token(&reply) {
            match generate_token() {
                Some(fresh) => {
                    let ghost text = fresh@;
                    let ghost before = self@;
                    let step = self.resume_with(reply, fresh);
                    assert(promotion_view(step) == Self::spec_resume(before, reply@, text));
                    step
                },
                None => Step::Finish(Err(SessionStorageError::of(StorageFault::NoRandomness))),
            }
        } else {
            self.resume_with(reply, String::new())
        }
    }
}

} // verus!
