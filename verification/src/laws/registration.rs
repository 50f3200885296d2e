//! What the completion of a sign-up does to the user directory and to the
//! session store, as its machine and models of the two give it.

use crate::directory::{
    AnswerView, DatabaseErrorView, DirectoryFault, PrimaryAuthenticationMethodView, QueryView,
    RequestView, ResponseView, StorageErrorView,
};
use crate::laws::lifecycle::{lemma_absent_is_not_found, run_lookup};
use crate::laws::model::StoreState;
use crate::protocol::Step;
use crate::registration::{
    credential_fault, user_data_of, AddCredentialErrorView, Commit, CommitStepView, CommitView,
};
use crate::sessions::BaseSessionView;
use crate::store::{SessionStorageErrorView, SessionType};
use crate::users::{AppUserInsertView, AppUserRole, UserId, UserProfile};
use vstd::prelude::*;

verus! {

/// A model of the user directory: the users it knows, and the primary
/// credential of each user that has one.
pub struct DirectoryState {
    pub users: Map<UserId, AppUserInsertView>,
    pub credentials: Map<UserId, PrimaryAuthenticationMethodView>,
}

impl DirectoryState {
    /// Whether some user has the email address.
    pub open spec fn knows(self, email: Seq<char>) -> bool {
        exists|user_id: UserId| #[trigger]
            self.users.dom().contains(user_id) && self.users[user_id].email == email
    }

    /// What a query that writes does to the directory, and what the
    /// directory answers. A user that is created gets the identifier
    /// `fresh`. Attaching a credential fails, with the words given, where
    /// `failure` holds any.
    pub open spec fn perform(self, query: QueryView, fresh: UserId, failure: Option<Seq<char>>) -> (
        DirectoryState,
        AnswerView,
    ) {
        match query {
            QueryView::CreateUser { user_data } => (
                DirectoryState { users: self.users.insert(fresh, user_data), ..self },
                AnswerView::Created(fresh),
            ),
            QueryView::AttachCredential { user_id, credential } => match failure {
                Some(detail) => (self, AnswerView::Failed(detail)),
                None => (
                    DirectoryState {
                        credentials: self.credentials.insert(user_id, credential),
                        ..self
                    },
                    AnswerView::Done,
                ),
            },
            QueryView::RemoveUser { user_id } => (
                DirectoryState {
                    users: self.users.remove(user_id),
                    credentials: self.credentials.remove(user_id),
                },
                AnswerView::Done,
            ),
            QueryView::FindUser { email } => (
                self,
                AnswerView::User(
                    if self.knows(email) {
                        Some(
                            UserProfile {
                                id: choose|user_id: UserId| #[trigger]
                                    self.users.dom().contains(user_id) && self.users[user_id].email
                                        == email,
                                role: AppUserRole::Customer,
                            },
                        )
                    } else {
                        None
                    },
                ),
            ),
            _ => (self, AnswerView::Done),
        }
    }
}

/// Where the completion of a sign-up stands, and what the directory and the
/// session store hold, after at most `fuel` requests were carried out by the
/// models.
pub open spec fn run_commit(
    step: CommitStepView,
    directory: DirectoryState,
    store: StoreState,
    fresh: UserId,
    failure: Option<Seq<char>>,
    fuel: nat,
) -> (DirectoryState, StoreState, CommitStepView)
    decreases fuel,
{
    match step {
        Step::Finish(_) => (directory, store, step),
        Step::Send(machine, request) => if fuel == 0 {
            (directory, store, step)
        } else {
            match request {
                RequestView::Directory(query) => {
                    let (next, answer) = directory.perform(query, fresh, failure);
                    run_commit(
                        Commit::spec_resume(machine, ResponseView::Directory(answer)),
                        next,
                        store,
                        fresh,
                        failure,
                        (fuel - 1) as nat,
                    )
                },
                RequestView::Store(command) => {
                    let (next, reply) = store.perform(command);
                    run_commit(
                        Commit::spec_resume(machine, ResponseView::Store(reply)),
                        directory,
                        next,
                        fresh,
                        failure,
                        (fuel - 1) as nat,
                    )
                },
            }
        },
    }
}

/// The error that stands for a failure reported by the directory.
pub open spec fn directory_failure(detail: Seq<char>) -> AddCredentialErrorView {
    AddCredentialErrorView::StorageError(
        StorageErrorView::DatabaseError(
            DatabaseErrorView { fault: DirectoryFault::Backend, detail },
        ),
    )
}

/// The beginning of a sign-up writes nothing to the directory. Its one
/// question is who has the email address; whatever the answer, every
/// request that follows is a command to the session store.
pub proof fn law_signup_leaves_directory(
    machine: crate::registration::SignupView,
    response: ResponseView,
    csrf: Seq<char>,
    token: Seq<char>,
)
    ensures
        crate::registration::Signup::spec_resume(machine, response, csrf, token) matches Step::Send(
            _,
            request,
        ) ==> request is Store,
        crate::registration::Signup::spec_begin(
            match machine {
                crate::registration::SignupView::Finding { user_data } => user_data,
                crate::registration::SignupView::Creating { creation } => user_data_of(
                    BaseSessionView { token: creation.token, info: creation.info },
                ),
            },
        ) matches Step::Send(_, RequestView::Directory(QueryView::FindUser { .. })),
{
}

/// Rollback. Where the user is stored and the credential then cannot be
/// attached, the completion ends with the directory's failure after it has
/// removed the user again: the directory knows exactly the users it knew
/// before, so an email address that was no user's is still no user's, and
/// the session store is untouched.
pub proof fn law_rollback(
    directory: DirectoryState,
    store: StoreState,
    session: BaseSessionView,
    credential: PrimaryAuthenticationMethodView,
    fresh: UserId,
    detail: Seq<char>,
)
    requires
        credential_fault(credential) is None,
        !directory.users.dom().contains(fresh),
        !directory.credentials.dom().contains(fresh),
    ensures
        ({
            let (directory_after, store_after, last) = run_commit(
                Commit::spec_begin(session, credential),
                directory,
                store,
                fresh,
                Some(detail),
                3,
            );
            &&& last == Step::<
                CommitView,
                RequestView,
                Result<UserId, AddCredentialErrorView>,
            >::Finish(Err(directory_failure(detail)))
            &&& directory_after.users == directory.users
            &&& directory_after.credentials == directory.credentials
            &&& store_after == store
            &&& forall|email: Seq<char>| directory_after.knows(email) == directory.knows(email)
        }),
{
    reveal_with_fuel(run_commit, 4);
    let created = directory.perform(
        QueryView::CreateUser { user_data: user_data_of(session) },
        fresh,
        Some(detail),
    ).0;
    let removed = created.perform(QueryView::RemoveUser { user_id: fresh }, fresh, Some(detail)).0;
    assert(removed.users =~= directory.users);
    assert(removed.credentials =~= directory.credentials);
}

/// Completion. Where nothing fails, the completion ends with the identifier
/// of the new user; the directory then knows the user with the data of the
/// registration session and with the credential, and the token of the
/// registration session resolves to nothing.
pub proof fn law_completion(
    directory: DirectoryState,
    store: StoreState,
    session: BaseSessionView,
    credential: PrimaryAuthenticationMethodView,
    fresh: UserId,
)
    requires
        credential_fault(credential) is None,
    ensures
        ({
            let (directory_after, store_after, last) = run_commit(
                Commit::spec_begin(session, credential),
                directory,
                store,
                fresh,
                None,
                3,
            );
            &&& last == Step::<
                CommitView,
                RequestView,
                Result<UserId, AddCredentialErrorView>,
            >::Finish(Ok(fresh))
            &&& directory_after.users == directory.users.insert(fresh, user_data_of(session))
            &&& directory_after.credentials == directory.credentials.insert(fresh, credential)
            &&& run_lookup(store_after, SessionType::Registration, session.token) == Ok::<
                Option<BaseSessionView>,
                SessionStorageErrorView,
            >(None)
        }),
{
    reveal_with_fuel(run_commit, 4);
    let store_after = run_commit(
        Commit::spec_begin(session, credential),
        directory,
        store,
        fresh,
        None,
        3,
    ).1;
    lemma_absent_is_not_found(store_after, SessionType::Registration, session.token);
}

/// The password policy comes first. A credential that breaks it ends the
/// completion before anything is asked of the directory or of the session
/// store.
pub proof fn law_policy_before_storage(
    session: BaseSessionView,
    credential: PrimaryAuthenticationMethodView,
)
    requires
        credential_fault(credential) is Some,
    ensures
        Commit::spec_begin(session, credential) == Step::<
            CommitView,
            RequestView,
            Result<UserId, AddCredentialErrorView>,
        >::Finish(Err(credential_fault(credential)->0)),
{
}

} // verus!
