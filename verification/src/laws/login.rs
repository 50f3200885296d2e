//! What a login comes to: the guard first, and only then the credentials.

use crate::auth::Authentication;
use crate::directory::{PrimaryAuthenticationMethodView, RequestView, ResponseView};
use crate::guard::GuardView;
use crate::http::HeaderValueView;
use crate::login::{Login, LoginGrantView, LoginRejectionView, LoginView};
use crate::protocol::Step;
use vstd::prelude::*;

verus! {

/// A login is the guard and then the authentication. After the two commands
/// of the guard, carried out by a store that answers as the model does, the
/// login of a client whose count has reached the threshold has ended as
/// `TooManyAttempts`, whatever the email address and the credential; the
/// login of any other client asks the directory who has the email address.
pub proof fn law_guard_then_authentication(
    store: crate::laws::model::StoreState,
    client: Seq<char>,
    email: Seq<char>,
    credential: PrimaryAuthenticationMethodView,
    csrf: Seq<char>,
    token: Seq<char>,
)
    ensures
        ({
            let key = crate::store::attempts_key(client);
            let count = store.count(key) + 1;
            match Login::spec_begin(HeaderValueView::Text(client), email, credential) {
                Step::Send(counting, RequestView::Store(increment)) => {
                    let (counted, reply) = store.perform(increment);
                    match Login::spec_resume(counting, ResponseView::Store(reply), csrf, token) {
                        Step::Send(judged, RequestView::Store(expire)) => {
                            let (after, done) = counted.perform(expire);
                            &&& after == crate::laws::guard::run_guard(store, client).0
                            &&& Login::spec_resume(judged, ResponseView::Store(done), csrf, token)
                                == (if crate::guard::denied(count) {
                                Step::<
                                    LoginView,
                                    RequestView,
                                    Result<LoginGrantView, LoginRejectionView>,
                                >::Finish(Err(LoginRejectionView::TooManyAttempts))
                            } else {
                                Login::authenticating(Authentication::spec_begin(email, credential))
                            })
                        },
                        _ => false,
                    }
                },
                _ => false,
            }
        }),
{
}

/// The guard comes first. A login of a client whose attempt is denied ends
/// as `TooManyAttempts` when the guard gives its verdict, and has asked the
/// directory nothing: the credential is never looked at, right or wrong.
pub proof fn law_denied_before_credentials(
    guard: GuardView,
    email: Seq<char>,
    credential: PrimaryAuthenticationMethodView,
    response: ResponseView,
    csrf: Seq<char>,
    token: Seq<char>,
)
    ensures
        Login::spec_resume(
            LoginView::Guarding { guard, email, credential },
            response,
            csrf,
            token,
        ) matches Step::Send(LoginView::Guarding { .. }, request) ==> request is Store,
        guard.verdict == Some(true) && response == ResponseView::Store(
            crate::protocol::ReplyView::Done,
        ) ==> Login::spec_resume(
            LoginView::Guarding { guard, email, credential },
            response,
            csrf,
            token,
        ) == Step::<LoginView, RequestView, Result<LoginGrantView, LoginRejectionView>>::Finish(
            Err(LoginRejectionView::TooManyAttempts),
        ),
{
}

} // verus!
