//! Admission of a request that claims a session: the token in the session
//! cookie must resolve to a session of the type the route asks for, and,
//! unless the route opts out, the request must echo the session's CSRF token
//! in its header.

use crate::http::{
    HeaderValue, HeaderValueView, STATUS_BAD_CSRF,
    STATUS_INTERNAL_SERVER_ERROR, STATUS_UNAUTHORIZED,
};
use crate::lookup::{Lookup, LookupView};
use crate::protocol::{Command, CommandView, Reply, ReplyView, Step};
use crate::sessions::{BaseSessionView, SessionTrait};
use crate::store::{SessionStorageError, SessionStorageErrorView};
use vstd::prelude::*;

verus! {

/// Why a request was not admitted.
#[derive(Debug)]
pub enum Rejection {
    /// No session cookie, or a token that names no session of the type
    /// asked for. Which of the two is not told.
    SessionNotFound,
    /// The CSRF header is missing, cannot be read as text, or differs from
    /// the session's token.
    CsrfMismatch,
    /// The session store failed.
    Storage(SessionStorageError),
}

/// The mathematical content of a [`Rejection`].
pub enum RejectionView {
    SessionNotFound,
    CsrfMismatch,
    Storage(SessionStorageErrorView),
}

impl View for Rejection {
    type V = RejectionView;

    open spec fn view(&self) -> RejectionView {
        match *self {
            Rejection::SessionNotFound => RejectionView::SessionNotFound,
            Rejection::CsrfMismatch => RejectionView::CsrfMismatch,
            Rejection::Storage(error) => RejectionView::Storage(error@),
        }
    }
}

impl Rejection {
    /// The status code that answers the rejected request.
    pub fn status(&self) -> (code: u16)
        ensures
            code == match self@ {
                RejectionView::SessionNotFound => STATUS_UNAUTHORIZED,
                RejectionView::CsrfMismatch => STATUS_BAD_CSRF,
                RejectionView::Storage(_) => STATUS_INTERNAL_SERVER_ERROR,
            },
    {
        match self {
            Rejection::SessionNotFound => STATUS_UNAUTHORIZED,
            Rejection::CsrfMismatch => STATUS_BAD_CSRF,
            Rejection::Storage(_) => STATUS_INTERNAL_SERVER_ERROR,
        }
    }
}

/// What the CSRF check says of a header, given the session's CSRF token:
/// nothing is wrong exactly when the header holds that very token.
pub open spec fn csrf_verdict(expected: Seq<char>, header: HeaderValueView) -> Option<
    RejectionView,
> {
    match header {
        HeaderValueView::Missing => Some(RejectionView::CsrfMismatch),
        HeaderValueView::Unreadable => Some(RejectionView::CsrfMismatch),
        HeaderValueView::Text(text) => if text == expected {
            None
        } else {
            Some(RejectionView::CsrfMismatch)
        },
    }
}

/// Checks the CSRF header of a request against the session's CSRF token.
pub fn check_csrf(expected: &String, header: &HeaderValue) -> (outcome: Result<(), Rejection>)
    ensures
        match outcome {
            Ok(()) => csrf_verdict(expected@, header@) is None,
            Err(rejection) => csrf_verdict(expected@, header@) == Some(rejection@),
        },
        outcome is Ok <==> header@ == HeaderValueView::Text(expected@),
{
    match header {
        HeaderValue::Missing => Err(Rejection::CsrfMismatch),
        HeaderValue::Unreadable => Err(Rejection::CsrfMismatch),
        HeaderValue::Text(text) => if *text == *expected {
            Ok(())
        } else {
            Err(Rejection::CsrfMismatch)
        },
    }
}

/// What a fetch and the request's header come to, for a session type that
/// accepts the payloads that `accepted` holds of.
pub open spec fn admitted(
    found: Result<Option<BaseSessionView>, SessionStorageErrorView>,
    accepted: spec_fn(crate::store::SessionInfoView) -> bool,
    header: HeaderValueView,
    enforce_csrf: bool,
) -> Result<BaseSessionView, RejectionView> {
    match found {
        Err(error) => Err(RejectionView::Storage(error)),
        Ok(None) => Err(RejectionView::SessionNotFound),
        Ok(Some(session)) => if !accepted(session.info) {
            Err(RejectionView::SessionNotFound)
        } else if enforce_csrf {
            match csrf_verdict(session.info.csrf(), header) {
                Some(rejection) => Err(rejection),
                None => Ok(session),
            }
        } else {
            Ok(session)
        },
    }
}

/// An admission under way: the session's record was asked for.
#[derive(Debug)]
pub struct Admission {
    lookup: Lookup,
    header: HeaderValue,
    enforce_csrf: bool,
}

/// The mathematical content of an [`Admission`].
pub struct AdmissionView {
    pub lookup: LookupView,
    pub header: HeaderValueView,
    pub enforce_csrf: bool,
}

impl View for Admission {
    type V = AdmissionView;

    closed spec fn view(&self) -> AdmissionView {
        AdmissionView {
            lookup: self.lookup@,
            header: self.header@,
            enforce_csrf: self.enforce_csrf,
        }
    }
}

/// The mathematical content of a step of an admission.
pub type AdmissionStepView = Step<AdmissionView, CommandView, Result<BaseSessionView, RejectionView>>;

/// The mathematical content of the result of an admission.
pub open spec fn admission_outcome_view<T: SessionTrait>(outcome: Result<T, Rejection>) -> Result<
    BaseSessionView,
    RejectionView,
> {
    match outcome {
        Ok(session) => Ok(session.record()),
        Err(rejection) => Err(rejection@),
    }
}

/// The mathematical content of a step of an admission.
pub open spec fn admission_view<T: SessionTrait>(
    step: Step<Admission, Command, Result<T, Rejection>>,
) -> AdmissionStepView {
    step.view_with(|outcome: Result<T, Rejection>| admission_outcome_view(outcome))
}

impl Admission {
    /// The first step: without a session cookie the request is turned away
    /// at once; with one, the record that the cookie names is fetched.
    pub open spec fn spec_begin(
        kind: crate::store::SessionType,
        cookie: Option<Seq<char>>,
        header: HeaderValueView,
        enforce_csrf: bool,
    ) -> AdmissionStepView {
        match cookie {
            None => Step::Finish(Err(RejectionView::SessionNotFound)),
            Some(token) => match Lookup::spec_begin(kind, token) {
                Step::Send(lookup, command) => Step::Send(
                    AdmissionView { lookup, header, enforce_csrf },
                    command,
                ),
                Step::Finish(_) => Step::Finish(Err(RejectionView::SessionNotFound)),
            },
        }
    }

    /// The result that the reply leads to.
    pub open spec fn spec_resume(
        machine: AdmissionView,
        reply: ReplyView,
        accepted: spec_fn(crate::store::SessionInfoView) -> bool,
    ) -> AdmissionStepView {
        match Lookup::spec_resume(machine.lookup, reply) {
            Step::Finish(found) => Step::Finish(
                admitted(found, accepted, machine.header, machine.enforce_csrf),
            ),
            Step::Send(lookup, command) => Step::Send(AdmissionView { lookup, ..machine }, command),
        }
    }

    /// Starts the admission of a request to a route that asks for a session
    /// of type `T`. `cookie` is the value of the session cookie, `header`
    /// the CSRF header, and `enforce_csrf` whether the route checks it.
    pub(crate) fn begin<T: SessionTrait>(cookie: Option<&str>, header: HeaderValue, enforce_csrf: bool)
        -> (step: Step<Admission, Command, Result<T, Rejection>>)
        ensures
            admission_view(step) == Self::spec_begin(
                T::kind(),
                match cookie {
                    Some(token) => Some(token@),
                    None => None,
                },
                header@,
                enforce_csrf,
            ),
    {
        match cookie {
            None => Step::Finish(Err(Rejection::SessionNotFound)),
            Some(token) => match T::get(token) {
                Step::Send(lookup, command) => Step::Send(
                    Admission { lookup, header, enforce_csrf },
                    command,
                ),
                Step::Finish(_) => Step::Finish(Err(Rejection::SessionNotFound)),
            },
        }
    }

    /// Takes the reply and admits the request or turns it away.
    pub fn resume<T: SessionTrait>(self, reply: Reply) -> (step: Step<
        Admission,
        Command,
        Result<T, Rejection>,
    >)
        ensures
            admission_view(step) == Self::spec_resume(
                self@,
                reply@,
                |info: crate::store::SessionInfoView| T::accepts(info),
            ),
    {
        let header = self.header;
        let enforce_csrf = self.enforce_csrf;
        match self.lookup.resume(reply) {
            Step::Finish(Err(error)) => Step::Finish(Err(Rejection::Storage(error))),
            Step::Finish(Ok(None)) => Step::Finish(Err(Rejection::SessionNotFound)),
            Step::Finish(Ok(Some(session))) => match T::from_base(session) {
                None => Step::Finish(Err(Rejection::SessionNotFound)),
                Some(typed) => {
                    if enforce_csrf {
                        let expected = typed.csrf_token();
                        match check_csrf(&expected, &header) {
                            Ok(()) => Step::Finish(Ok(typed)),
                            Err(rejection) => Step::Finish(Err(rejection)),
                        }
                    } else {
                        Step::Finish(Ok(typed))
                    }
                },
            },
            Step::Send(lookup, command) => Step::Send(
                Admission { lookup, header, enforce_csrf },
                command,
            ),
        }
    }
}

/// Starts the admission of a request to a route that asks for a session of
/// type `T` and for the session's CSRF token in the header.
pub fn session_middleware<T: SessionTrait>(cookie: Option<&str>, header: HeaderValue) -> (step: Step<
    Admission,
    Command,
    Result<T, Rejection>,
>)
    ensures
        admission_view(step) == Admission::spec_begin(
            T::kind(),
            match cookie {
                Some(token) => Some(token@),
                None => None,
            },
            header@,
            true,
        ),
{
    Admission::begin::<T>(cookie, header, true)
}

/// Starts the admission of a request to a route that asks for a session of
/// type `T` and skips the CSRF check. Only for routes that change nothing.
pub fn session_middleware_no_csrf<T: SessionTrait>(cookie: Option<&str>) -> (step: Step<
    Admission,
    Command,
    Result<T, Rejection>,
>)
    ensures
        admission_view(step) == Admission::spec_begin(
            T::kind(),
            match cookie {
                Some(token) => Some(token@),
                None => None,
            },
            HeaderValueView::Missing,
            false,
        ),
{
    Admission::begin::<T>(cookie, HeaderValue::Missing, false)
}

} // verus!
