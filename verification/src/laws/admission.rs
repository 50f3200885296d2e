//! What the admission of a request asks of its CSRF header.

use crate::admission::{admitted, RejectionView};
use crate::http::HeaderValueView;
use crate::sessions::BaseSessionView;
use vstd::prelude::*;

verus! {

/// CSRF enforcement. Where the check is on and the token resolves to a
/// session of the type asked for, the request is admitted exactly when its
/// header holds the session's CSRF token; a request with anything else for a
/// header, or with none, is turned away with `CsrfMismatch`.
pub proof fn law_csrf_enforcement(
    session: BaseSessionView,
    accepted: spec_fn(crate::store::SessionInfoView) -> bool,
    header: HeaderValueView,
)
    requires
        accepted(session.info),
    ensures
        admitted(Ok(Some(session)), accepted, header, true) is Ok <==> header
            == HeaderValueView::Text(session.info.csrf()),
        header != HeaderValueView::Text(session.info.csrf()) ==> admitted(
            Ok(Some(session)),
            accepted,
            header,
            true,
        ) == Err::<BaseSessionView, RejectionView>(RejectionView::CsrfMismatch),
        admitted(
            Ok(Some(session)),
            accepted,
            HeaderValueView::Text(session.info.csrf()),
            true,
        ) == Ok::<BaseSessionView, RejectionView>(session),
{
}

} // verus!
