//! Who may do what to whom: the rules by which the holder of a session is
//! let at orders and at other users' accounts.

use crate::sessions::{BaseSessionView, GenericAuthenticatedSession};
use crate::store::SessionInfoView;
use crate::users::{AppUserRole, UserId};
use vstd::prelude::*;

verus! {

/// 403 Forbidden.
pub const STATUS_FORBIDDEN: u16 = 403;

/// 404 Not Found.
pub const STATUS_NOT_FOUND: u16 = 404;

/// Why someone was not let at something.
#[derive(Clone, Copy, Debug, PartialEq, Eq, Structural)]
pub enum AccessDenied {
    /// There is no such thing, and the asker may know it.
    NotFound,
    /// The thing is not the asker's, or there is no such thing and the asker
    /// may not learn which.
    Forbidden,
    /// The last administrator cannot be deleted.
    SoleAdministrator,
    /// An administrator's account is not another administrator's to change.
    AnotherAdministrator,
}

impl AccessDenied {
    /// The status code that answers the refused request.
    pub fn status(self) -> (code: u16)
        ensures
            code == (if self == AccessDenied::NotFound {
                STATUS_NOT_FOUND
            } else {
                STATUS_FORBIDDEN
            }),
    {
        match self {
            AccessDenied::NotFound => STATUS_NOT_FOUND,
            _ => STATUS_FORBIDDEN,
        }
    }
}

/// The user and the role that a session stands for.
pub open spec fn holder(session: BaseSessionView) -> (UserId, bool) {
    match session.info {
        SessionInfoView::Authenticated { user_id, admin, .. } => (user_id, admin),
        SessionInfoView::PreAuthentication { user_id, .. } => (user_id, false),
        SessionInfoView::Registration { .. } => (UserId { value: 0 }, false),
    }
}

/// Whether the holder of a session may see an order, whose owner is given
/// where the order exists. An administrator may see every order and is told
/// where there is none. A customer may see their own orders only, and is told
/// the same of another's order as of none.
pub open spec fn order_view_rule(session: BaseSessionView, owner: Option<UserId>) -> Result<
    (),
    AccessDenied,
> {
    if holder(session).1 {
        match owner {
            Some(_) => Ok(()),
            None => Err(AccessDenied::NotFound),
        }
    } else {
        match owner {
            Some(owner) => if owner == holder(session).0 {
                Ok(())
            } else {
                Err(AccessDenied::Forbidden)
            },
            None => Err(AccessDenied::Forbidden),
        }
    }
}

/// Decides whether the holder of a session may see an order.
pub fn may_view_order(session: &GenericAuthenticatedSession, owner: Option<UserId>) -> (outcome:
    Result<(), AccessDenied>)
    ensures
        outcome == order_view_rule(session@, owner),
{
    if session.is_admin() {
        match owner {
            Some(_) => Ok(()),
            None => Err(AccessDenied::NotFound),
        }
    } else {
        match owner {
            Some(owner) => if owner.value == session.user_id().value {
                Ok(())
            } else {
                Err(AccessDenied::Forbidden)
            },
            None => Err(AccessDenied::Forbidden),
        }
    }
}

/// Whether the holder of a session may delete an order. An administrator may
/// try to delete any order; a customer may delete their own orders only, and
/// is told the same of another's order as of none.
pub open spec fn order_deletion_rule(session: BaseSessionView, owner: Option<UserId>) -> Result<
    (),
    AccessDenied,
> {
    if holder(session).1 {
        match owner {
            Some(_) => Ok(()),
            None => Err(AccessDenied::NotFound),
        }
    } else {
        order_view_rule(session, owner)
    }
}

/// Decides whether the holder of a session may delete an order.
pub fn may_delete_order(session: &GenericAuthenticatedSession, owner: Option<UserId>) -> (outcome:
    Result<(), AccessDenied>)
    ensures
        outcome == order_deletion_rule(session@, owner),
{
    may_view_order(session, owner)
}

/// The user to whose orders a search by the holder of a session is held: an
/// administrator searches where asked, a customer among their own orders.
pub fn order_search_scope(session: &GenericAuthenticatedSession, asked: Option<UserId>) -> (scope:
    Option<UserId>)
    ensures
        scope == (if holder(session@).1 {
            asked
        } else {
            Some(holder(session@).0)
        }),
{
    if session.is_admin() {
        asked
    } else {
        Some(session.user_id())
    }
}

/// Whether a customer may pay for an order. Only the owner may, and another's
/// order is told of as none is.
pub open spec fn checkout_rule(customer: UserId, owner: Option<UserId>) -> Result<
    (),
    AccessDenied,
> {
    match owner {
        Some(owner) => if owner == customer {
            Ok(())
        } else {
            Err(AccessDenied::Forbidden)
        },
        None => Err(AccessDenied::Forbidden),
    }
}

/// Decides whether a customer may pay for an order.
pub fn may_checkout(customer: UserId, owner: Option<UserId>) -> (outcome: Result<(), AccessDenied>)
    ensures
        outcome == checkout_rule(customer, owner),
{
    match owner {
        Some(owner) => if owner.value == customer.value {
            Ok(())
        } else {
            Err(AccessDenied::Forbidden)
        },
        None => Err(AccessDenied::Forbidden),
    }
}

/// Whether an administrator may delete a user's account, given the number of
/// administrators and the role of the user where the user exists. The last
/// administrator may not delete their own account; no administrator may
/// delete another's. The result says whether the deletion ends the
/// administrator's own session.
pub open spec fn user_deletion_rule(
    actor: UserId,
    target: UserId,
    administrators: nat,
    target_role: Option<AppUserRole>,
) -> Result<bool, AccessDenied> {
    if target == actor && administrators == 1 {
        Err(AccessDenied::SoleAdministrator)
    } else {
        match target_role {
            None => Err(AccessDenied::NotFound),
            Some(AppUserRole::Administrator) => Err(AccessDenied::AnotherAdministrator),
            Some(AppUserRole::Customer) => Ok(target == actor),
        }
    }
}

/// Decides whether an administrator may delete a user's account.
pub fn may_delete_user(
    actor: UserId,
    target: UserId,
    administrators: usize,
    target_role: Option<AppUserRole>,
) -> (outcome: Result<bool, AccessDenied>)
    ensures
        outcome == user_deletion_rule(actor, target, administrators as nat, target_role),
{
    let own = target.value == actor.value;
    if own && administrators == 1 {
        Err(AccessDenied::SoleAdministrator)
    } else {
        match target_role {
            None => Err(AccessDenied::NotFound),
            Some(AppUserRole::Administrator) => Err(AccessDenied::AnotherAdministrator),
            Some(AppUserRole::Customer) => Ok(own),
        }
    }
}

/// Decides whether the holder of a session may delete their own account:
/// anyone may, but for the last administrator.
pub fn may_delete_self(session: &GenericAuthenticatedSession, administrators: usize) -> (outcome:
    Result<(), AccessDenied>)
    ensures
        outcome == (if holder(session@).1 && administrators == 1 {
            Err::<(), AccessDenied>(AccessDenied::SoleAdministrator)
        } else {
            Ok::<(), AccessDenied>(())
        }),
{
    if session.is_admin() && administrators == 1 {
        Err(AccessDenied::SoleAdministrator)
    } else {
        Ok(())
    }
}

/// Whether an administrator may change a user's data, given the role of the
/// user where the user exists: their own and any customer's, no other
/// administrator's.
pub open spec fn user_update_rule(actor: UserId, target: UserId, target_role: Option<AppUserRole>)
    -> Result<(), AccessDenied> {
    match target_role {
        None => Err(AccessDenied::NotFound),
        Some(role) => if target != actor && role == AppUserRole::Administrator {
            Err(AccessDenied::AnotherAdministrator)
        } else {
            Ok(())
        },
    }
}

/// Decides whether an administrator may change a user's data.
pub fn may_update_user(actor: UserId, target: UserId, target_role: Option<AppUserRole>) -> (outcome:
    Result<(), AccessDenied>)
    ensures
        outcome == user_update_rule(actor, target, target_role),
{
    match target_role {
        None => Err(AccessDenied::NotFound),
        Some(role) => if target.value != actor.value && role.is_admin() {
            Err(AccessDenied::AnotherAdministrator)
        } else {
            Ok(())
        },
    }
}

} // verus!
