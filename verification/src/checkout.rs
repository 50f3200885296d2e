//! Paying for an order. No payment provider is wired in: a customer who may
//! pay for an order gets a token that asks for no payment, and the order is
//! confirmed at once.

use crate::access::{checkout_rule, may_checkout, STATUS_FORBIDDEN};
use crate::users::UserId;
use vstd::prelude::*;

verus! {

/// The primary key of a stored order: the 128 bits of its UUID.
#[derive(Clone, Copy, Debug, PartialEq, Eq, Structural, Hash)]
pub struct OrderId {
    pub value: u128,
}

/// Why a customer gets no token to pay for an order with.
#[derive(Clone, Copy, Debug, PartialEq, Eq, Structural)]
pub enum CheckoutTokenCreateError {
    /// There is no such order.
    OrderNonExistent { user_id: UserId, order_id: OrderId },
    /// The order is another customer's.
    Unauthorized { user_id: UserId, order_id: OrderId },
}

impl CheckoutTokenCreateError {
    /// The status code that answers the refused request: the same for an
    /// order that is another's as for one that does not exist, so that
    /// nobody learns which orders there are.
    pub fn status(self) -> (code: u16)
        ensures
            code == STATUS_FORBIDDEN,
    {
        STATUS_FORBIDDEN
    }
}

/// A customer's leave to pay for one of their orders.
#[derive(Debug)]
pub struct CheckoutToken {
    order_id: OrderId,
}

impl CheckoutToken {
    /// The order that the token is for, as a specification.
    pub closed spec fn spec_order_id(&self) -> OrderId {
        self.order_id
    }

    /// Gives a customer the token for an order, whose owner is given where
    /// the order exists. Only the owner gets one.
    pub fn create(user_id: UserId, order_id: OrderId, owner: Option<UserId>) -> (token: Result<
        CheckoutToken,
        CheckoutTokenCreateError,
    >)
        ensures
            match token {
                Ok(given) => owner == Some(user_id) && given.spec_order_id() == order_id,
                Err(error) => error == (match owner {
                    None => CheckoutTokenCreateError::OrderNonExistent { user_id, order_id },
                    Some(_) => CheckoutTokenCreateError::Unauthorized { user_id, order_id },
                }) && owner != Some(user_id),
            },
            token is Ok == (checkout_rule(user_id, owner) is Ok),
    {
        match owner {
            None => Err(CheckoutTokenCreateError::OrderNonExistent { user_id, order_id }),
            Some(_) => match may_checkout(user_id, owner) {
                Ok(()) => Ok(CheckoutToken { order_id }),
                Err(_) => Err(CheckoutTokenCreateError::Unauthorized { user_id, order_id }),
            },
        }
    }

    /// The order that the token is for.
    pub fn order_id(&self) -> (order_id: OrderId)
        ensures
            order_id == self.spec_order_id(),
    {
        self.order_id
    }

    /// The secret with which the customer's browser talks to the payment
    /// provider: none, there being no provider.
    pub fn client_secret(&self) -> (secret: Option<String>)
        ensures
            secret is None,
    {
        None
    }

    /// Whether a payment is owed before the order is confirmed: none is.
    pub fn payment_required(&self) -> (required: bool)
        ensures
            !required,
    {
        false
    }
}

} // verus!
