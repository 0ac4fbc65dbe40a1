use vstd::prelude::*;
use crate::auth_token::Claims;
use crate::error::{answer_of, ApiError, ApiErrorView, DbError, Error};
use crate::events::{CreateOrderEvent, EventView};
use crate::handlers::{answer_view, db_text, Reply, ReplyView};

verus! {

/// Where a checkout stands.
#[derive(Debug, Clone, Copy, PartialEq, Eq)]
pub enum CheckoutStage {
    AwaitingLock,
    AwaitingPublish,
    Finished,
}

/// A checkout of the caller's cart: lock the open cart rows under a new
/// order request, then publish the order event.
#[derive(Debug, Clone, Copy)]
pub struct CheckoutFlow {
    pub user_id: i32,
    pub stage: CheckoutStage,
}

/// The next thing a checkout needs.
#[derive(Debug)]
pub enum CheckoutStep {
    LockCartItems { user_id: i32 },
    PublishEvent { event: CreateOrderEvent },
    Respond { reply: Result<Reply, ApiError> },
}

/// The abstract form of a [`CheckoutStep`].
pub enum CheckoutStepView {
    LockCartItems { user_id: i32 },
    PublishEvent { event: EventView },
    Respond { reply: Result<ReplyView, ApiErrorView> },
}

impl View for CheckoutStep {
    type V = CheckoutStepView;

    open spec fn view(&self) -> CheckoutStepView {
        match self {
            CheckoutStep::LockCartItems { user_id } => CheckoutStepView::LockCartItems { user_id: *user_id },
            CheckoutStep::PublishEvent { event } => CheckoutStepView::PublishEvent { event: event@ },
            CheckoutStep::Respond { reply } => CheckoutStepView::Respond { reply: answer_view(*reply) },
        }
    }
}

/// The answer "Checkout successfull" with the status 200.
pub open spec fn checkout_done() -> ReplyView {
    ReplyView { status: 200, body: "Checkout successfull"@ }
}

/// A checkout starts by locking the caller's cart.
pub open spec fn checkout_start(user_id: i32) -> (CheckoutFlow, CheckoutStepView) {
    (
        CheckoutFlow { user_id, stage: CheckoutStage::AwaitingLock },
        CheckoutStepView::LockCartItems { user_id },
    )
}

/// After the lock: a failure ends the checkout with the locking error; an
/// order request id goes out in the order event.
pub open spec fn checkout_after_lock(flow: CheckoutFlow, locked: Option<Seq<char>>) -> (CheckoutFlow, CheckoutStepView) {
    match locked {
        None => (
            CheckoutFlow { stage: CheckoutStage::Finished, ..flow },
            CheckoutStepView::Respond { reply: Err(answer_of(Error::LockProductsInCartError)) },
        ),
        Some(id) => (
            CheckoutFlow { stage: CheckoutStage::AwaitingPublish, ..flow },
            CheckoutStepView::PublishEvent { event: EventView { user_id: flow.user_id, order_request_id: id } },
        ),
    }
}

/// After the publication: the checkout ends, successfully when the event
/// went out.
pub open spec fn checkout_after_publish(flow: CheckoutFlow, published: bool) -> (CheckoutFlow, CheckoutStepView) {
    (
        CheckoutFlow { stage: CheckoutStage::Finished, ..flow },
        CheckoutStepView::Respond {
            reply: if published { Ok(checkout_done()) } else { Err(answer_of(Error::PublishError)) },
        },
    )
}

impl CheckoutFlow {
    /// Starts the checkout of the token holder's cart.
    pub fn start(claims: &Claims) -> (res: (CheckoutFlow, CheckoutStep))
        ensures
            (res.0, res.1@) == checkout_start(claims.user_id),
    {
        let user_id = claims.user_id;
        (
            CheckoutFlow { user_id, stage: CheckoutStage::AwaitingLock },
            CheckoutStep::LockCartItems { user_id },
        )
    }

    /// Takes the outcome of locking the cart: the order request id, or a
    /// database failure.
    pub fn on_locked(self, locked: Result<String, DbError>) -> (res: (CheckoutFlow, CheckoutStep))
        requires
            self.stage == CheckoutStage::AwaitingLock,
        ensures
            (res.0, res.1@) == checkout_after_lock(self, db_text(locked)),
    {
        match locked {
            Err(_) => (
                CheckoutFlow { stage: CheckoutStage::Finished, ..self },
                CheckoutStep::Respond { reply: Err(ApiError::from(Error::LockProductsInCartError)) },
            ),
            Ok(order_request_id) => (
                CheckoutFlow { stage: CheckoutStage::AwaitingPublish, ..self },
                CheckoutStep::PublishEvent {
                    event: CreateOrderEvent { user_id: self.user_id, order_request_id },
                },
            ),
        }
    }

    /// Takes the outcome of publishing the order event.
    pub fn on_published<E>(self, published: Result<(), E>) -> (res: (CheckoutFlow, CheckoutStep))
        requires
            self.stage == CheckoutStage::AwaitingPublish,
        ensures
            (res.0, res.1@) == checkout_after_publish(self, published is Ok),
    {
        let reply = match published {
            Ok(_) => Ok(Reply { status: 200, body: String::from_str("Checkout successfull") }),
            Err(_) => Err(ApiError::from(Error::PublishError)),
        };
        (CheckoutFlow { stage: CheckoutStage::Finished, ..self }, CheckoutStep::Respond { reply })
    }
}

/// The answer a checkout ends with, given whether the lock gave an order
/// request id and whether the publication succeeded.
pub open spec fn checkout_outcome(user_id: i32, locked: Option<Seq<char>>, published: bool) -> Result<ReplyView, ApiErrorView> {
    let (flow, _) = checkout_start(user_id);
    let (flow2, step2) = checkout_after_lock(flow, locked);
    match step2 {
        CheckoutStepView::Respond { reply } => reply,
        _ => match checkout_after_publish(flow2, published).1 {
            CheckoutStepView::Respond { reply } => reply,
            _ => Err(answer_of(Error::PublishError)),
        },
    }
}

/// A checkout answers 200 "Checkout successfull" exactly when the cart was
/// locked and the order event went out; a failed lock is answered with the
/// locking error, a failed publication with the publishing error.
pub proof fn lemma_checkout_outcome(user_id: i32, locked: Option<Seq<char>>, published: bool)
    ensures
        (checkout_outcome(user_id, locked, published) is Ok) <==> (locked is Some && published),
        locked is Some && published ==> checkout_outcome(user_id, locked, published) == Ok::<ReplyView, ApiErrorView>(checkout_done()),
        locked is None ==> checkout_outcome(user_id, locked, published) == Err::<ReplyView, ApiErrorView>(answer_of(Error::LockProductsInCartError)),
        locked is Some && !published ==> checkout_outcome(user_id, locked, published) == Err::<ReplyView, ApiErrorView>(answer_of(Error::PublishError)),
{
}

/// The order event of a checkout is published only after the cart was
/// locked, and carries the caller's user id and the order request id the
/// lock returned.
pub proof fn lemma_checkout_publishes_locked_order(user_id: i32, locked: Option<Seq<char>>)
    ensures
        checkout_start(user_id).1 == (CheckoutStepView::LockCartItems { user_id }),
        match locked {
            Some(id) => checkout_after_lock(checkout_start(user_id).0, locked).1 == (CheckoutStepView::PublishEvent {
                event: EventView { user_id, order_request_id: id },
            }),
            None => checkout_after_lock(checkout_start(user_id).0, locked).1 is Respond,
        },
{
}

} // verus!
