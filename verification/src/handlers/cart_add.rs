use vstd::prelude::*;
use crate::auth_token::Claims;
use crate::dto::AddCartProductData;
use crate::error::{answer_of, ApiError, ApiErrorView, DbError, Error};
use crate::error::PayloadView;
use crate::handlers::{answer_view, product_added, product_added_reply, reject_invalid, rejection, Reply, ReplyView};
use crate::validation::Validate;

verus! {

/// Where putting a product into a cart stands.
#[derive(Debug, Clone, Copy, PartialEq, Eq)]
pub enum AddToCartStage {
    AwaitingProduct,
    AwaitingCartCheck,
    AwaitingInsert,
    Finished,
}

/// Putting a product into the caller's cart: look the product up, then (for
/// the cart service, `checks_cart`) refuse a product already in the cart,
/// then insert the cart row.
#[derive(Debug, Clone, Copy)]
pub struct AddToCartFlow {
    pub user_id: i32,
    pub product_id: i32,
    pub checks_cart: bool,
    pub stage: AddToCartStage,
}

/// The next thing the flow needs.
#[derive(Debug)]
pub enum AddToCartStep {
    FetchProduct { product_id: i32 },
    CheckCart { user_id: i32, product_id: i32 },
    AddToCart { user_id: i32, product_id: i32 },
    Respond { reply: Result<Reply, ApiError> },
}

/// The abstract form of an [`AddToCartStep`].
pub enum AddToCartStepView {
    FetchProduct { product_id: i32 },
    CheckCart { user_id: i32, product_id: i32 },
    AddToCart { user_id: i32, product_id: i32 },
    Respond { reply: Result<ReplyView, ApiErrorView> },
}

impl View for AddToCartStep {
    type V = AddToCartStepView;

    open spec fn view(&self) -> AddToCartStepView {
        match self {
            AddToCartStep::FetchProduct { product_id } => AddToCartStepView::FetchProduct { product_id: *product_id },
            AddToCartStep::CheckCart { user_id, product_id } => AddToCartStepView::CheckCart {
                user_id: *user_id,
                product_id: *product_id,
            },
            AddToCartStep::AddToCart { user_id, product_id } => AddToCartStepView::AddToCart {
                user_id: *user_id,
                product_id: *product_id,
            },
            AddToCartStep::Respond { reply } => AddToCartStepView::Respond { reply: answer_view(*reply) },
        }
    }
}

/// The flow starts by checking the payload, then looks the product up.
pub open spec fn add_to_cart_begin(input: AddCartProductData, user_id: i32, checks_cart: bool) -> (AddToCartFlow, AddToCartStepView) {
    match rejection(input.failures()) {
        Some(e) => (
            AddToCartFlow { user_id, product_id: input.product_id, checks_cart, stage: AddToCartStage::Finished },
            AddToCartStepView::Respond { reply: Err(e) },
        ),
        None => (
            AddToCartFlow { user_id, product_id: input.product_id, checks_cart, stage: AddToCartStage::AwaitingProduct },
            AddToCartStepView::FetchProduct { product_id: input.product_id },
        ),
    }
}

/// The start of the combined service's flow, which does not check the cart.
pub open spec fn add_to_cart_start(input: AddCartProductData, user_id: i32) -> (AddToCartFlow, AddToCartStepView) {
    add_to_cart_begin(input, user_id, false)
}

/// After the lookup: an unknown product ends the flow with the
/// product-details error; a known one is checked against the cart when the
/// flow checks it, else gets its cart row.
pub open spec fn add_to_cart_after_lookup(flow: AddToCartFlow, found: bool) -> (AddToCartFlow, AddToCartStepView) {
    if found && flow.checks_cart {
        (
            AddToCartFlow { stage: AddToCartStage::AwaitingCartCheck, ..flow },
            AddToCartStepView::CheckCart { user_id: flow.user_id, product_id: flow.product_id },
        )
    } else if found {
        (
            AddToCartFlow { stage: AddToCartStage::AwaitingInsert, ..flow },
            AddToCartStepView::AddToCart { user_id: flow.user_id, product_id: flow.product_id },
        )
    } else {
        (
            AddToCartFlow { stage: AddToCartStage::Finished, ..flow },
            AddToCartStepView::Respond { reply: Err(answer_of(Error::GetProductDetailsError)) },
        )
    }
}

/// The answer when the cart check fails: the database failure.
pub open spec fn cart_check_failed(e: DbError) -> ApiErrorView {
    answer_of(Error::DbError(e))
}

/// After the cart check: a product already in the cart ends the flow with
/// 500 "Product is already in cart" and no insert; a failed check with the
/// database failure; otherwise the row is inserted.
pub open spec fn add_to_cart_after_check(flow: AddToCartFlow, checked: Result<bool, DbError>) -> (AddToCartFlow, AddToCartStepView) {
    match checked {
        Ok(false) => (
            AddToCartFlow { stage: AddToCartStage::AwaitingInsert, ..flow },
            AddToCartStepView::AddToCart { user_id: flow.user_id, product_id: flow.product_id },
        ),
        Ok(true) => (
            AddToCartFlow { stage: AddToCartStage::Finished, ..flow },
            AddToCartStepView::Respond { reply: Err(answer_of(Error::ProductAlreadyInCart)) },
        ),
        Err(e) => (
            AddToCartFlow { stage: AddToCartStage::Finished, ..flow },
            AddToCartStepView::Respond { reply: Err(cart_check_failed(e)) },
        ),
    }
}

/// After the insert: 201 when the row went in, else the cart error.
pub open spec fn add_to_cart_after_insert(flow: AddToCartFlow, inserted: bool) -> (AddToCartFlow, AddToCartStepView) {
    (
        AddToCartFlow { stage: AddToCartStage::Finished, ..flow },
        AddToCartStepView::Respond {
            reply: if inserted { Ok(product_added()) } else { Err(answer_of(Error::AddProductToCartError)) },
        },
    )
}

impl AddToCartFlow {
    fn begin(input: &AddCartProductData, claims: &Claims, checks_cart: bool) -> (res: (AddToCartFlow, AddToCartStep))
        ensures
            (res.0, res.1@) == add_to_cart_begin(*input, claims.user_id, checks_cart),
            res.0.user_id == claims.user_id,
            res.0.product_id == input.product_id,
            input.failures().len() == 0 ==> (res.1 matches AddToCartStep::FetchProduct { product_id }
                && product_id == input.product_id),
    {
        let user_id = claims.user_id;
        let product_id = input.product_id;
        match reject_invalid(input) {
            Some(e) => (
                AddToCartFlow { user_id, product_id, checks_cart, stage: AddToCartStage::Finished },
                AddToCartStep::Respond { reply: Err(e) },
            ),
            None => (
                AddToCartFlow { user_id, product_id, checks_cart, stage: AddToCartStage::AwaitingProduct },
                AddToCartStep::FetchProduct { product_id },
            ),
        }
    }

    /// Starts putting the requested product into the token holder's cart,
    /// as the combined service does: without checking the cart.
    pub fn start(input: &AddCartProductData, claims: &Claims) -> (res: (AddToCartFlow, AddToCartStep))
        ensures
            (res.0, res.1@) == add_to_cart_start(*input, claims.user_id),
            res.0.user_id == claims.user_id,
            res.0.product_id == input.product_id,
            input.failures().len() == 0 ==> (res.1 matches AddToCartStep::FetchProduct { product_id }
                && product_id == input.product_id),
    {
        AddToCartFlow::begin(input, claims, false)
    }

    /// Starts putting the requested product into the token holder's cart,
    /// as the cart service does: a product already in the cart is refused.
    pub fn start_with_cart_check(input: &AddCartProductData, claims: &Claims) -> (res: (AddToCartFlow, AddToCartStep))
        ensures
            (res.0, res.1@) == add_to_cart_begin(*input, claims.user_id, true),
            res.0.user_id == claims.user_id,
            res.0.product_id == input.product_id,
            input.failures().len() == 0 ==> (res.1 matches AddToCartStep::FetchProduct { product_id }
                && product_id == input.product_id),
    {
        AddToCartFlow::begin(input, claims, true)
    }

    /// Takes whether the product lookup found the product.
    pub fn on_product(self, found: bool) -> (res: (AddToCartFlow, AddToCartStep))
        requires
            self.stage == AddToCartStage::AwaitingProduct,
        ensures
            (res.0, res.1@) == add_to_cart_after_lookup(self, found),
    {
        if found && self.checks_cart {
            (
                AddToCartFlow { stage: AddToCartStage::AwaitingCartCheck, ..self },
                AddToCartStep::CheckCart { user_id: self.user_id, product_id: self.product_id },
            )
        } else if found {
            (
                AddToCartFlow { stage: AddToCartStage::AwaitingInsert, ..self },
                AddToCartStep::AddToCart { user_id: self.user_id, product_id: self.product_id },
            )
        } else {
            (
                AddToCartFlow { stage: AddToCartStage::Finished, ..self },
                AddToCartStep::Respond { reply: Err(ApiError::from(Error::GetProductDetailsError)) },
            )
        }
    }

    /// Takes whether the caller's cart already holds the product, or the
    /// failure of that lookup.
    pub fn on_cart_checked(self, checked: Result<bool, DbError>) -> (res: (AddToCartFlow, AddToCartStep))
        requires
            self.stage == AddToCartStage::AwaitingCartCheck,
        ensures
            (res.0, res.1@) == add_to_cart_after_check(self, checked),
            checked == Ok::<bool, DbError>(true) ==> (res.1 matches AddToCartStep::Respond { reply: Err(e) }
                && e.status == 500 && e.payload@ == PayloadView::Message("Product is already in cart"@)),
    {
        match checked {
            Ok(false) => (
                AddToCartFlow { stage: AddToCartStage::AwaitingInsert, ..self },
                AddToCartStep::AddToCart { user_id: self.user_id, product_id: self.product_id },
            ),
            Ok(true) => (
                AddToCartFlow { stage: AddToCartStage::Finished, ..self },
                AddToCartStep::Respond { reply: Err(ApiError::from(Error::ProductAlreadyInCart)) },
            ),
            Err(e) => (
                AddToCartFlow { stage: AddToCartStage::Finished, ..self },
                AddToCartStep::Respond { reply: Err(ApiError::from(Error::DbError(e))) },
            ),
        }
    }

    /// Takes the outcome of inserting the cart row.
    pub fn on_inserted<E>(self, inserted: Result<(), E>) -> (res: (AddToCartFlow, AddToCartStep))
        requires
            self.stage == AddToCartStage::AwaitingInsert,
        ensures
            (res.0, res.1@) == add_to_cart_after_insert(self, inserted is Ok),
    {
        let reply = match inserted {
            Ok(_) => Ok(product_added_reply()),
            Err(_) => Err(ApiError::from(Error::AddProductToCartError)),
        };
        (AddToCartFlow { stage: AddToCartStage::Finished, ..self }, AddToCartStep::Respond { reply })
    }
}

/// The answer the flow ends with, given whether the product was found and
/// whether its cart row went in.
pub open spec fn add_to_cart_outcome(input: AddCartProductData, user_id: i32, found: bool, inserted: bool) -> Result<ReplyView, ApiErrorView> {
    let (f1, s1) = add_to_cart_start(input, user_id);
    match s1 {
        AddToCartStepView::Respond { reply } => reply,
        _ => {
            let (f2, s2) = add_to_cart_after_lookup(f1, found);
            match s2 {
                AddToCartStepView::Respond { reply } => reply,
                _ => match add_to_cart_after_insert(f2, inserted).1 {
                    AddToCartStepView::Respond { reply } => reply,
                    _ => Err(answer_of(Error::AddProductToCartError)),
                },
            }
        },
    }
}

/// Putting a product into a cart answers 201 "product added successfully"
/// exactly when the product was found and its row inserted; an unknown
/// product is answered with the product-details error and never inserted;
/// a failed insert with the cart error. The row inserted is the caller's,
/// for the requested product.
pub proof fn lemma_add_to_cart_outcome(input: AddCartProductData, user_id: i32, found: bool, inserted: bool)
    ensures
        (add_to_cart_outcome(input, user_id, found, inserted) is Ok) <==> (found && inserted),
        found && inserted ==> add_to_cart_outcome(input, user_id, found, inserted) == Ok::<ReplyView, ApiErrorView>(product_added()),
        !found ==> add_to_cart_outcome(input, user_id, found, inserted) == Err::<ReplyView, ApiErrorView>(answer_of(Error::GetProductDetailsError)),
        found && !inserted ==> add_to_cart_outcome(input, user_id, found, inserted) == Err::<ReplyView, ApiErrorView>(answer_of(Error::AddProductToCartError)),
        !found ==> add_to_cart_after_lookup(add_to_cart_start(input, user_id).0, found).1 is Respond,
        found ==> add_to_cart_after_lookup(add_to_cart_start(input, user_id).0, found).1 == (AddToCartStepView::AddToCart {
            user_id,
            product_id: input.product_id,
        }),
{
}

/// The answer the cart service's flow ends with, given whether the product
/// was found, the outcome of the cart check and whether the row went in.
pub open spec fn cart_service_add_outcome(
    input: AddCartProductData,
    user_id: i32,
    found: bool,
    checked: Result<bool, DbError>,
    inserted: bool,
) -> Result<ReplyView, ApiErrorView> {
    let (f1, s1) = add_to_cart_begin(input, user_id, true);
    match s1 {
        AddToCartStepView::Respond { reply } => reply,
        _ => {
            let (f2, s2) = add_to_cart_after_lookup(f1, found);
            match s2 {
                AddToCartStepView::Respond { reply } => reply,
                _ => {
                    let (f3, s3) = add_to_cart_after_check(f2, checked);
                    match s3 {
                        AddToCartStepView::Respond { reply } => reply,
                        _ => match add_to_cart_after_insert(f3, inserted).1 {
                            AddToCartStepView::Respond { reply } => reply,
                            _ => Err(answer_of(Error::AddProductToCartError)),
                        },
                    }
                },
            }
        },
    }
}

/// The cart service refuses a product already in the caller's cart: once the
/// product is found the flow checks the caller's cart for it; when the cart
/// holds it, the answer is 500 "Product is already in cart" and no insert
/// follows. The answer is 201 exactly when the product was found, the cart
/// did not hold it and its row went in.
pub proof fn lemma_cart_service_refuses_product_in_cart(
    input: AddCartProductData,
    user_id: i32,
    found: bool,
    checked: Result<bool, DbError>,
    inserted: bool,
)
    ensures
        found ==> add_to_cart_after_lookup(add_to_cart_begin(input, user_id, true).0, found).1 == (AddToCartStepView::CheckCart {
            user_id,
            product_id: input.product_id,
        }),
        add_to_cart_after_check(add_to_cart_after_lookup(add_to_cart_begin(input, user_id, true).0, true).0, Ok(true)).1
            == (AddToCartStepView::Respond { reply: Err(answer_of(Error::ProductAlreadyInCart)) }),
        found && checked == Ok::<bool, DbError>(true) ==> cart_service_add_outcome(input, user_id, found, checked, inserted)
            == Err::<ReplyView, ApiErrorView>(answer_of(Error::ProductAlreadyInCart)),
        answer_of(Error::ProductAlreadyInCart).status == 500,
        answer_of(Error::ProductAlreadyInCart).payload == PayloadView::Message("Product is already in cart"@),
        (cart_service_add_outcome(input, user_id, found, checked, inserted) is Ok) <==> (found && checked == Ok::<bool, DbError>(false) && inserted),
        found && checked == Ok::<bool, DbError>(false) && inserted ==> cart_service_add_outcome(input, user_id, found, checked, inserted)
            == Ok::<ReplyView, ApiErrorView>(product_added()),
        !found ==> cart_service_add_outcome(input, user_id, found, checked, inserted)
            == Err::<ReplyView, ApiErrorView>(answer_of(Error::GetProductDetailsError)),
{
}

/// Adding to a cart works on the request's product and the caller's cart:
/// a valid request first looks up exactly the requested product; a found
/// product is then checked against (cart service) or inserted into the
/// caller's cart, for that same product; a product the cart does not hold is
/// inserted for the caller and that product. A payload that breaks its rules
/// is answered at once, with nothing looked up.
pub proof fn lemma_add_to_cart_works_on_requested_product(
    input: AddCartProductData,
    user_id: i32,
    checks_cart: bool,
)
    ensures
        input.failures().len() == 0 ==> add_to_cart_begin(input, user_id, checks_cart).1
            == (AddToCartStepView::FetchProduct { product_id: input.product_id }),
        input.failures().len() != 0 ==> add_to_cart_begin(input, user_id, checks_cart).1 is Respond,
        add_to_cart_begin(input, user_id, checks_cart).0.user_id == user_id,
        add_to_cart_begin(input, user_id, checks_cart).0.product_id == input.product_id,
        ({
            let after = add_to_cart_after_lookup(add_to_cart_begin(input, user_id, checks_cart).0, true).1;
            if checks_cart {
                after == (AddToCartStepView::CheckCart { user_id, product_id: input.product_id })
            } else {
                after == (AddToCartStepView::AddToCart { user_id, product_id: input.product_id })
            }
        }),
        add_to_cart_after_check(
            add_to_cart_after_lookup(add_to_cart_begin(input, user_id, true).0, true).0,
            Ok(false),
        ).1 == (AddToCartStepView::AddToCart { user_id, product_id: input.product_id }),
{
}

} // verus!
