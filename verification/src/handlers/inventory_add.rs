use vstd::prelude::*;
use crate::error::{answer_of, ApiError, ApiErrorView, Error};
use crate::handlers::{answer_view, product_added, product_added_reply, Reply, ReplyView};

verus! {

/// Where adding a product to the inventory stands.
#[derive(Debug, Clone, Copy, PartialEq, Eq)]
pub enum InventoryAddStage {
    AwaitingInsert,
    Finished,
}

/// Adding a product to the inventory: its payload has no rules, so the flow
/// goes straight to inserting the product.
#[derive(Debug, Clone, Copy)]
pub struct InventoryAddFlow {
    pub stage: InventoryAddStage,
}

/// The next thing the flow needs.
#[derive(Debug)]
pub enum InventoryAddStep {
    AddProduct,
    Respond { reply: Result<Reply, ApiError> },
}

/// The abstract form of an [`InventoryAddStep`].
pub enum InventoryAddStepView {
    AddProduct,
    Respond { reply: Result<ReplyView, ApiErrorView> },
}

impl View for InventoryAddStep {
    type V = InventoryAddStepView;

    open spec fn view(&self) -> InventoryAddStepView {
        match self {
            InventoryAddStep::AddProduct => InventoryAddStepView::AddProduct,
            InventoryAddStep::Respond { reply } => InventoryAddStepView::Respond { reply: answer_view(*reply) },
        }
    }
}

/// The answer after the insert: 201 when the product went in, else the
/// inventory error.
pub open spec fn inventory_add_outcome(inserted: bool) -> Result<ReplyView, ApiErrorView> {
    if inserted {
        Ok(product_added())
    } else {
        Err(answer_of(Error::AddProductError))
    }
}

impl InventoryAddFlow {
    /// Starts adding a product: insert it.
    pub fn start() -> (res: (InventoryAddFlow, InventoryAddStep))
        ensures
            res.0.stage == InventoryAddStage::AwaitingInsert,
            res.1@ is AddProduct,
    {
        (InventoryAddFlow { stage: InventoryAddStage::AwaitingInsert }, InventoryAddStep::AddProduct)
    }

    /// Takes the outcome of inserting the product.
    pub fn on_inserted<E>(self, inserted: Result<(), E>) -> (res: (InventoryAddFlow, InventoryAddStep))
        requires
            self.stage == InventoryAddStage::AwaitingInsert,
        ensures
            res.0.stage == InventoryAddStage::Finished,
            res.1@ == (InventoryAddStepView::Respond { reply: inventory_add_outcome(inserted is Ok) }),
    {
        let reply = match inserted {
            Ok(_) => Ok(product_added_reply()),
            Err(_) => Err(ApiError::from(Error::AddProductError)),
        };
        (InventoryAddFlow { stage: InventoryAddStage::Finished }, InventoryAddStep::Respond { reply })
    }
}

} // verus!
