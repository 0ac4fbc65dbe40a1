use vstd::prelude::*;
use std::sync::Arc;
use sea_orm::DatabaseConnection;
use crate::error::DbError;

verus! {

/// Stores and finds the products of the inventory (shared pool).
#[derive(Clone)]
pub struct ProductRepository {
    pub db_pool: Arc<DatabaseConnection>,
}

/// The text of the failure when a product's details are asked for an id
/// with no product.
pub open spec fn product_missing_detail() -> Seq<char> {
    "Product not found"@
}

/// The outcome of a product-details lookup: the product found, or a query
/// failure.
pub fn details_outcome<M>(found: Option<M>) -> (res: Result<M, DbError>)
    ensures
        match found {
            Some(m) => res matches Ok(r) && r == m,
            None => res matches Err(DbError::Query(d)) && d@ == product_missing_detail(),
        },
{
    match found {
        Some(m) => Ok(m),
        None => Err(DbError::Query(String::from_str("Product not found"))),
    }
}

} // verus!
