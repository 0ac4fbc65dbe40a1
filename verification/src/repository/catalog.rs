use vstd::prelude::*;
use sea_orm::DatabaseConnection;
use crate::error::DbError;

verus! {

/// Stores and finds products for the services built on the shared library.
pub struct ProductRepository {
    pub db_pool: DatabaseConnection,
}

impl ProductRepository {
    /// A repository over the given pool.
    pub fn new(db_pool: DatabaseConnection) -> (repo: Self)
        ensures
            repo.db_pool == db_pool,
    {
        ProductRepository { db_pool }
    }
}

/// The text of the failure when a product is asked for an id with no
/// product.
pub open spec fn product_missing_detail() -> Seq<char> {
    "Product not found in DB"@
}

/// The outcome of a product lookup: the product found, or a custom failure.
pub fn product_outcome<M>(found: Option<M>) -> (res: Result<M, DbError>)
    ensures
        match found {
            Some(m) => res matches Ok(r) && r == m,
            None => res matches Err(DbError::Custom(d)) && d@ == product_missing_detail(),
        },
{
    match found {
        Some(m) => Ok(m),
        None => Err(DbError::Custom(String::from_str("Product not found in DB"))),
    }
}

} // verus!
