use vstd::prelude::*;
use sea_orm::DatabaseConnection;

verus! {

/// Stores the products of the inventory service.
#[derive(Clone)]
pub struct ProductRepository {
    pub db_pool: DatabaseConnection,
}

impl ProductRepository {
    /// A repository over the given pool.
    pub fn new(db_pool: DatabaseConnection) -> (repo: Self)
        ensures
            repo.db_pool == db_pool,
    {
        ProductRepository { db_pool }
    }
}

} // verus!
