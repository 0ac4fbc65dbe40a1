//! The repositories' data and the decisions they make on what the database
//! returns. The queries themselves run outside the library.

use vstd::prelude::*;

pub mod auth;
pub mod cart;
pub mod catalog;
pub mod inventory;
pub mod product;

verus! {

/// The pool of database connections a repository queries through; opaque.
#[verifier::external_type_specification]
#[verifier::external_body]
pub struct ExDatabaseConnection(sea_orm::DatabaseConnection);

/// `Clone` of a connection pool (sea-orm derives it): the copy shares the
/// pool. Nothing is stated of the copy; the pool is opaque here.
pub assume_specification[ <sea_orm::DatabaseConnection as Clone>::clone ](
    conn: &sea_orm::DatabaseConnection,
) -> sea_orm::DatabaseConnection;

} // verus!
