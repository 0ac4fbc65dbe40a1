use vstd::prelude::*;
use sea_orm::DatabaseConnection;
use crate::error::DbError;
use crate::roles::{role_name, ROLES};

verus! {

/// Stores and finds user accounts.
#[derive(Clone)]
pub struct AuthRepository {
    pub db_pool: DatabaseConnection,
}

impl AuthRepository {
    /// A repository over the given pool.
    pub fn new(db_pool: DatabaseConnection) -> (repo: Self)
        ensures
            repo.db_pool == db_pool,
    {
        AuthRepository { db_pool }
    }
}

/// The row a signup inserts: the request's fields and the role of an
/// ordinary user.
#[derive(Debug, Clone)]
pub struct NewUser {
    pub email: String,
    pub password: String,
    pub address: String,
    pub phone: String,
    pub role: String,
}

impl NewUser {
    /// The account of a new user; every signup gets the `USER` role.
    pub fn new(email: String, password: String, address: String, phone: String) -> (user: NewUser)
        ensures
            user.email@ == email@,
            user.password@ == password@,
            user.address@ == address@,
            user.phone@ == phone@,
            user.role@ == role_name(ROLES::USER),
    {
        NewUser { email, password, address, phone, role: ROLES::USER.to_string() }
    }
}

/// The text of the failure when no account matches a login.
pub open spec fn user_not_found_detail() -> Seq<char> {
    "Cannot fund User"@
}

/// The outcome of a login lookup: the account found, or a custom failure.
pub fn signin_outcome<M>(found: Option<M>) -> (res: Result<M, DbError>)
    ensures
        match found {
            Some(m) => res matches Ok(r) && r == m,
            None => res matches Err(DbError::Custom(d)) && d@ == user_not_found_detail(),
        },
{
    match found {
        Some(m) => Ok(m),
        None => Err(DbError::Custom(String::from_str("Cannot fund User"))),
    }
}

} // verus!
