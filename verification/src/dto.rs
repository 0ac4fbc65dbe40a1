use vstd::prelude::*;
use crate::validation::{
    check_email, check_length, email_rule, finish, length_rule, FieldError, FieldErrorView, Validate,
    ValidationErrors,
};

verus! {

/// Credentials of a login request; `email` must be an e-mail address.
#[derive(Debug, Clone)]
pub struct LoginInput {
    pub email: String,
    pub password: String,
}

/// The token handed back after a login or a signup.
#[derive(Debug, Clone)]
pub struct TokenPayload {
    pub access_token: String,
    pub token_type: String,
}

/// A signup request; `email` must be an e-mail address and `password` at
/// least six chars long.
#[derive(Debug, Clone)]
pub struct RegisterInput {
    pub email: String,
    pub password: String,
    pub address: String,
    pub phone: String,
}

/// A request to put a product into the caller's cart.
#[derive(Debug, Clone, Copy)]
pub struct AddCartProductData {
    pub product_id: i32,
}

/// What the product service tells about one product.
#[derive(Debug, Clone)]
pub struct GetProductDetailsResponse {
    pub product_id: i32,
    pub name: String,
}

/// The least number of chars of a signup password.
pub const MIN_PASSWORD_LEN: u64 = 6;

impl Validate for LoginInput {
    open spec fn failures(&self) -> Seq<FieldErrorView> {
        email_rule("email"@, self.email@)
    }

    fn validate(&self) -> (res: Result<(), ValidationErrors>) {
        let mut errors: Vec<FieldError> = Vec::new();
        check_email("email", &self.email, &mut errors);
        assert(errors@.map_values(|e: FieldError| e@) =~= email_rule("email"@, self.email@));
        finish(errors)
    }
}

impl Validate for RegisterInput {
    open spec fn failures(&self) -> Seq<FieldErrorView> {
        email_rule("email"@, self.email@) + length_rule("password"@, self.password@, MIN_PASSWORD_LEN)
    }

    fn validate(&self) -> (res: Result<(), ValidationErrors>) {
        let mut errors: Vec<FieldError> = Vec::new();
        check_email("email", &self.email, &mut errors);
        check_length("password", &self.password, MIN_PASSWORD_LEN, &mut errors);
        assert(errors@.map_values(|e: FieldError| e@) =~= email_rule("email"@, self.email@)
            + length_rule("password"@, self.password@, MIN_PASSWORD_LEN));
        finish(errors)
    }
}

impl Validate for AddCartProductData {
    open spec fn failures(&self) -> Seq<FieldErrorView> {
        Seq::empty()
    }

    fn validate(&self) -> (res: Result<(), ValidationErrors>) {
        Ok(())
    }
}

} // verus!
