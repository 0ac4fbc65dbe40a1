//! The decisions of the HTTP handlers. Each handler is a flow: it starts
//! from the request, names the outside work to do next (a query, a call to
//! another service, a publication), takes that work's outcome, and ends with
//! the answer. The services run the work and feed the outcomes back.

use vstd::prelude::*;
use crate::error::{ApiError, ApiErrorView, DbError, PayloadView};
use crate::validation::{validate_payload, FieldErrorView, Validate};


pub mod auth;
pub mod cart_add;
pub mod checkout;
pub mod inventory_add;

verus! {

/// A successful answer: an HTTP status and a text body.
#[derive(Debug, Clone)]
pub struct Reply {
    pub status: u16,
    pub body: String,
}

/// The abstract form of a [`Reply`].
pub struct ReplyView {
    pub status: u16,
    pub body: Seq<char>,
}

impl View for Reply {
    type V = ReplyView;

    open spec fn view(&self) -> ReplyView {
        ReplyView { status: self.status, body: self.body@ }
    }
}

/// The abstract form of a handler's answer.
pub open spec fn answer_view(r: Result<Reply, ApiError>) -> Result<ReplyView, ApiErrorView> {
    match r {
        Ok(reply) => Ok(reply@),
        Err(e) => Err(e@),
    }
}

/// Whether a database step succeeded, with the text it returned.
pub open spec fn db_text(r: Result<String, DbError>) -> Option<Seq<char>> {
    match r {
        Ok(s) => Some(s@),
        Err(_) => None,
    }
}

/// The answer "product added successfully" with the status 201.
pub open spec fn product_added() -> ReplyView {
    ReplyView { status: 201, body: "product added successfully"@ }
}

/// Builds the answer "product added successfully" with the status 201.
pub fn product_added_reply() -> (reply: Reply)
    ensures
        reply@ == product_added(),
{
    Reply { status: 201, body: String::from_str("product added successfully") }
}

/// The answer to a payload that breaks its rules: none when every rule
/// holds, else 400 with the failed rules.
pub open spec fn rejection(failures: Seq<FieldErrorView>) -> Option<ApiErrorView> {
    if failures.len() == 0 {
        None
    } else {
        Some(ApiErrorView { status: 400, payload: PayloadView::Fields(failures) })
    }
}

/// Checks a request payload: `None` when it is valid, else the 400 answer
/// with the failed rules.
pub fn reject_invalid<T: Validate>(payload: &T) -> (res: Option<ApiError>)
    ensures
        match res {
            None => rejection(payload.failures()) is None,
            Some(e) => rejection(payload.failures()) == Some(e@),
        },
{
    match validate_payload(payload) {
        Ok(_) => None,
        Err(e) => Some(ApiError::from(e)),
    }
}

} // verus!
