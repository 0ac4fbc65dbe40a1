use vstd::prelude::*;
use crate::dto::GetProductDetailsResponse;

verus! {

/// A product as other services know it.
#[derive(Debug, Clone, Default)]
pub struct Product {
    pub id: i64,
    pub name: String,
}

/// A client of the product service.
pub trait TClient {
    /// The details of a product, or `None` when the service has none.
    fn get_product_details(&self, product_id: i32) -> Option<GetProductDetailsResponse>;
}

/// The product service client used by the cart service; it reports every
/// asked product with the name "x".
#[derive(Debug, Clone, Copy)]
pub struct ApiClient {}

/// The client the cart service talks to the product service with.
pub fn get_clients() -> (client: ApiClient) {
    ApiClient {}
}

impl TClient for ApiClient {
    fn get_product_details(&self, product_id: i32) -> (res: Option<GetProductDetailsResponse>)
        ensures
            res matches Some(d) && d.product_id == product_id && d.name@ == "x"@,
    {
        Some(GetProductDetailsResponse { product_id, name: String::from_str("x") })
    }
}

} // verus!
