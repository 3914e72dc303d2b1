use vstd::prelude::*;

verus! {

/// What a caller sends to place an order.
#[derive(Debug, Clone)]
pub struct CreateOrderDto {
    /// The identifiers of the ordered products, as texts.
    pub products_id: Vec<String>,
    pub total_price: u32,
}

/// What a caller sends to change an order. A field that is absent stays
/// as it is.
#[derive(Debug, Clone)]
pub struct UpdateOrderDto {
    pub _id: String,
    pub products_id: Option<Vec<String>>,
    pub total_price: Option<u32>,
}

} // verus!
