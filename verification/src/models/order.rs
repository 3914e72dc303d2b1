use vstd::prelude::*;

verus! {

/// An order: which products, for how much, and whose it is. The identifier
/// is the 128-bit number of a UUID.
#[derive(Debug, Clone)]
pub struct Order {
    pub _id: u128,
    /// The identifiers of the ordered products, as texts.
    pub products_id: Vec<String>,
    pub total_price: u32,
    /// The identifier of the user who placed the order, as a text.
    pub customer_id: String,
}

} // verus!
