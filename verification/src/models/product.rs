use vstd::prelude::*;

verus! {

/// The highest discount, in percent.
pub const MAX_DISCOUNT: u8 = 100;

/// The highest category number. Category 0 is helmets, category 1 bikes.
pub const MAX_CATEGORY: u8 = 1;

/// A product of the shop. The identifier is the 128-bit number of a UUID.
#[derive(Debug, Clone)]
pub struct Product {
    pub _id: u128,
    pub name: String,
    pub price: u32,
    pub description: String,
    pub images: Vec<String>,
    /// The discount in percent, from 0 to 100.
    pub discount: u8,
    /// 0 for a helmet, 1 for a bike.
    pub category: u8,
}

} // verus!
