pub mod order;
pub mod product;
pub mod res;
pub mod role;
pub mod user;
