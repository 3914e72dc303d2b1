pub mod auth;
pub mod order;
pub mod product;
pub mod user;
pub mod validation;
