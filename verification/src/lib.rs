//! Authentication, authorization and cache-invalidation rules of a small
//! shop backend, with every rule stated as a contract and proved.

pub mod dto;
pub mod errors;
pub mod middleware;
pub mod models;
pub mod services;
pub mod utils;

pub use errors::AppErrors;
pub use models::role::Role;
