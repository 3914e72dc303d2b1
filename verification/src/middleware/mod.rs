pub mod auth;
pub mod permissions;
