pub mod hash;
pub mod ident;
pub mod jwt;
pub mod number;
pub mod text;
