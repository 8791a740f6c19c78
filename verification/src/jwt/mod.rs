pub mod checker;
pub mod claims;
