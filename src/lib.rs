pub mod decimal;
pub mod filter;
pub mod headers;
pub mod laws;
