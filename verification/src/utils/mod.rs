pub mod cache;
pub mod credentials;
