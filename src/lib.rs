pub mod error;
pub mod identity;
pub mod address;
pub mod transfer;
pub mod config;
pub mod pool;
pub mod laws;
