pub mod client;
pub mod error;
pub mod keygen;
pub mod services;
