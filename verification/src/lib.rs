pub mod api_types;
pub mod client;
pub mod config;
pub mod error;
pub mod hash;
pub mod stream;
pub mod strong;
pub mod token;
pub mod types;

pub use strong::Strong;
