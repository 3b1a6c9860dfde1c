//! Verified core of the Hivehook client: webhook signing and verification,
//! the GraphQL response envelope, error classification, retry policy and
//! pagination.

pub mod client;
pub mod errors;
pub mod json;
pub mod pagination;
pub mod request;
pub mod resources;
pub mod text;
pub mod transport;
pub mod types;
pub mod webhook;

pub use errors::HivehookError;
pub use webhook::Webhook;
