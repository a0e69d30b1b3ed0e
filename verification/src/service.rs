//! The signed request, its signature and the provider's response envelope.

pub mod dispatch;
pub mod envelope;
pub mod signing;
pub mod tc_request;
