//! Relay middleware: authenticates against a managed identity provider,
//! caches short-lived access tokens, and reroutes transaction submissions
//! through a third-party transaction-relay service.

pub mod auth;
pub mod errors;
pub mod hex;
pub mod json;
pub mod relay;
pub mod txid;

pub use errors::OzRelayerMiddlewareError;
pub use relay::OzRelayerMiddleware;
