//! A payment connector for the Rapyd payment service: signed request
//! building, response translation, and webhook authentication.
pub mod external;
pub mod flows;
pub mod laws;
pub mod responses;
pub mod secret;
pub mod signing;
pub mod types;
pub mod webhooks;
