//! A client for a currency-exchange HTTP API.
//!
//! The library builds the request URL of each of the four endpoints (with the
//! API key as the `apikey` query parameter) and turns what the transport hands
//! back into a typed result. Issuing the HTTP request itself is left to the
//! caller's asynchronous runtime.

pub mod api;
mod error;
pub mod models;
pub mod query;

pub use api::{Freecurrencyapi, Settings};
pub use error::FreecurrencyapiError;
pub use models::DetailsResponse;
pub use query::Query;
