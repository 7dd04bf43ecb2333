//! Web scraping and data ingestion.
//!
//! Implement `Endpoint` for a type that describes your data source. The
//! endpoint makes the next request and parses each response into items; it
//! sees the previous response, thus cursor pagination is possible. Give the
//! endpoint to an `Ingester` with an `HttpClient` and a `RateLimit`. The
//! `Pump` holds the decisions of an ingestion: which item comes next, when
//! the endpoint is asked for a request, and what a response or an error
//! does; a driver carries out each step it asks for.

pub mod client;
pub mod endpoint;
pub mod error;
pub mod ingester;
pub mod pump;
pub mod rate_limit;
pub mod request;
pub mod response;

pub use client::HttpClient;
pub use endpoint::Endpoint;
pub use error::Error;
pub use ingester::Ingester;
pub use pump::{Pump, Step};
pub use rate_limit::{NoRateLimit, RateLimit};
pub use request::Request;
pub use response::Response;
