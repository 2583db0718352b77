//! A typed client for the REST interface of an issue tracker.
//!
//! The library builds request descriptions, merges headers and query
//! parameters, and classifies what the server sent back. Sending a request
//! over the network is left to the caller: every function here maps values
//! to values.

pub mod client;
pub mod credentials;
pub mod errors;
pub mod json;
pub mod params;
pub mod request;
pub mod response;
pub mod text;
pub mod v2;

pub use crate::client::Client;
pub use crate::credentials::Credentials;
pub use crate::errors::{ConfigFault, DecodeCause, Error};
pub use crate::json::Json;
pub use crate::params::Params;
pub use crate::request::{Method, Request};
pub use crate::response::{Outcome, Resp};
