//! A typed client for the WordPress REST API.
//!
//! Requests are assembled by builders whose query arguments are plain
//! key/value text, and every piece of logic that shapes a request or decides
//! how a response is classified carries a contract that Verus proves.

/// Textual forms of integers and booleans, and text comparison.
pub mod text;
/// Comma-separated encoding of multi-value query arguments.
pub mod comsep;
/// Joining a relative path onto a base URL.
pub mod path;
/// The ordered list of query arguments that a request carries.
pub mod query;
/// Timestamps as the API and its query arguments carry them.
pub mod time;
/// Types representing objects in the API.
pub mod data;
/// API interaction.
pub mod api;

pub use api::Wordpress;
