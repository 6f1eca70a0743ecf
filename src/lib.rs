//! Typed client library for the Dungeon & Fighter open API: request
//! parameters, their query-string encoding, URL composition, response
//! classification and the response data model.
//!
//! The library builds every request as a path plus `key=value` pairs and
//! decides every outcome; sending the request and reading JSON is left to
//! the HTTP transport around it.

// text and encoding
pub mod text;
pub mod url;
pub mod query;
pub mod laws;

// requests
pub mod request;
pub mod auction;
pub mod item;
pub mod character;
pub mod image;

// responses
pub mod error;
pub mod kinds;
pub mod date;
pub mod model;
pub mod raw;
pub mod convert;
pub mod decode;
mod sealed;
