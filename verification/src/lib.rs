//! Typed URL construction for the Mesowest weather API's authentication
//! endpoints.
//!
//! URLs for creating, listing and deleting API tokens are assembled through a
//! builder whose states each expose only the transitions that are legal next,
//! so a malformed construction order is rejected at compile time. The library
//! never performs a web request itself.

mod url;

pub mod auth;
pub mod builder;
pub mod key;

pub use builder::MesowestBuilder;
pub use url::MesowestUrl;
