//! Client-side data model and request helpers for the NetHSM REST API.
//!
//! `apis` holds the request and response helpers (query encoding, the
//! `deepObject` query style, HTTP basic authentication, response contents and
//! the client error); `models` holds the request and response data types.

pub mod apis;
pub mod models;

pub use ureq;
