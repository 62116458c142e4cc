//! Request and response helpers shared by the API endpoints.

pub mod base64_text;
pub mod basic_auth;
pub mod configuration;
pub mod deep_object;
pub mod error;
pub mod response;
pub mod text;
pub mod urlencode;

pub use basic_auth::basic_auth;
pub use error::Error;
pub use response::ResponseContent;
pub use deep_object::{is_deep_object, parse_deep_object, JsonValue};
pub use urlencode::urlencode;
