//! Client configuration types.

use vstd::prelude::*;

verus! {

/// HTTP basic authentication: a user name and an optional password.
pub type BasicAuth = (String, Option<String>);

} // verus!
