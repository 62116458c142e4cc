//! Restrictions on the use of a key.

use vstd::prelude::*;

verus! {

/// Restrictions on who may use a key: the tags a user must carry.
#[derive(Clone, Debug, PartialEq)]
pub struct KeyRestrictions {
    pub tags: Option<Vec<String>>,
}

} // verus!
