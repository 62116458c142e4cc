//! Arguments that accompany a PEM-encoded private key.

use vstd::prelude::*;
use crate::models::{KeyMechanism, KeyRestrictions};

verus! {

/// The mechanisms and restrictions of an imported PEM private key; both are
/// optional.
#[derive(Clone, Debug, PartialEq)]
pub struct PrivateKeyPemArguments {
    pub mechanisms: Option<Vec<KeyMechanism>>,
    pub restrictions: Option<Box<KeyRestrictions>>,
}

impl PrivateKeyPemArguments {
    /// Arguments with neither mechanisms nor restrictions.
    pub fn new() -> (r: PrivateKeyPemArguments)
        ensures
            r.mechanisms is None,
            r.restrictions is None,
    {
        PrivateKeyPemArguments { mechanisms: None, restrictions: None }
    }
}

impl Default for PrivateKeyPemArguments {
    fn default() -> (r: Self)
        ensures
            r.mechanisms is None,
            r.restrictions is None,
    {
        PrivateKeyPemArguments { mechanisms: None, restrictions: None }
    }
}

} // verus!
