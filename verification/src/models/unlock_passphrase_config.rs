//! A change of the unlock passphrase.

use vstd::prelude::*;

verus! {

/// The new unlock passphrase together with the current one.
#[derive(Clone, Debug, PartialEq)]
pub struct UnlockPassphraseConfig {
    pub new_passphrase: String,
    pub current_passphrase: String,
}

impl UnlockPassphraseConfig {
    /// A change from `current_passphrase` to `new_passphrase`.
    pub fn new(new_passphrase: String, current_passphrase: String) -> (r: UnlockPassphraseConfig)
        ensures
            r.new_passphrase@ == new_passphrase@,
            r.current_passphrase@ == current_passphrase@,
    {
        UnlockPassphraseConfig { new_passphrase, current_passphrase }
    }
}

impl Default for UnlockPassphraseConfig {
    fn default() -> (r: Self)
        ensures
            r.new_passphrase@ == Seq::<char>::empty(),
            r.current_passphrase@ == Seq::<char>::empty(),
    {
        UnlockPassphraseConfig { new_passphrase: String::new(), current_passphrase: String::new() }
    }
}

} // verus!
