//! Encryption modes.

use vstd::prelude::*;
use vstd::string::StringExecFns;
use crate::apis::text::str_eq;

verus! {
/// A symmetric encryption mode.
#[derive(Clone, Copy, Debug, PartialEq, Eq, Structural, PartialOrd, Ord, Hash)]
pub enum EncryptMode {
    AesCbc,
}

impl EncryptMode {
    /// The name of the value in the API's JSON and in messages.
    pub open spec fn wire_name(self) -> Seq<char> {
        match self {
            EncryptMode::AesCbc => "AES_CBC"@,
        }
    }

    /// The value whose name is `name`, if there is one.
    pub open spec fn from_wire_name(name: Seq<char>) -> Option<EncryptMode> {
        if name == "AES_CBC"@ {
            Some(EncryptMode::AesCbc)
        } else {
            None
        }
    }

    /// The name of the value.
    pub fn to_string(&self) -> (r: String)
        ensures
            r@ == self.wire_name(),
    {
        match self {
            EncryptMode::AesCbc => String::from_str("AES_CBC"),
        }
    }

    /// The value named `name`; `None` when no value has that name.
    pub fn from_name(name: &str) -> (r: Option<EncryptMode>)
        ensures
            r == EncryptMode::from_wire_name(name@),
    {
        if str_eq(name, "AES_CBC") {
            Some(EncryptMode::AesCbc)
        } else {
            None
        }
    }
}

/// Every value is read back from its name: the names of the values are
/// pairwise distinct, so `from_name` undoes `to_string`.
pub proof fn lemma_encrypt_mode_name_roundtrip(v: EncryptMode)
    ensures
        EncryptMode::from_wire_name(v.wire_name()) == Some(v),
{
    reveal_strlit("AES_CBC");
    assert("AES_CBC"@.len() == 7);
}

/// A name is read only as the value that has that name.
pub proof fn lemma_encrypt_mode_name_read_back(name: Seq<char>)
    ensures
        EncryptMode::from_wire_name(name) matches Some(v) ==> v.wire_name() == name,
{
}

impl Default for EncryptMode {
    fn default() -> (r: Self)
        ensures
            r == EncryptMode::AesCbc,
    {
        EncryptMode::AesCbc
    }
}

} // verus!
