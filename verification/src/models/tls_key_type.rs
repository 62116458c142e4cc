//! Key types of the TLS key.

use vstd::prelude::*;
use vstd::string::StringExecFns;
use crate::apis::text::str_eq;

verus! {
/// The type of the device's TLS key.
#[derive(Clone, Copy, Debug, PartialEq, Eq, Structural, PartialOrd, Ord, Hash)]
pub enum TlsKeyType {
    Rsa,
    Curve25519,
    EcP256,
    EcP384,
    EcP521,
    BrainpoolP256,
    BrainpoolP384,
    BrainpoolP512,
}

impl TlsKeyType {
    /// The name of the value in the API's JSON and in messages.
    pub open spec fn wire_name(self) -> Seq<char> {
        match self {
            TlsKeyType::Rsa => "RSA"@,
            TlsKeyType::Curve25519 => "Curve25519"@,
            TlsKeyType::EcP256 => "EC_P256"@,
            TlsKeyType::EcP384 => "EC_P384"@,
            TlsKeyType::EcP521 => "EC_P521"@,
            TlsKeyType::BrainpoolP256 => "BrainpoolP256"@,
            TlsKeyType::BrainpoolP384 => "BrainpoolP384"@,
            TlsKeyType::BrainpoolP512 => "BrainpoolP512"@,
        }
    }

    /// The value whose name is `name`, if there is one.
    pub open spec fn from_wire_name(name: Seq<char>) -> Option<TlsKeyType> {
        if name == "RSA"@ {
            Some(TlsKeyType::Rsa)
        } else if name == "Curve25519"@ {
            Some(TlsKeyType::Curve25519)
        } else if name == "EC_P256"@ {
            Some(TlsKeyType::EcP256)
        } else if name == "EC_P384"@ {
            Some(TlsKeyType::EcP384)
        } else if name == "EC_P521"@ {
            Some(TlsKeyType::EcP521)
        } else if name == "BrainpoolP256"@ {
            Some(TlsKeyType::BrainpoolP256)
        } else if name == "BrainpoolP384"@ {
            Some(TlsKeyType::BrainpoolP384)
        } else if name == "BrainpoolP512"@ {
            Some(TlsKeyType::BrainpoolP512)
        } else {
            None
        }
    }

    /// The name of the value.
    pub fn to_string(&self) -> (r: String)
        ensures
            r@ == self.wire_name(),
    {
        match self {
            TlsKeyType::Rsa => String::from_str("RSA"),
            TlsKeyType::Curve25519 => String::from_str("Curve25519"),
            TlsKeyType::EcP256 => String::from_str("EC_P256"),
            TlsKeyType::EcP384 => String::from_str("EC_P384"),
            TlsKeyType::EcP521 => String::from_str("EC_P521"),
            TlsKeyType::BrainpoolP256 => String::from_str("BrainpoolP256"),
            TlsKeyType::BrainpoolP384 => String::from_str("BrainpoolP384"),
            TlsKeyType::BrainpoolP512 => String::from_str("BrainpoolP512"),
        }
    }

    /// The value named `name`; `None` when no value has that name.
    pub fn from_name(name: &str) -> (r: Option<TlsKeyType>)
        ensures
            r == TlsKeyType::from_wire_name(name@),
    {
        if str_eq(name, "RSA") {
            Some(TlsKeyType::Rsa)
        } else if str_eq(name, "Curve25519") {
            Some(TlsKeyType::Curve25519)
        } else if str_eq(name, "EC_P256") {
            Some(TlsKeyType::EcP256)
        } else if str_eq(name, "EC_P384") {
            Some(TlsKeyType::EcP384)
        } else if str_eq(name, "EC_P521") {
            Some(TlsKeyType::EcP521)
        } else if str_eq(name, "BrainpoolP256") {
            Some(TlsKeyType::BrainpoolP256)
        } else if str_eq(name, "BrainpoolP384") {
            Some(TlsKeyType::BrainpoolP384)
        } else if str_eq(name, "BrainpoolP512") {
            Some(TlsKeyType::BrainpoolP512)
        } else {
            None
        }
    }
}

/// Every value is read back from its name: the names of the values are
/// pairwise distinct, so `from_name` undoes `to_string`.
pub proof fn lemma_tls_key_type_name_roundtrip(v: TlsKeyType)
    ensures
        TlsKeyType::from_wire_name(v.wire_name()) == Some(v),
{
    reveal_strlit("RSA");
    reveal_strlit("Curve25519");
    reveal_strlit("EC_P256");
    reveal_strlit("EC_P384");
    reveal_strlit("EC_P521");
    reveal_strlit("BrainpoolP256");
    reveal_strlit("BrainpoolP384");
    reveal_strlit("BrainpoolP512");
    assert("RSA"@.len() == 3);
    assert("Curve25519"@.len() == 10);
    assert("EC_P256"@.len() == 7);
    assert("EC_P384"@.len() == 7);
    assert("EC_P521"@.len() == 7);
    assert("BrainpoolP256"@.len() == 13);
    assert("BrainpoolP384"@.len() == 13);
    assert("BrainpoolP512"@.len() == 13);
    assert("EC_P384"@[4] != "EC_P256"@[4]);
    assert("EC_P521"@[4] != "EC_P256"@[4]);
    assert("EC_P521"@[4] != "EC_P384"@[4]);
    assert("BrainpoolP384"@[10] != "BrainpoolP256"@[10]);
    assert("BrainpoolP512"@[10] != "BrainpoolP256"@[10]);
    assert("BrainpoolP512"@[10] != "BrainpoolP384"@[10]);
}

/// A name is read only as the value that has that name.
pub proof fn lemma_tls_key_type_name_read_back(name: Seq<char>)
    ensures
        TlsKeyType::from_wire_name(name) matches Some(v) ==> v.wire_name() == name,
{
}

impl Default for TlsKeyType {
    fn default() -> (r: Self)
        ensures
            r == TlsKeyType::Rsa,
    {
        TlsKeyType::Rsa
    }
}

} // verus!
