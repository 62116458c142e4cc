//! Key mechanisms: what a key may be used for.

use vstd::prelude::*;
use vstd::string::StringExecFns;
use crate::apis::text::str_eq;

verus! {
/// A mechanism that a key may be used with.
#[derive(Clone, Copy, Debug, PartialEq, Eq, Structural, PartialOrd, Ord, Hash)]
pub enum KeyMechanism {
    RsaDecryptionRaw,
    RsaDecryptionPkcs1,
    RsaDecryptionOaepMd5,
    RsaDecryptionOaepSha1,
    RsaDecryptionOaepSha224,
    RsaDecryptionOaepSha256,
    RsaDecryptionOaepSha384,
    RsaDecryptionOaepSha512,
    RsaSignaturePkcs1,
    RsaSignaturePssMd5,
    RsaSignaturePssSha1,
    RsaSignaturePssSha224,
    RsaSignaturePssSha256,
    RsaSignaturePssSha384,
    RsaSignaturePssSha512,
    EdDsaSignature,
    EcdsaSignature,
    Bip340Signature,
    AesEncryptionCbc,
    AesDecryptionCbc,
}

impl KeyMechanism {
    /// The name of the value in the API's JSON and in messages.
    pub open spec fn wire_name(self) -> Seq<char> {
        match self {
            KeyMechanism::RsaDecryptionRaw => "RSA_Decryption_RAW"@,
            KeyMechanism::RsaDecryptionPkcs1 => "RSA_Decryption_PKCS1"@,
            KeyMechanism::RsaDecryptionOaepMd5 => "RSA_Decryption_OAEP_MD5"@,
            KeyMechanism::RsaDecryptionOaepSha1 => "RSA_Decryption_OAEP_SHA1"@,
            KeyMechanism::RsaDecryptionOaepSha224 => "RSA_Decryption_OAEP_SHA224"@,
            KeyMechanism::RsaDecryptionOaepSha256 => "RSA_Decryption_OAEP_SHA256"@,
            KeyMechanism::RsaDecryptionOaepSha384 => "RSA_Decryption_OAEP_SHA384"@,
            KeyMechanism::RsaDecryptionOaepSha512 => "RSA_Decryption_OAEP_SHA512"@,
            KeyMechanism::RsaSignaturePkcs1 => "RSA_Signature_PKCS1"@,
            KeyMechanism::RsaSignaturePssMd5 => "RSA_Signature_PSS_MD5"@,
            KeyMechanism::RsaSignaturePssSha1 => "RSA_Signature_PSS_SHA1"@,
            KeyMechanism::RsaSignaturePssSha224 => "RSA_Signature_PSS_SHA224"@,
            KeyMechanism::RsaSignaturePssSha256 => "RSA_Signature_PSS_SHA256"@,
            KeyMechanism::RsaSignaturePssSha384 => "RSA_Signature_PSS_SHA384"@,
            KeyMechanism::RsaSignaturePssSha512 => "RSA_Signature_PSS_SHA512"@,
            KeyMechanism::EdDsaSignature => "EdDSA_Signature"@,
            KeyMechanism::EcdsaSignature => "ECDSA_Signature"@,
            KeyMechanism::Bip340Signature => "BIP340_Signature"@,
            KeyMechanism::AesEncryptionCbc => "AES_Encryption_CBC"@,
            KeyMechanism::AesDecryptionCbc => "AES_Decryption_CBC"@,
        }
    }

    /// The value whose name is `name`, if there is one.
    pub open spec fn from_wire_name(name: Seq<char>) -> Option<KeyMechanism> {
        if name == "RSA_Decryption_RAW"@ {
            Some(KeyMechanism::RsaDecryptionRaw)
        } else if name == "RSA_Decryption_PKCS1"@ {
            Some(KeyMechanism::RsaDecryptionPkcs1)
        } else if name == "RSA_Decryption_OAEP_MD5"@ {
            Some(KeyMechanism::RsaDecryptionOaepMd5)
        } else if name == "RSA_Decryption_OAEP_SHA1"@ {
            Some(KeyMechanism::RsaDecryptionOaepSha1)
        } else if name == "RSA_Decryption_OAEP_SHA224"@ {
            Some(KeyMechanism::RsaDecryptionOaepSha224)
        } else if name == "RSA_Decryption_OAEP_SHA256"@ {
            Some(KeyMechanism::RsaDecryptionOaepSha256)
        } else if name == "RSA_Decryption_OAEP_SHA384"@ {
            Some(KeyMechanism::RsaDecryptionOaepSha384)
        } else if name == "RSA_Decryption_OAEP_SHA512"@ {
            Some(KeyMechanism::RsaDecryptionOaepSha512)
        } else if name == "RSA_Signature_PKCS1"@ {
            Some(KeyMechanism::RsaSignaturePkcs1)
        } else if name == "RSA_Signature_PSS_MD5"@ {
            Some(KeyMechanism::RsaSignaturePssMd5)
        } else if name == "RSA_Signature_PSS_SHA1"@ {
            Some(KeyMechanism::RsaSignaturePssSha1)
        } else if name == "RSA_Signature_PSS_SHA224"@ {
            Some(KeyMechanism::RsaSignaturePssSha224)
        } else if name == "RSA_Signature_PSS_SHA256"@ {
            Some(KeyMechanism::RsaSignaturePssSha256)
        } else if name == "RSA_Signature_PSS_SHA384"@ {
            Some(KeyMechanism::RsaSignaturePssSha384)
        } else if name == "RSA_Signature_PSS_SHA512"@ {
            Some(KeyMechanism::RsaSignaturePssSha512)
        } else if name == "EdDSA_Signature"@ {
            Some(KeyMechanism::EdDsaSignature)
        } else if name == "ECDSA_Signature"@ {
            Some(KeyMechanism::EcdsaSignature)
        } else if name == "BIP340_Signature"@ {
            Some(KeyMechanism::Bip340Signature)
        } else if name == "AES_Encryption_CBC"@ {
            Some(KeyMechanism::AesEncryptionCbc)
        } else if name == "AES_Decryption_CBC"@ {
            Some(KeyMechanism::AesDecryptionCbc)
        } else {
            None
        }
    }

    /// The name of the value.
    pub fn to_string(&self) -> (r: String)
        ensures
            r@ == self.wire_name(),
    {
        match self {
            KeyMechanism::RsaDecryptionRaw => String::from_str("RSA_Decryption_RAW"),
            KeyMechanism::RsaDecryptionPkcs1 => String::from_str("RSA_Decryption_PKCS1"),
            KeyMechanism::RsaDecryptionOaepMd5 => String::from_str("RSA_Decryption_OAEP_MD5"),
            KeyMechanism::RsaDecryptionOaepSha1 => String::from_str("RSA_Decryption_OAEP_SHA1"),
            KeyMechanism::RsaDecryptionOaepSha224 => String::from_str("RSA_Decryption_OAEP_SHA224"),
            KeyMechanism::RsaDecryptionOaepSha256 => String::from_str("RSA_Decryption_OAEP_SHA256"),
            KeyMechanism::RsaDecryptionOaepSha384 => String::from_str("RSA_Decryption_OAEP_SHA384"),
            KeyMechanism::RsaDecryptionOaepSha512 => String::from_str("RSA_Decryption_OAEP_SHA512"),
            KeyMechanism::RsaSignaturePkcs1 => String::from_str("RSA_Signature_PKCS1"),
            KeyMechanism::RsaSignaturePssMd5 => String::from_str("RSA_Signature_PSS_MD5"),
            KeyMechanism::RsaSignaturePssSha1 => String::from_str("RSA_Signature_PSS_SHA1"),
            KeyMechanism::RsaSignaturePssSha224 => String::from_str("RSA_Signature_PSS_SHA224"),
            KeyMechanism::RsaSignaturePssSha256 => String::from_str("RSA_Signature_PSS_SHA256"),
            KeyMechanism::RsaSignaturePssSha384 => String::from_str("RSA_Signature_PSS_SHA384"),
            KeyMechanism::RsaSignaturePssSha512 => String::from_str("RSA_Signature_PSS_SHA512"),
            KeyMechanism::EdDsaSignature => String::from_str("EdDSA_Signature"),
            KeyMechanism::EcdsaSignature => String::from_str("ECDSA_Signature"),
            KeyMechanism::Bip340Signature => String::from_str("BIP340_Signature"),
            KeyMechanism::AesEncryptionCbc => String::from_str("AES_Encryption_CBC"),
            KeyMechanism::AesDecryptionCbc => String::from_str("AES_Decryption_CBC"),
        }
    }

    /// The value named `name`; `None` when no value has that name.
    pub fn from_name(name: &str) -> (r: Option<KeyMechanism>)
        ensures
            r == KeyMechanism::from_wire_name(name@),
    {
        if str_eq(name, "RSA_Decryption_RAW") {
            Some(KeyMechanism::RsaDecryptionRaw)
        } else if str_eq(name, "RSA_Decryption_PKCS1") {
            Some(KeyMechanism::RsaDecryptionPkcs1)
        } else if str_eq(name, "RSA_Decryption_OAEP_MD5") {
            Some(KeyMechanism::RsaDecryptionOaepMd5)
        } else if str_eq(name, "RSA_Decryption_OAEP_SHA1") {
            Some(KeyMechanism::RsaDecryptionOaepSha1)
        } else if str_eq(name, "RSA_Decryption_OAEP_SHA224") {
            Some(KeyMechanism::RsaDecryptionOaepSha224)
        } else if str_eq(name, "RSA_Decryption_OAEP_SHA256") {
            Some(KeyMechanism::RsaDecryptionOaepSha256)
        } else if str_eq(name, "RSA_Decryption_OAEP_SHA384") {
            Some(KeyMechanism::RsaDecryptionOaepSha384)
        } else if str_eq(name, "RSA_Decryption_OAEP_SHA512") {
            Some(KeyMechanism::RsaDecryptionOaepSha512)
        } else if str_eq(name, "RSA_Signature_PKCS1") {
            Some(KeyMechanism::RsaSignaturePkcs1)
        } else if str_eq(name, "RSA_Signature_PSS_MD5") {
            Some(KeyMechanism::RsaSignaturePssMd5)
        } else if str_eq(name, "RSA_Signature_PSS_SHA1") {
            Some(KeyMechanism::RsaSignaturePssSha1)
        } else if str_eq(name, "RSA_Signature_PSS_SHA224") {
            Some(KeyMechanism::RsaSignaturePssSha224)
        } else if str_eq(name, "RSA_Signature_PSS_SHA256") {
            Some(KeyMechanism::RsaSignaturePssSha256)
        } else if str_eq(name, "RSA_Signature_PSS_SHA384") {
            Some(KeyMechanism::RsaSignaturePssSha384)
        } else if str_eq(name, "RSA_Signature_PSS_SHA512") {
            Some(KeyMechanism::RsaSignaturePssSha512)
        } else if str_eq(name, "EdDSA_Signature") {
            Some(KeyMechanism::EdDsaSignature)
        } else if str_eq(name, "ECDSA_Signature") {
            Some(KeyMechanism::EcdsaSignature)
        } else if str_eq(name, "BIP340_Signature") {
            Some(KeyMechanism::Bip340Signature)
        } else if str_eq(name, "AES_Encryption_CBC") {
            Some(KeyMechanism::AesEncryptionCbc)
        } else if str_eq(name, "AES_Decryption_CBC") {
            Some(KeyMechanism::AesDecryptionCbc)
        } else {
            None
        }
    }
}

/// Every value is read back from its name: the names of the values are
/// pairwise distinct, so `from_name` undoes `to_string`.
pub proof fn lemma_key_mechanism_name_roundtrip(v: KeyMechanism)
    ensures
        KeyMechanism::from_wire_name(v.wire_name()) == Some(v),
{
    reveal_strlit("RSA_Decryption_RAW");
    reveal_strlit("RSA_Decryption_PKCS1");
    reveal_strlit("RSA_Decryption_OAEP_MD5");
    reveal_strlit("RSA_Decryption_OAEP_SHA1");
    reveal_strlit("RSA_Decryption_OAEP_SHA224");
    reveal_strlit("RSA_Decryption_OAEP_SHA256");
    reveal_strlit("RSA_Decryption_OAEP_SHA384");
    reveal_strlit("RSA_Decryption_OAEP_SHA512");
    reveal_strlit("RSA_Signature_PKCS1");
    reveal_strlit("RSA_Signature_PSS_MD5");
    reveal_strlit("RSA_Signature_PSS_SHA1");
    reveal_strlit("RSA_Signature_PSS_SHA224");
    reveal_strlit("RSA_Signature_PSS_SHA256");
    reveal_strlit("RSA_Signature_PSS_SHA384");
    reveal_strlit("RSA_Signature_PSS_SHA512");
    reveal_strlit("EdDSA_Signature");
    reveal_strlit("ECDSA_Signature");
    reveal_strlit("BIP340_Signature");
    reveal_strlit("AES_Encryption_CBC");
    reveal_strlit("AES_Decryption_CBC");
    assert("RSA_Decryption_RAW"@.len() == 18);
    assert("RSA_Decryption_PKCS1"@.len() == 20);
    assert("RSA_Decryption_OAEP_MD5"@.len() == 23);
    assert("RSA_Decryption_OAEP_SHA1"@.len() == 24);
    assert("RSA_Decryption_OAEP_SHA224"@.len() == 26);
    assert("RSA_Decryption_OAEP_SHA256"@.len() == 26);
    assert("RSA_Decryption_OAEP_SHA384"@.len() == 26);
    assert("RSA_Decryption_OAEP_SHA512"@.len() == 26);
    assert("RSA_Signature_PKCS1"@.len() == 19);
    assert("RSA_Signature_PSS_MD5"@.len() == 21);
    assert("RSA_Signature_PSS_SHA1"@.len() == 22);
    assert("RSA_Signature_PSS_SHA224"@.len() == 24);
    assert("RSA_Signature_PSS_SHA256"@.len() == 24);
    assert("RSA_Signature_PSS_SHA384"@.len() == 24);
    assert("RSA_Signature_PSS_SHA512"@.len() == 24);
    assert("EdDSA_Signature"@.len() == 15);
    assert("ECDSA_Signature"@.len() == 15);
    assert("BIP340_Signature"@.len() == 16);
    assert("AES_Encryption_CBC"@.len() == 18);
    assert("AES_Decryption_CBC"@.len() == 18);
    assert("RSA_Decryption_OAEP_SHA256"@[24] != "RSA_Decryption_OAEP_SHA224"@[24]);
    assert("RSA_Decryption_OAEP_SHA384"@[23] != "RSA_Decryption_OAEP_SHA224"@[23]);
    assert("RSA_Decryption_OAEP_SHA384"@[23] != "RSA_Decryption_OAEP_SHA256"@[23]);
    assert("RSA_Decryption_OAEP_SHA512"@[23] != "RSA_Decryption_OAEP_SHA224"@[23]);
    assert("RSA_Decryption_OAEP_SHA512"@[23] != "RSA_Decryption_OAEP_SHA256"@[23]);
    assert("RSA_Decryption_OAEP_SHA512"@[23] != "RSA_Decryption_OAEP_SHA384"@[23]);
    assert("RSA_Signature_PSS_SHA224"@[4] != "RSA_Decryption_OAEP_SHA1"@[4]);
    assert("RSA_Signature_PSS_SHA256"@[4] != "RSA_Decryption_OAEP_SHA1"@[4]);
    assert("RSA_Signature_PSS_SHA256"@[22] != "RSA_Signature_PSS_SHA224"@[22]);
    assert("RSA_Signature_PSS_SHA384"@[4] != "RSA_Decryption_OAEP_SHA1"@[4]);
    assert("RSA_Signature_PSS_SHA384"@[21] != "RSA_Signature_PSS_SHA224"@[21]);
    assert("RSA_Signature_PSS_SHA384"@[21] != "RSA_Signature_PSS_SHA256"@[21]);
    assert("RSA_Signature_PSS_SHA512"@[4] != "RSA_Decryption_OAEP_SHA1"@[4]);
    assert("RSA_Signature_PSS_SHA512"@[21] != "RSA_Signature_PSS_SHA224"@[21]);
    assert("RSA_Signature_PSS_SHA512"@[21] != "RSA_Signature_PSS_SHA256"@[21]);
    assert("RSA_Signature_PSS_SHA512"@[21] != "RSA_Signature_PSS_SHA384"@[21]);
    assert("ECDSA_Signature"@[1] != "EdDSA_Signature"@[1]);
    assert("AES_Encryption_CBC"@[0] != "RSA_Decryption_RAW"@[0]);
    assert("AES_Decryption_CBC"@[0] != "RSA_Decryption_RAW"@[0]);
    assert("AES_Decryption_CBC"@[4] != "AES_Encryption_CBC"@[4]);
}

/// A name is read only as the value that has that name.
pub proof fn lemma_key_mechanism_name_read_back(name: Seq<char>)
    ensures
        KeyMechanism::from_wire_name(name) matches Some(v) ==> v.wire_name() == name,
{
}

impl Default for KeyMechanism {
    fn default() -> (r: Self)
        ensures
            r == KeyMechanism::RsaDecryptionRaw,
    {
        KeyMechanism::RsaDecryptionRaw
    }
}

} // verus!
