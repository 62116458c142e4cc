use nethsm_sdk_rs::models::{
    EncryptMode, KeyMechanism, LogLevel, LoggingConfig, PrivateKeyPemArguments, SystemState,
    TlsKeyType, UnlockPassphraseConfig,
};

const MECHANISMS: [(KeyMechanism, &str); 20] = [
    (KeyMechanism::RsaDecryptionRaw, "RSA_Decryption_RAW"),
    (KeyMechanism::RsaDecryptionPkcs1, "RSA_Decryption_PKCS1"),
    (KeyMechanism::RsaDecryptionOaepMd5, "RSA_Decryption_OAEP_MD5"),
    (KeyMechanism::RsaDecryptionOaepSha1, "RSA_Decryption_OAEP_SHA1"),
    (KeyMechanism::RsaDecryptionOaepSha224, "RSA_Decryption_OAEP_SHA224"),
    (KeyMechanism::RsaDecryptionOaepSha256, "RSA_Decryption_OAEP_SHA256"),
    (KeyMechanism::RsaDecryptionOaepSha384, "RSA_Decryption_OAEP_SHA384"),
    (KeyMechanism::RsaDecryptionOaepSha512, "RSA_Decryption_OAEP_SHA512"),
    (KeyMechanism::RsaSignaturePkcs1, "RSA_Signature_PKCS1"),
    (KeyMechanism::RsaSignaturePssMd5, "RSA_Signature_PSS_MD5"),
    (KeyMechanism::RsaSignaturePssSha1, "RSA_Signature_PSS_SHA1"),
    (KeyMechanism::RsaSignaturePssSha224, "RSA_Signature_PSS_SHA224"),
    (KeyMechanism::RsaSignaturePssSha256, "RSA_Signature_PSS_SHA256"),
    (KeyMechanism::RsaSignaturePssSha384, "RSA_Signature_PSS_SHA384"),
    (KeyMechanism::RsaSignaturePssSha512, "RSA_Signature_PSS_SHA512"),
    (KeyMechanism::EdDsaSignature, "EdDSA_Signature"),
    (KeyMechanism::EcdsaSignature, "ECDSA_Signature"),
    (KeyMechanism::Bip340Signature, "BIP340_Signature"),
    (KeyMechanism::AesEncryptionCbc, "AES_Encryption_CBC"),
    (KeyMechanism::AesDecryptionCbc, "AES_Decryption_CBC"),
];

#[test]
fn key_mechanism_names() {
    for (m, name) in MECHANISMS {
        assert_eq!(m.to_string(), name);
        assert_eq!(KeyMechanism::from_name(name), Some(m));
    }
}

#[test]
fn key_mechanism_unknown_names() {
    assert_eq!(KeyMechanism::from_name(""), None);
    assert_eq!(KeyMechanism::from_name("rsa_decryption_raw"), None);
    assert_eq!(KeyMechanism::from_name("RSA_Decryption_RAW "), None);
    assert_eq!(KeyMechanism::from_name("Bip340_Signature"), None);
    assert_eq!(KeyMechanism::from_name("BIP340_Signature"), Some(KeyMechanism::Bip340Signature));
}

#[test]
fn key_mechanism_names_are_distinct() {
    for (i, (a, _)) in MECHANISMS.iter().enumerate() {
        for (b, _) in &MECHANISMS[i + 1..] {
            assert_ne!(a.to_string(), b.to_string());
        }
    }
}

#[test]
fn key_mechanism_default() {
    assert_eq!(KeyMechanism::default(), KeyMechanism::RsaDecryptionRaw);
}

#[test]
fn encrypt_mode_names_and_default() {
    assert_eq!(EncryptMode::AesCbc.to_string(), "AES_CBC");
    assert_eq!(EncryptMode::from_name("AES_CBC"), Some(EncryptMode::AesCbc));
    assert_eq!(EncryptMode::from_name("AES_CB"), None);
    assert_eq!(EncryptMode::default(), EncryptMode::AesCbc);
}

#[test]
fn system_state_names_and_default() {
    let states = [
        (SystemState::Unprovisioned, "Unprovisioned"),
        (SystemState::Locked, "Locked"),
        (SystemState::Operational, "Operational"),
    ];
    for (s, name) in states {
        assert_eq!(s.to_string(), name);
        assert_eq!(SystemState::from_name(name), Some(s));
    }
    assert_eq!(SystemState::from_name("locked"), None);
    assert_eq!(SystemState::default(), SystemState::Unprovisioned);
}

#[test]
fn tls_key_type_names_and_default() {
    let types = [
        (TlsKeyType::Rsa, "RSA"),
        (TlsKeyType::Curve25519, "Curve25519"),
        (TlsKeyType::EcP256, "EC_P256"),
        (TlsKeyType::EcP384, "EC_P384"),
        (TlsKeyType::EcP521, "EC_P521"),
        (TlsKeyType::BrainpoolP256, "BrainpoolP256"),
        (TlsKeyType::BrainpoolP384, "BrainpoolP384"),
        (TlsKeyType::BrainpoolP512, "BrainpoolP512"),
    ];
    for (t, name) in types {
        assert_eq!(t.to_string(), name);
        assert_eq!(TlsKeyType::from_name(name), Some(t));
    }
    assert_eq!(TlsKeyType::from_name("EC_P512"), None);
    assert_eq!(TlsKeyType::from_name("EC_P224"), None);
    assert_eq!(TlsKeyType::default(), TlsKeyType::Rsa);
}

#[test]
fn log_level_names_and_default() {
    for (l, name) in [
        (LogLevel::Debug, "Debug"),
        (LogLevel::Info, "Info"),
        (LogLevel::Warning, "Warning"),
        (LogLevel::Error, "Error"),
    ] {
        assert_eq!(l.to_string(), name);
        assert_eq!(LogLevel::from_name(name), Some(l));
    }
    assert_eq!(LogLevel::default(), LogLevel::Debug);
}

#[test]
fn logging_config_new() {
    let c = LoggingConfig::new("0.0.0.0".into(), 0, LogLevel::Debug);
    assert_eq!(c.ip_address, "0.0.0.0");
    assert_eq!(c.port, 0);
    assert_eq!(c.log_level, LogLevel::Debug);
    let c = LoggingConfig::new("10.1.2.3".into(), 514, LogLevel::Warning);
    assert_eq!(c.ip_address, "10.1.2.3");
    assert_eq!(c.port, 514);
    assert_eq!(c.log_level, LogLevel::Warning);
}

#[test]
fn logging_config_default() {
    let c = LoggingConfig::default();
    assert_eq!(c, LoggingConfig::new(String::new(), 0, LogLevel::Debug));
}

#[test]
fn private_key_pem_arguments_new() {
    let a = PrivateKeyPemArguments::new();
    assert_eq!(a.mechanisms, None);
    assert_eq!(a.restrictions, None);
    assert_eq!(a, PrivateKeyPemArguments::default());
}

#[test]
fn unlock_passphrase_config_new() {
    let c = UnlockPassphraseConfig::new("new".to_owned(), "old".to_owned());
    assert_eq!(c.new_passphrase, "new");
    assert_eq!(c.current_passphrase, "old");
    let d = UnlockPassphraseConfig::default();
    assert_eq!(d.new_passphrase, "");
    assert_eq!(d.current_passphrase, "");
}
