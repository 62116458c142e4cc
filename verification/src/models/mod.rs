//! Data types exchanged with the NetHSM API.

pub mod encrypt_mode;
pub mod key_mechanism;
pub mod key_restrictions;
pub mod log_level;
pub mod logging_config;
pub mod private_key_pem_arguments;
pub mod system_state;
pub mod tls_key_type;
pub mod unlock_passphrase_config;

pub use encrypt_mode::EncryptMode;
pub use key_mechanism::KeyMechanism;
pub use key_restrictions::KeyRestrictions;
pub use log_level::LogLevel;
pub use logging_config::LoggingConfig;
pub use private_key_pem_arguments::PrivateKeyPemArguments;
pub use system_state::SystemState;
pub use tls_key_type::TlsKeyType;
pub use unlock_passphrase_config::UnlockPassphraseConfig;
