use simplex_core::config::{AppConfig, ConfigError};
use simplex_core::discovery::DiscoveryError;
use simplex_core::keychain::{
    get_auth_token, migrate_token_from_config, KeychainError, MigrationEvent, MigrationStep, TokenLookup,
};

#[test]
fn test_migration_without_legacy_token_does_nothing() {
    let mut config = AppConfig::default();
    assert_eq!(migrate_token_from_config(&mut config, MigrationEvent::Start), MigrationStep::Done);
    assert_eq!(
        migrate_token_from_config(&mut config, MigrationEvent::KeychainChecked(Ok(false))),
        MigrationStep::Done
    );
    assert_eq!(
        migrate_token_from_config(&mut config, MigrationEvent::KeychainChecked(Ok(true))),
        MigrationStep::Done
    );
}

#[test]
fn test_migration_moves_token_to_empty_keychain() {
    let mut config = AppConfig::default();
    config.auth_token = Some("legacy".to_string());
    assert_eq!(migrate_token_from_config(&mut config, MigrationEvent::Start), MigrationStep::CheckKeychain);
    assert_eq!(config.auth_token.as_deref(), Some("legacy"));
    assert_eq!(
        migrate_token_from_config(&mut config, MigrationEvent::KeychainChecked(Ok(false))),
        MigrationStep::StoreToken("legacy".to_string())
    );
    assert_eq!(config.auth_token.as_deref(), Some("legacy"));
    assert_eq!(
        migrate_token_from_config(&mut config, MigrationEvent::TokenStored(Ok(()))),
        MigrationStep::SaveConfig
    );
    assert!(config.auth_token.is_none());
}

#[test]
fn test_migration_drops_token_when_keychain_has_one() {
    let mut config = AppConfig::default();
    config.auth_token = Some("legacy".to_string());
    assert_eq!(
        migrate_token_from_config(&mut config, MigrationEvent::KeychainChecked(Ok(true))),
        MigrationStep::SaveConfig
    );
    assert!(config.auth_token.is_none());
}

#[test]
fn test_migration_keeps_token_when_keychain_read_fails() {
    let mut config = AppConfig::default();
    config.auth_token = Some("legacy".to_string());
    config.client_id = Some("client".to_string());
    let step = migrate_token_from_config(
        &mut config,
        MigrationEvent::KeychainChecked(Err(KeychainError::Keyring("locked".to_string()))),
    );
    assert_eq!(step, MigrationStep::Failed(KeychainError::Keyring("locked".to_string())));
    assert_eq!(config.auth_token.as_deref(), Some("legacy"));
    assert_eq!(config.client_id.as_deref(), Some("client"));
}

#[test]
fn test_migration_keeps_token_when_keychain_write_fails() {
    let mut config = AppConfig::default();
    config.auth_token = Some("legacy".to_string());
    let step = migrate_token_from_config(
        &mut config,
        MigrationEvent::TokenStored(Err(KeychainError::Keyring("denied".to_string()))),
    );
    assert_eq!(step, MigrationStep::Failed(KeychainError::Keyring("denied".to_string())));
    assert_eq!(config.auth_token.as_deref(), Some("legacy"));
}

#[test]
fn test_get_auth_token_prefers_keychain() {
    assert_eq!(get_auth_token(Some("t".to_string())), TokenLookup::Found("t".to_string()));
    assert_eq!(get_auth_token(None), TokenLookup::MigrateThenRetry);
}

#[test]
fn test_error_messages() {
    assert_eq!(KeychainError::Keyring("locked".to_string()).message(), "Keyring error: locked");
    let e = KeychainError::Config(ConfigError::RateLimited("slow down".to_string()));
    assert_eq!(e.message(), "Config error: Rate limit exceeded: slow down");
    match DiscoveryError::from_keychain(KeychainError::Keyring("x".to_string())) {
        DiscoveryError::Other(m) => assert_eq!(m, "Keyring error: x"),
        other => panic!("unexpected {:?}", other),
    }
}
