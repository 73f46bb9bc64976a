//! The decisions around the auth token: it lives in the system keychain,
//! and a token left in the configuration file by older versions is moved
//! there. The keychain itself is reached by the application.
use vstd::prelude::*;
use crate::config::{AppConfig, ConfigError, ConfigFailure};
use crate::text::{concat, opt_view};

verus! {

broadcast use vstd::string::group_string_axioms;

/// Why a keychain operation failed.
#[derive(Debug, PartialEq)]
pub enum KeychainError {
    Keyring(String),
    Config(ConfigError),
}

/// The text of a configuration error.
pub open spec fn config_error_text(e: ConfigFailure) -> Seq<char> {
    match e {
        ConfigFailure::Io(m) => "IO error: "@ + m,
        ConfigFailure::Serialization(m) => "Serialization error: "@ + m,
        ConfigFailure::Validation(m) => m,
        ConfigFailure::NotFound(m) => m,
        ConfigFailure::RateLimited(m) => "Rate limit exceeded: "@ + m,
    }
}

/// A keychain error as values.
pub enum KeychainFailure {
    Keyring(Seq<char>),
    Config(ConfigFailure),
}

impl View for KeychainError {
    type V = KeychainFailure;

    open spec fn view(&self) -> KeychainFailure {
        match self {
            KeychainError::Keyring(m) => KeychainFailure::Keyring(m@),
            KeychainError::Config(e) => KeychainFailure::Config(e@),
        }
    }
}

/// The text of a keychain error.
pub open spec fn keychain_error_text(e: KeychainFailure) -> Seq<char> {
    match e {
        KeychainFailure::Keyring(m) => "Keyring error: "@ + m,
        KeychainFailure::Config(c) => "Config error: "@ + config_error_text(c),
    }
}

impl ConfigError {
    /// The error's text.
    pub fn message(&self) -> (s: String)
        ensures
            s@ == config_error_text(self@),
    {
        match self {
            ConfigError::Io(m) => concat("IO error: ", m.as_str()),
            ConfigError::Serialization(m) => concat("Serialization error: ", m.as_str()),
            ConfigError::Validation(m) => m.clone(),
            ConfigError::NotFound(m) => m.clone(),
            ConfigError::RateLimited(m) => concat("Rate limit exceeded: ", m.as_str()),
        }
    }
}

impl KeychainError {
    /// The error's text.
    pub fn message(&self) -> (s: String)
        ensures
            s@ == keychain_error_text(self@),
    {
        match self {
            KeychainError::Keyring(m) => concat("Keyring error: ", m.as_str()),
            KeychainError::Config(e) => {
                let inner = e.message();
                concat("Config error: ", inner.as_str())
            },
        }
    }
}

/// The next piece of work in moving a legacy token to the keychain.
#[derive(Debug, PartialEq)]
pub enum MigrationStep {
    /// Nothing (more) to do.
    Done,
    /// Ask the keychain whether it already holds a token, and report the answer.
    CheckKeychain,
    /// Store this token in the keychain, and report whether that worked.
    StoreToken(String),
    /// Save the configuration.
    SaveConfig,
    /// The keychain failed; the configuration stays as it is.
    Failed(KeychainError),
}

/// A migration step as values.
pub enum MigrationStepView {
    Done,
    CheckKeychain,
    StoreToken(Seq<char>),
    SaveConfig,
    Failed(KeychainFailure),
}

impl View for MigrationStep {
    type V = MigrationStepView;

    open spec fn view(&self) -> MigrationStepView {
        match self {
            MigrationStep::Done => MigrationStepView::Done,
            MigrationStep::CheckKeychain => MigrationStepView::CheckKeychain,
            MigrationStep::StoreToken(t) => MigrationStepView::StoreToken(t@),
            MigrationStep::SaveConfig => MigrationStepView::SaveConfig,
            MigrationStep::Failed(e) => MigrationStepView::Failed(e@),
        }
    }
}

/// What the keychain answered to the previous step.
#[derive(Debug)]
pub enum MigrationEvent {
    /// No step was taken yet.
    Start,
    /// Whether the keychain holds a token, or why it could not be asked.
    KeychainChecked(Result<bool, KeychainError>),
    /// Whether the token was stored in the keychain.
    TokenStored(Result<(), KeychainError>),
}

/// The configuration without its legacy token.
pub open spec fn without_token(c: AppConfig) -> AppConfig {
    AppConfig { auth_token: None, ..c }
}

/// One step of moving the configuration's legacy token to the keychain,
/// given the keychain's answer to the previous step. Without a legacy
/// token there is nothing to do. Otherwise the keychain is asked first;
/// when it holds a token already, the legacy one is dropped; when it holds
/// none, the legacy token is stored there and leaves the configuration only
/// once the keychain confirmed it. A keychain failure ends the migration
/// with that error and leaves the configuration untouched.
pub fn migrate_token_from_config(config: &mut AppConfig, event: MigrationEvent) -> (step: MigrationStep)
    ensures
        match event {
            MigrationEvent::Start => *final(config) == *old(config) && step@ == (if old(config).auth_token is Some {
                MigrationStepView::CheckKeychain
            } else {
                MigrationStepView::Done
            }),
            MigrationEvent::KeychainChecked(Err(e)) => *final(config) == *old(config)
                && step@ == MigrationStepView::Failed(e@),
            MigrationEvent::KeychainChecked(Ok(false)) => *final(config) == *old(config)
                && step@ == match opt_view(old(config).auth_token) {
                    Some(t) => MigrationStepView::StoreToken(t),
                    None => MigrationStepView::Done,
                },
            MigrationEvent::KeychainChecked(Ok(true)) => *final(config) == without_token(*old(config))
                && step@ == (if old(config).auth_token is Some {
                    MigrationStepView::SaveConfig
                } else {
                    MigrationStepView::Done
                }),
            MigrationEvent::TokenStored(Err(e)) => *final(config) == *old(config)
                && step@ == MigrationStepView::Failed(e@),
            MigrationEvent::TokenStored(Ok(())) => *final(config) == without_token(*old(config))
                && step@ == MigrationStepView::SaveConfig,
        },
{
    match event {
        MigrationEvent::Start => {
            if config.auth_token.is_some() {
                MigrationStep::CheckKeychain
            } else {
                MigrationStep::Done
            }
        },
        MigrationEvent::KeychainChecked(Err(e)) => MigrationStep::Failed(e),
        MigrationEvent::KeychainChecked(Ok(false)) => match &config.auth_token {
            Some(t) => MigrationStep::StoreToken(t.clone()),
            None => MigrationStep::Done,
        },
        MigrationEvent::KeychainChecked(Ok(true)) => {
            if config.auth_token.is_some() {
                config.auth_token = None;
                MigrationStep::SaveConfig
            } else {
                MigrationStep::Done
            }
        },
        MigrationEvent::TokenStored(Err(e)) => MigrationStep::Failed(e),
        MigrationEvent::TokenStored(Ok(())) => {
            config.auth_token = None;
            MigrationStep::SaveConfig
        },
    }
}

/// What the token lookup does with the keychain's answer.
#[derive(Debug, PartialEq)]
pub enum TokenLookup {
    /// The keychain holds this token.
    Found(String),
    /// Move a legacy token to the keychain, then ask the keychain again.
    MigrateThenRetry,
}

/// The token lookup: the keychain's token when it holds one; otherwise the
/// legacy token is moved there first and the keychain asked again.
pub fn get_auth_token(keychain_token: Option<String>) -> (r: TokenLookup)
    ensures
        match keychain_token {
            Some(t) => r matches TokenLookup::Found(x) && x@ == t@,
            None => r is MigrateThenRetry,
        },
{
    match keychain_token {
        Some(t) => TokenLookup::Found(t),
        None => TokenLookup::MigrateThenRetry,
    }
}

/// The configuration as it is written to disk: never with a token, which
/// lives in the keychain only.
pub fn strip_token_for_saving(config: &mut AppConfig)
    ensures
        *final(config) == without_token(*old(config)),
{
    config.auth_token = None;
}

} // verus!
