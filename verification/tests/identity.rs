use simplex_core::config::AppConfig;
use simplex_core::identity::{ensure_client_id, new_client_id, new_lock_secret};

fn is_hex_text(s: &str, n: usize) -> bool {
    s.len() == n && s.chars().all(|c| c.is_ascii_digit() || ('a'..='f').contains(&c))
}

#[test]
fn client_id_is_32_hex_digits() {
    let id = new_client_id().unwrap();
    assert!(is_hex_text(&id, 32));
    assert_ne!(Some(id), new_client_id());
}

#[test]
fn stored_client_id_is_kept() {
    let mut config = AppConfig::default();
    config.client_id = Some("abc".into());
    assert_eq!(ensure_client_id(&mut config), Some("abc".to_string()));
    assert_eq!(config.client_id, Some("abc".to_string()));
}

#[test]
fn missing_client_id_is_made_and_stored() {
    let mut config = AppConfig::default();
    let id = ensure_client_id(&mut config).unwrap();
    assert!(is_hex_text(&id, 32));
    assert_eq!(config.client_id, Some(id.clone()));
    assert_eq!(ensure_client_id(&mut config), Some(id));
}

#[test]
fn lock_secret_is_64_hex_digits() {
    let secret = new_lock_secret().unwrap();
    assert!(is_hex_text(&secret, 64));
    assert_ne!(Some(secret), new_lock_secret());
}
