use simplex_core::auth::get_auth_url;

#[test]
fn test_get_auth_url_contains_required_params() {
    let url = get_auth_url("ABCDEF", "my-client-id");
    assert!(url.starts_with("https://app.plex.tv/auth#?"));
    assert!(url.contains("clientID=my-client-id"));
    assert!(url.contains("code=ABCDEF"));
    assert!(url.contains("Simplex"));
}

#[test]
fn test_get_auth_url_special_characters() {
    let url = get_auth_url("CODE123", "client-with-dashes");
    assert!(url.contains("clientID=client-with-dashes"));
    assert!(url.contains("code=CODE123"));
}

#[test]
fn test_get_auth_url_exact() {
    assert_eq!(
        get_auth_url("C", "id"),
        "https://app.plex.tv/auth#?clientID=id&code=C&context%5Bdevice%5D%5Bproduct%5D=Simplex"
    );
}
