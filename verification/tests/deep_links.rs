use simplex_core::deep_links::{
    construct_plex_url, deep_link_from_parsed_url, direct_web_url_from_parsed_url,
    extract_direct_web_url_from_deep_link, extract_token_from_url, first_token_pair_exec,
    fragment_token_exec, is_oauth_url, link_target_exec, oauth_target_exec, parse_deep_link,
    token_from_parsed_url, web_url_target_exec, DeepLinkError,
};
use simplex_core::web::ParsedUrl;

fn parsed(scheme: &str, host: Option<&str>, path: &str, pairs: &[(&str, &str)], fragment: Option<&str>) -> ParsedUrl {
    ParsedUrl {
        scheme: scheme.to_string(),
        host: host.map(|h| h.to_string()),
        port: None,
        path: path.to_string(),
        query_pairs: pairs.iter().map(|(k, v)| (k.to_string(), v.to_string())).collect(),
        fragment: fragment.map(|f| f.to_string()),
    }
}


#[test]
fn deep_links_test_parse_deep_link() {
    // Format 2: simplex://server/{serverId}/details?key={key}
    let result = parse_deep_link(
        "simplex://server/5e30efc7d6347d6365e8a4f11c03fd3fc334fd60/details?key=/library/metadata/102033&context=source:hub.tv.inprogress~0~0",
    )
    .unwrap();
    assert_eq!(result.base_url, None);
    assert_eq!(
        result.server_id,
        Some("5e30efc7d6347d6365e8a4f11c03fd3fc334fd60".to_string())
    );
    assert_eq!(
        result.key,
        Some("/library/metadata/102033".to_string())
    );
    assert!(result.extra_query.is_some());
    assert!(result.extra_query.unwrap().contains("context"));

    // OAuth callback
    let result = parse_deep_link("simplex://auth?token=abc123").unwrap();
    assert!(result.base_url.is_some());
    let base_url_str = result.base_url.unwrap();
    assert!(
        base_url_str.contains("oauth://token") || base_url_str.contains("token=abc123")
    );

    // Format 3: baseUrl override
    let result = parse_deep_link(
        "simplex://open?baseUrl=http%3A%2F%2Flocalhost%3A32400&key=%2Flibrary%2Fmetadata%2F123",
    )
    .unwrap();
    assert_eq!(result.base_url, Some("http://localhost:32400".to_string()));
    assert_eq!(result.key, Some("/library/metadata/123".to_string()));

    // Format 4: Simple key-only
    let result = parse_deep_link("simplex://open?key=/library/metadata/456").unwrap();
    assert_eq!(result.base_url, None);
    assert_eq!(result.server_id, None);
    assert_eq!(result.key, Some("/library/metadata/456".to_string()));

    // Invalid scheme
    assert!(parse_deep_link("https://example.com").is_err());
}

#[test]
fn deep_links_test_parse_deep_link_format1_port_preservation() {
    // Format 1: simplex://open?url={encoded_url}
    let encoded_with_port = urlencoding::encode(
        "http://192.168.1.100:32400/web/index.html#!/server/abc123/details?key=/library/metadata/123",
    );
    let result = parse_deep_link(&format!("simplex://open?url={}", encoded_with_port)).unwrap();
    assert_eq!(
        result.base_url,
        Some("http://192.168.1.100:32400".to_string())
    );
    assert_eq!(result.key, Some("/web/index.html".to_string()));

    let encoded_no_port = urlencoding::encode(
        "https://plex.example.com/web/index.html#!/details?key=/library/metadata/456",
    );
    let result = parse_deep_link(&format!("simplex://open?url={}", encoded_no_port)).unwrap();
    assert_eq!(
        result.base_url,
        Some("https://plex.example.com".to_string())
    );
    assert_eq!(result.key, Some("/web/index.html".to_string()));

    let encoded_custom_port = urlencoding::encode(
        "http://localhost:8080/web/index.html#!/details?key=/library/metadata/789",
    );
    let result = parse_deep_link(&format!("simplex://open?url={}", encoded_custom_port)).unwrap();
    assert_eq!(result.base_url, Some("http://localhost:8080".to_string()));
}

#[test]
fn deep_links_test_extract_token_from_url() {
    // Test simplex:// URLs
    assert_eq!(
        extract_token_from_url("simplex://auth?token=abc123"),
        Some("abc123".to_string())
    );
    assert_eq!(
        extract_token_from_url("simplex://auth?token=abc123&other=value"),
        Some("abc123".to_string())
    );
    assert_eq!(
        extract_token_from_url("simplex://auth?other=value&token=xyz789"),
        Some("xyz789".to_string())
    );

    // Test plex-desktop:// URLs (backwards compatibility)
    assert_eq!(
        extract_token_from_url("plex-desktop://auth?token=abc123"),
        Some("abc123".to_string())
    );
    assert_eq!(
        extract_token_from_url("plex-desktop://auth?token=abc123&other=value"),
        Some("abc123".to_string())
    );

    // Test regular URLs with query params
    assert_eq!(
        extract_token_from_url("https://example.com/callback?token=test123"),
        Some("test123".to_string())
    );
    assert_eq!(
        extract_token_from_url("https://example.com/callback?access_token=test456"),
        Some("test456".to_string())
    );

    // Test URLs with hash fragments
    assert_eq!(
        extract_token_from_url("https://example.com/callback#token=fragment123"),
        Some("fragment123".to_string())
    );

    // Test URLs without tokens
    assert_eq!(extract_token_from_url("https://example.com"), None);
    assert_eq!(extract_token_from_url("simplex://server/123"), None);
}

#[test]
fn deep_links_test_is_oauth_url() {
    assert!(is_oauth_url("https://plex.tv/auth"));
    assert!(is_oauth_url("https://plex.tv/login"));
    assert!(is_oauth_url("https://plex.tv/sign-in"));
    assert!(is_oauth_url("https://example.com/oauth2/authorize"));
    assert!(is_oauth_url("https://example.com/authorize"));

    assert!(!is_oauth_url("https://app.plex.tv"));
    assert!(!is_oauth_url("https://plex.tv/web"));
}

#[test]
fn deep_links_test_construct_plex_url() {
    let url = construct_plex_url(
        "http://localhost:32400",
        Some("abc123"),
        Some("/library/metadata/456"),
        None,
    );
    assert!(url.contains("http://localhost:32400/web/index.html"));
    assert!(url.contains("#!/server/abc123/details"));
    assert!(url.contains("key=%2Flibrary%2Fmetadata%2F456"));

    let url = construct_plex_url(
        "http://localhost:32400",
        None,
        Some("/library/metadata/789"),
        None,
    );
    assert!(url.contains("#!/details"));
    assert!(url.contains("key=%2Flibrary%2Fmetadata%2F789"));

    let url = construct_plex_url(
        "http://localhost:32400",
        Some("abc123"),
        Some("/library/metadata/456"),
        Some("context=test"),
    );
    assert!(url.contains("key="));
    assert!(url.contains("context=test"));
}

#[test]
fn test_extract_direct_web_url_from_deep_link() {
    let encoded = urlencoding::encode("https://192.168.1.100:32400/web/index.html#!/details?key=/library/metadata/123");
    let result = extract_direct_web_url_from_deep_link(&format!("simplex://open?url={}", encoded));
    assert_eq!(
        result,
        Some("https://192.168.1.100:32400/web/index.html#!/details?key=/library/metadata/123".to_string())
    );

    // plex-desktop backwards compatibility
    let result = extract_direct_web_url_from_deep_link(&format!("plex-desktop://open?url={}", encoded));
    assert!(result.is_some());

    // Wrong scheme
    assert!(extract_direct_web_url_from_deep_link("https://example.com").is_none());
}

#[test]
fn test_parse_deep_link_errors() {
    assert!(matches!(parse_deep_link("https://example.com"), Err(DeepLinkError::InvalidScheme)));
    match parse_deep_link("not a url") {
        Err(DeepLinkError::InvalidUrl(m)) => assert_eq!(m, "relative URL without a base"),
        other => panic!("unexpected {:?}", other),
    }
}

#[test]
fn lib_test_construct_plex_url() {
    let url = construct_plex_url("http://localhost:32400", Some("abc123"), Some("/library/metadata/456"), None);
    assert!(url.contains("http://localhost:32400/web/index.html"));
    assert!(url.contains("#!/server/abc123/details"));
    assert!(url.contains("key=%2Flibrary%2Fmetadata%2F456"));

    let url = construct_plex_url("http://localhost:32400", None, Some("/library/metadata/789"), None);
    assert!(url.contains("#!/details"));
    assert!(url.contains("key=%2Flibrary%2Fmetadata%2F789"));

    let url = construct_plex_url("http://localhost:32400", Some("abc123"), Some("/library/metadata/456"), Some("context=test"));
    assert!(url.contains("key="));
    assert!(url.contains("context=test"));
}

#[test]
fn parsed_deep_link_reads_server_links() {
    let u = parsed("simplex", Some("server"), "/abc/details", &[("key", "/library/metadata/7")], None);
    let r = deep_link_from_parsed_url(&u).unwrap();
    assert_eq!(r.server_id.as_deref(), Some("abc"));
    assert_eq!(r.key.as_deref(), Some("/library/metadata/7"));
    assert!(r.base_url.is_none());
    let t = link_target_exec(&u).unwrap();
    assert_eq!(t.server_id.as_deref(), Some("abc"));
}

#[test]
fn parsed_deep_link_refuses_other_schemes() {
    let u = parsed("https", Some("server"), "/abc", &[("key", "k")], None);
    assert!(matches!(deep_link_from_parsed_url(&u), Err(DeepLinkError::InvalidScheme)));
    let empty = parsed("simplex", Some("nowhere"), "", &[], None);
    assert!(matches!(link_target_exec(&empty), Err(DeepLinkError::UnableToParse)));
}

#[test]
fn oauth_and_web_targets_from_pairs() {
    let pairs = vec![("token".to_string(), "abc".to_string())];
    let t = oauth_target_exec("/auth", &pairs).unwrap();
    assert_eq!(t.base_url.as_deref(), Some("oauth://token?token=abc"));
    assert!(oauth_target_exec("/other", &pairs).is_none());
    let web = vec![("url".to_string(), "https%3A%2F%2Fapp.plex.tv%3A8443%2Fdesktop".to_string())];
    let w = web_url_target_exec(&web).unwrap();
    assert_eq!(w.base_url.as_deref(), Some("https://app.plex.tv:8443"));
    assert_eq!(w.key.as_deref(), Some("/desktop"));
    assert!(web_url_target_exec(&pairs).is_none());
}

#[test]
fn tokens_from_parsed_urls() {
    let pairs = vec![("a".to_string(), "1".to_string()), ("access_token".to_string(), "xyz".to_string())];
    assert_eq!(first_token_pair_exec(&pairs).as_deref(), Some("xyz"));
    assert_eq!(fragment_token_exec("a=1&authToken=q").as_deref(), Some("q"));
    assert!(fragment_token_exec("a=1").is_none());
    let u = parsed("https", Some("example.com"), "/cb", &[("x", "1")], Some("token=frag"));
    assert_eq!(token_from_parsed_url(&u).as_deref(), Some("frag"));
    let q = parsed("https", Some("example.com"), "/cb", &[("token", "query")], Some("token=frag"));
    assert_eq!(token_from_parsed_url(&q).as_deref(), Some("query"));
}

#[test]
fn direct_web_url_from_parsed_open_link() {
    let u = parsed("plex-desktop", Some("open"), "", &[("url", "https%3A%2F%2Fapp.plex.tv%2F")], None);
    assert_eq!(direct_web_url_from_parsed_url(&u).as_deref(), Some("https://app.plex.tv/"));
    let other = parsed("simplex", Some("server"), "", &[("url", "x")], None);
    assert!(direct_web_url_from_parsed_url(&other).is_none());
}

#[test]
fn base_url_escapes_are_decoded_once_more() {
    // The query value is `http%3A%2F%2Fa%2Gb`: valid escapes decode, `%2G` stays.
    let r = parse_deep_link("simplex://x?baseUrl=http%253A%252F%252Fa%252Gb").unwrap();
    assert_eq!(r.base_url.as_deref(), Some("http://a%2Gb"));
    // The query value is `%FF`, which decodes to a byte that is not UTF-8.
    match parse_deep_link("simplex://x?baseUrl=%25FF") {
        Err(DeepLinkError::Other(m)) => assert_eq!(m, "Failed to decode baseUrl"),
        other => panic!("unexpected {:?}", other),
    }
}
