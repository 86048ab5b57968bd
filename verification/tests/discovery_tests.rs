//! Discovery metadata: field contents and the rendered JSON, parsed back
//! with serde_json to check validity.

use umem::discovery::{oauth_authorization_server, oauth_protected_resource_server};

const AUTHKIT: &str = "https://auth.example.com";

#[test]
fn authorization_server_metadata_is_valid_json() {
    let json = oauth_authorization_server(AUTHKIT).to_json();
    let parsed: serde_json::Value = serde_json::from_str(&json).unwrap();
    assert!(parsed.is_object());
}

#[test]
fn code_challenge_methods_are_s256_only() {
    let json = oauth_authorization_server(AUTHKIT).to_json();
    assert!(json.contains("S256"));
    assert!(!json.contains("plain"));
    let parsed: serde_json::Value = serde_json::from_str(&json).unwrap();
    let methods = parsed
        .get("code_challenge_methods_supported")
        .unwrap()
        .as_array()
        .unwrap();
    assert_eq!(methods.len(), 1);
    assert_eq!(methods[0].as_str(), Some("S256"));
}

#[test]
fn authorization_server_endpoints_derive_from_issuer() {
    let m = oauth_authorization_server(AUTHKIT);
    assert_eq!(m.issuer, AUTHKIT);
    assert_eq!(m.authorization_endpoint, format!("{}/oauth2/authorize", AUTHKIT));
    assert_eq!(m.token_endpoint, format!("{}/oauth2/token", AUTHKIT));
    assert_eq!(m.introspection_endpoint, format!("{}/oauth2/introspection", AUTHKIT));
    assert_eq!(m.jwks_uri, format!("{}/oauth2/jwks", AUTHKIT));
    assert_eq!(m.registration_endpoint, format!("{}/oauth2/register", AUTHKIT));
}

#[test]
fn authorization_server_supported_sets() {
    let json = oauth_authorization_server(AUTHKIT).to_json();
    let parsed: serde_json::Value = serde_json::from_str(&json).unwrap();
    let grants = parsed.get("grant_types_supported").unwrap().as_array().unwrap();
    assert_eq!(grants.len(), 2);
    assert_eq!(grants[0].as_str(), Some("authorization_code"));
    assert_eq!(grants[1].as_str(), Some("refresh_token"));
    let scopes = parsed.get("scopes_supported").unwrap().as_array().unwrap();
    assert_eq!(scopes.len(), 4);
    let auth_methods = parsed
        .get("token_endpoint_auth_methods_supported")
        .unwrap()
        .as_array()
        .unwrap();
    assert_eq!(auth_methods.len(), 3);
    assert_eq!(parsed.get("issuer").unwrap().as_str(), Some(AUTHKIT));
}

#[test]
fn protected_resource_metadata_contents() {
    let m = oauth_protected_resource_server("https://m.example.com", AUTHKIT);
    let json = m.to_json();
    let parsed: serde_json::Value = serde_json::from_str(&json).unwrap();
    assert_eq!(parsed.get("resource").unwrap().as_str(), Some("https://m.example.com"));
    let servers = parsed.get("authorization_servers").unwrap().as_array().unwrap();
    assert_eq!(servers.len(), 1);
    assert_eq!(servers[0].as_str(), Some(AUTHKIT));
    let methods = parsed.get("bearer_methods_supported").unwrap().as_array().unwrap();
    assert_eq!(methods.len(), 1);
    assert_eq!(methods[0].as_str(), Some("header"));
}

#[test]
fn rendering_escapes_special_characters() {
    let tricky = "with \"quotes\" and \\slash\\ and\nnewline\tand\u{1}control";
    let m = oauth_protected_resource_server(tricky, AUTHKIT);
    let json = m.to_json();
    let parsed: serde_json::Value = serde_json::from_str(&json).unwrap();
    assert_eq!(parsed.get("resource").unwrap().as_str(), Some(tricky));
}
