use data_encoding::BASE64URL_NOPAD;
use vegar::token::generate_jwt;

#[test]
fn token_has_hs256_header_and_claims() {
    let token = generate_jwt("alice", "secret", 1_700_000_000).unwrap();
    let parts: Vec<&str> = token.split('.').collect();
    assert_eq!(parts.len(), 3);
    let header = BASE64URL_NOPAD.decode(parts[0].as_bytes()).unwrap();
    assert_eq!(String::from_utf8(header).unwrap(), r#"{"typ":"JWT","alg":"HS256"}"#);
    let claims = BASE64URL_NOPAD.decode(parts[1].as_bytes()).unwrap();
    assert_eq!(String::from_utf8(claims).unwrap(), r#"{"username":"alice","exp":1700000000}"#);
    assert!(!parts[2].is_empty());
}

#[test]
fn token_depends_on_secret_and_is_deterministic() {
    let a = generate_jwt("alice", "secret", 5).unwrap();
    let b = generate_jwt("alice", "secret", 5).unwrap();
    let c = generate_jwt("alice", "other", 5).unwrap();
    assert_eq!(a, b);
    assert_ne!(a, c);
}
