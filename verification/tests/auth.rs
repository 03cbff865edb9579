use pagerduty::AuthToken;

#[test]
fn make_auth_token_with_str_slice() {
    AuthToken::new("token");
}

#[test]
fn make_auth_token_with_owned_string() {
    AuthToken::new(&String::from("token"));
}

#[test]
fn auth_token_renders_into_header_value() {
    let token = AuthToken::new("0123456789abcdef0123456789abcdef");
    assert_eq!(token.to_header(), "0123456789abcdef0123456789abcdef");
}
