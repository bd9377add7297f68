use base64::Engine;
use scriptorium::auth::{authenticated, credentials_from_decoded, read_credentials, AuthError};
use scriptorium::store::StoreError;

fn basic_header(text: &[u8]) -> Vec<u8> {
    let mut h = b"Basic ".to_vec();
    h.extend_from_slice(
        base64::engine::general_purpose::STANDARD
            .encode(text)
            .as_bytes(),
    );
    h
}

#[test]
fn reads_user_and_password_from_basic_header() {
    let h = basic_header(b"alice:secret");
    let c = read_credentials(Some(&h)).unwrap();
    assert_eq!(c.username, "alice");
    assert_eq!(c.password, "secret");
}

#[test]
fn reads_known_header_value() {
    // "Basic " + base64("Aladdin:open sesame")
    let h = b"Basic QWxhZGRpbjpvcGVuIHNlc2FtZQ==";
    let c = read_credentials(Some(h)).unwrap();
    assert_eq!(c.username, "Aladdin");
    assert_eq!(c.password, "open sesame");
}

#[test]
fn only_first_colon_separates() {
    let h = basic_header(b"bob:pa:ss:word");
    let c = read_credentials(Some(&h)).unwrap();
    assert_eq!(c.username, "bob");
    assert_eq!(c.password, "pa:ss:word");
}

#[test]
fn empty_user_and_password_are_read() {
    let h = basic_header(b":");
    let c = read_credentials(Some(&h)).unwrap();
    assert_eq!(c.username, "");
    assert_eq!(c.password, "");
}

#[test]
fn non_ascii_credentials_are_read() {
    let h = basic_header("jürgen:grüße".as_bytes());
    let c = read_credentials(Some(&h)).unwrap();
    assert_eq!(c.username, "jürgen");
    assert_eq!(c.password, "grüße");
}

#[test]
fn missing_header_is_missing_credentials() {
    assert_eq!(read_credentials(None).unwrap_err(), AuthError::MissingCredentials);
}

#[test]
fn non_text_header_is_invalid_header() {
    let mut h = basic_header(b"alice:secret");
    h.push(0x80);
    assert_eq!(read_credentials(Some(&h)).unwrap_err(), AuthError::InvalidHeader);
    let h2 = b"Basic \x01abc";
    assert_eq!(read_credentials(Some(h2)).unwrap_err(), AuthError::InvalidHeader);
}

#[test]
fn other_scheme_is_invalid_scheme() {
    assert_eq!(read_credentials(Some(b"Bearer abc")).unwrap_err(), AuthError::InvalidScheme);
    assert_eq!(
        read_credentials(Some(b"basic YWxpY2U6c2VjcmV0")).unwrap_err(),
        AuthError::InvalidScheme
    );
    assert_eq!(read_credentials(Some(b"Basic")).unwrap_err(), AuthError::InvalidScheme);
    assert_eq!(read_credentials(Some(b"")).unwrap_err(), AuthError::InvalidScheme);
    assert_eq!(
        read_credentials(Some(b"Basic\tYWxpY2U6c2VjcmV0")).unwrap_err(),
        AuthError::InvalidScheme
    );
}

#[test]
fn bad_base64_is_invalid_encoding() {
    assert_eq!(read_credentials(Some(b"Basic !!!!")).unwrap_err(), AuthError::InvalidEncoding);
    // missing padding is refused by the standard engine
    assert_eq!(
        read_credentials(Some(b"Basic YWxpY2U6c2VjcmV0MQ")).unwrap_err(),
        AuthError::InvalidEncoding
    );
}

#[test]
fn decoded_bytes_not_utf8_is_invalid_encoding() {
    let h = basic_header(&[0xff, b':', 0xfe]);
    assert_eq!(read_credentials(Some(&h)).unwrap_err(), AuthError::InvalidEncoding);
}

#[test]
fn no_colon_is_invalid_format() {
    let h = basic_header(b"alice");
    assert_eq!(read_credentials(Some(&h)).unwrap_err(), AuthError::InvalidFormat);
    let empty = b"Basic ";
    assert_eq!(read_credentials(Some(empty)).unwrap_err(), AuthError::InvalidFormat);
}

#[test]
fn auth_error_statuses() {
    for e in [
        AuthError::MissingCredentials,
        AuthError::InvalidHeader,
        AuthError::InvalidScheme,
        AuthError::InvalidEncoding,
        AuthError::InvalidFormat,
        AuthError::Unauthorized,
    ] {
        assert_eq!(e.status(), 401);
    }
    assert_eq!(AuthError::InternalError.status(), 500);
}

#[test]
fn auth_error_messages() {
    assert_eq!(AuthError::MissingCredentials.message(), "Missing or malformed Authorization header");
    assert_eq!(AuthError::InvalidHeader.message(), "Missing or malformed Authorization header");
    assert_eq!(AuthError::InvalidScheme.message(), "Missing or malformed Authorization header");
    assert_eq!(AuthError::InvalidEncoding.message(), "Invalid credentials format");
    assert_eq!(AuthError::InvalidFormat.message(), "Invalid credentials format");
    assert_eq!(AuthError::Unauthorized.message(), "Invalid username or password");
    assert_eq!(AuthError::InternalError.message(), "Internal server error");
}

#[test]
fn authenticated_maps_the_login_outcome() {
    assert_eq!(authenticated(Ok(Some(42))).unwrap().user_id, 42);
    assert_eq!(authenticated(Ok(None)).unwrap_err(), AuthError::Unauthorized);
    assert_eq!(authenticated(Err(StoreError)).unwrap_err(), AuthError::InternalError);
}

#[test]
fn decoded_credentials_are_split_at_first_colon() {
    let c = credentials_from_decoded(Some(b"carol:a:b".to_vec())).unwrap();
    assert_eq!(c.username, "carol");
    assert_eq!(c.password, "a:b");
}

#[test]
fn decoded_credentials_failures() {
    assert_eq!(credentials_from_decoded(None).unwrap_err(), AuthError::InvalidEncoding);
    assert_eq!(
        credentials_from_decoded(Some(vec![0xc3, 0x28, b':'])).unwrap_err(),
        AuthError::InvalidEncoding
    );
    assert_eq!(
        credentials_from_decoded(Some(b"carol".to_vec())).unwrap_err(),
        AuthError::InvalidFormat
    );
    assert_eq!(credentials_from_decoded(Some(Vec::new())).unwrap_err(), AuthError::InvalidFormat);
}
