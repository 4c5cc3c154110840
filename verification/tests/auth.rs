use lightning_terminal::auth::{
    header_value, sign_request, signing_payload, validate_timestamp, validate_timestamp_at,
    verify_request, verify_request_at, AuthError, RequestHeaders,
};
use lightning_terminal::config::GatewayConfig;
use lightning_terminal::models::{DeviceId, UnixTimestamp};
use lightning_terminal::protocol::{HEADER_DEVICE_ID, HEADER_SIGNATURE, HEADER_TIMESTAMP};

const BODY: &[u8] = br#"{"amount_sats":10000}"#;
const PAYLOAD: &str = "POST\n/v1/invoices\n1786383000\nc394b7366f3ca54c1708ac013e2442eb43f27d51da14ebf4aa5c1bc8a278e7aa";
const SIGNATURE: &str = "698322a92c610f7d800b1947e9ad681d52d785f671ef42eea106bf2757a00165";

fn config() -> GatewayConfig {
    GatewayConfig {
        device_id: DeviceId::new("dev-terminal-001").unwrap(),
        device_secret: "secret".to_owned(),
        invoice_ttl_seconds: 900,
        auth_max_skew_seconds: 300,
    }
}

fn headers(device: &str, timestamp: &str, signature: &str) -> RequestHeaders {
    let mut headers = RequestHeaders::new();
    headers.insert(HEADER_DEVICE_ID, device.as_bytes());
    headers.insert(HEADER_TIMESTAMP, timestamp.as_bytes());
    headers.insert(HEADER_SIGNATURE, signature.as_bytes());
    headers
}

#[test]
fn signature_roundtrip_verifies() {
    let config = config();
    let path = "/v1/invoices";
    let timestamp = UnixTimestamp::now();
    let body = br#"{"amount_sats":10000}"#;
    let signature = sign_request(&config.device_secret, "POST", path, timestamp, body).unwrap();
    let mut headers = RequestHeaders::new();
    headers.insert(HEADER_DEVICE_ID, b"dev-terminal-001");
    headers.insert(HEADER_TIMESTAMP, timestamp.to_string().as_bytes());
    headers.insert(HEADER_SIGNATURE, signature.as_bytes());

    let verified = verify_request(&config, &headers, "POST", path, body).unwrap();

    assert_eq!(verified, config.device_id);
}

#[test]
fn signing_payload_and_signature_match_known_values() {
    let timestamp = UnixTimestamp::from_secs(1_786_383_000);
    assert_eq!(signing_payload("POST", "/v1/invoices", timestamp, BODY), PAYLOAD);
    assert_eq!(sign_request("secret", "POST", "/v1/invoices", timestamp, BODY).unwrap(), SIGNATURE);
}

#[test]
fn signature_and_timestamp_texts_are_read_as_the_crates_read_them() {
    let config = config();
    let now = 1_786_383_000;
    let check = |timestamp: &str, signature: &str| {
        verify_request_at(
            &config,
            &headers("dev-terminal-001", timestamp, signature),
            "POST",
            "/v1/invoices",
            BODY,
            now,
        )
    };
    assert!(check("+1786383000", SIGNATURE).is_ok());
    assert!(check("01786383000", SIGNATURE).is_ok());
    assert_eq!(
        check("18446744073709551616", SIGNATURE).unwrap_err(),
        AuthError::InvalidHeader(HEADER_TIMESTAMP)
    );
    assert_eq!(check("-1786383000", SIGNATURE).unwrap_err(), AuthError::InvalidHeader(HEADER_TIMESTAMP));
    assert_eq!(check("1786383000", "abc").unwrap_err(), AuthError::InvalidHeader(HEADER_SIGNATURE));
    assert_eq!(check("1786383000", &SIGNATURE[..62]).unwrap_err(), AuthError::InvalidSignature);
    assert_eq!(
        sign_request("other", "POST", "/v1/invoices", UnixTimestamp::from_secs(now), BODY).unwrap()
            == SIGNATURE,
        false
    );
}

#[test]
fn verification_at_a_fixed_instant() {
    let config = config();
    let good = headers("dev-terminal-001", "1786383000", SIGNATURE);
    let verified = verify_request_at(&config, &good, "POST", "/v1/invoices", BODY, 1_786_383_100);
    assert_eq!(verified.unwrap().as_str(), "dev-terminal-001");

    assert_eq!(
        verify_request_at(&config, &good, "POST", "/v1/invoices", BODY, 1_786_383_301).unwrap_err(),
        AuthError::TimestampOutsideSkew
    );
    assert_eq!(
        verify_request_at(&config, &good, "POST", "/v1/invoices", b"{}", 1_786_383_000).unwrap_err(),
        AuthError::InvalidSignature
    );
    assert_eq!(
        verify_request_at(&config, &good, "GET", "/v1/invoices", BODY, 1_786_383_000).unwrap_err(),
        AuthError::InvalidSignature
    );
}

#[test]
fn each_authentication_error() {
    let config = config();
    let now = 1_786_383_000;
    let verify = |headers: &RequestHeaders| {
        verify_request_at(&config, headers, "POST", "/v1/invoices", BODY, now).unwrap_err()
    };

    let mut missing = RequestHeaders::new();
    missing.insert(HEADER_DEVICE_ID, b"dev-terminal-001");
    assert_eq!(verify(&missing), AuthError::MissingHeader(HEADER_SIGNATURE));
    assert_eq!(verify(&RequestHeaders::new()), AuthError::MissingHeader(HEADER_DEVICE_ID));

    let mut unreadable = headers("dev-terminal-001", "1786383000", SIGNATURE);
    unreadable.insert(HEADER_TIMESTAMP, b"17\x01");
    assert_eq!(verify(&unreadable), AuthError::InvalidHeader(HEADER_TIMESTAMP));

    assert_eq!(
        verify(&headers("dev terminal", "1786383000", SIGNATURE)),
        AuthError::InvalidHeader(HEADER_DEVICE_ID)
    );
    assert_eq!(
        verify(&headers("dev-terminal-002", "1786383000", SIGNATURE)),
        AuthError::UnknownDevice
    );
    assert_eq!(
        verify(&headers("dev-terminal-001", "yesterday", SIGNATURE)),
        AuthError::InvalidHeader(HEADER_TIMESTAMP)
    );
    assert_eq!(
        verify(&headers("dev-terminal-001", "1786383000", "xyz")),
        AuthError::InvalidHeader(HEADER_SIGNATURE)
    );
    assert_eq!(
        verify(&headers("dev-terminal-001", "1786383000", "00")),
        AuthError::InvalidSignature
    );
    let upper = SIGNATURE.to_uppercase();
    assert!(verify_request_at(
        &config,
        &headers("dev-terminal-001", "1786383000", &upper),
        "POST",
        "/v1/invoices",
        BODY,
        now
    )
    .is_ok());
}

#[test]
fn auth_error_texts() {
    assert_eq!(AuthError::MissingHeader(HEADER_SIGNATURE).to_string(), "missing header x-terminal-signature");
    assert_eq!(AuthError::InvalidHeader(HEADER_TIMESTAMP).to_string(), "invalid header x-terminal-timestamp");
    assert_eq!(AuthError::UnknownDevice.to_string(), "unknown device");
    assert_eq!(
        AuthError::TimestampOutsideSkew.to_string(),
        "request timestamp is outside the accepted clock skew"
    );
    assert_eq!(AuthError::InvalidSignature.to_string(), "invalid request signature");
}

#[test]
fn timestamps_within_skew() {
    let t = UnixTimestamp::from_secs(1_000);
    assert_eq!(validate_timestamp_at(t, 10, 1_010), Ok(()));
    assert_eq!(validate_timestamp_at(t, 10, 990), Ok(()));
    assert_eq!(validate_timestamp_at(t, 10, 1_011), Err(AuthError::TimestampOutsideSkew));
    assert_eq!(validate_timestamp_at(t, 10, 989), Err(AuthError::TimestampOutsideSkew));
    assert_eq!(validate_timestamp(UnixTimestamp::now(), 60), Ok(()));
    assert_eq!(validate_timestamp(UnixTimestamp::from_secs(0), 60), Err(AuthError::TimestampOutsideSkew));
}

#[test]
fn headers_keep_first_value_and_insert_replaces() {
    let mut headers = RequestHeaders::new();
    headers.append("a", b"1");
    headers.append("a", b"2");
    assert_eq!(headers.get("a"), Some(&b"1"[..]));
    headers.insert("a", b"3");
    assert_eq!(headers.get("a"), Some(&b"3"[..]));
    assert_eq!(headers.get("b"), None);
    assert_eq!(header_value(&headers, "a").unwrap(), "3");
    headers.insert("c", "é".as_bytes());
    assert_eq!(header_value(&headers, "c"), Err(AuthError::InvalidHeader("c")));
    assert_eq!(header_value(&headers, "d"), Err(AuthError::MissingHeader("d")));
}

#[test]
fn signatures_are_64_lowercase_hex_digits() {
    for secret in ["", "secret", "a much longer device secret than a block of sha-256"] {
        let signature =
            sign_request(secret, "GET", "/v1/invoices/x", UnixTimestamp::from_secs(0), b"").unwrap();
        assert_eq!(signature.len(), 64);
        assert!(signature.chars().all(|c| c.is_ascii_digit() || ('a'..='f').contains(&c)));
    }
}
