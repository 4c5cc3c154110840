use lightning_terminal::auth::{sign_request, AuthError, RequestHeaders};
use lightning_terminal::config::GatewayConfig;
use lightning_terminal::error::ApiError;
use lightning_terminal::models::{DeviceId, PaymentStatus, Sats, UnixTimestamp};
use lightning_terminal::protocol::{
    CreateInvoiceRequest, HEADER_DEVICE_ID, HEADER_IDEMPOTENCY_KEY, HEADER_SIGNATURE,
    HEADER_TIMESTAMP, REQUEST_ID_FALLBACK,
};
use lightning_terminal::provider::{
    mock_invoice, MockPaymentProvider, PaymentProvider, PaymentProviderError,
};
use lightning_terminal::routes::{
    create_invoice, create_invoice_at, get_invoice, get_invoice_at, health, idempotency_key,
    mock_mark_invoice_paid, AppState,
};
use lightning_terminal::storage::{IdempotencyStore, InvoiceStore};

fn test_config() -> GatewayConfig {
    GatewayConfig {
        device_id: DeviceId::new("dev-terminal-001").unwrap(),
        device_secret: "test-secret".to_owned(),
        invoice_ttl_seconds: 900,
        auth_max_skew_seconds: 300,
    }
}

fn signed_headers(
    config: &GatewayConfig,
    method: &str,
    path: &str,
    body: &str,
    idempotency_key: Option<&str>,
    timestamp: UnixTimestamp,
) -> RequestHeaders {
    let signature =
        sign_request(&config.device_secret, method, path, timestamp, body.as_bytes()).unwrap();
    let mut headers = RequestHeaders::new();
    headers.insert(HEADER_DEVICE_ID, config.device_id.as_str().as_bytes());
    headers.insert(HEADER_TIMESTAMP, timestamp.to_string().as_bytes());
    headers.insert(HEADER_SIGNATURE, signature.as_bytes());
    if let Some(key) = idempotency_key {
        headers.insert(HEADER_IDEMPOTENCY_KEY, key.as_bytes());
    }
    headers
}

fn amount_request(amount: u64) -> Result<CreateInvoiceRequest, String> {
    Ok(CreateInvoiceRequest { amount_sats: Sats::new(amount).unwrap() })
}

#[test]
fn invoice_lifecycle_is_authenticated_and_idempotent() {
    let config = test_config();
    let mut state = AppState::new(config.clone());
    let request_body = r#"{"amount_sats":10000}"#;
    let now = UnixTimestamp::now();

    let headers = signed_headers(&config, "POST", "/v1/invoices", request_body, Some("retry-key-1"), now);
    let (status, created) = create_invoice(
        &mut state,
        &headers,
        "/v1/invoices",
        request_body.as_bytes(),
        amount_request(10_000),
    )
    .unwrap();
    assert_eq!(status, 201);

    let (status, retried) = create_invoice(
        &mut state,
        &headers,
        "/v1/invoices",
        request_body.as_bytes(),
        amount_request(10_000),
    )
    .unwrap();
    assert_eq!(status, 200);
    assert_eq!(created.invoice_id, retried.invoice_id);

    let invoice_path = format!("/v1/invoices/{}", created.invoice_id.as_str());
    let get_headers = signed_headers(&config, "GET", &invoice_path, "", None, now);
    let invoice =
        get_invoice(&state, &get_headers, &invoice_path, created.invoice_id.as_str()).unwrap();
    assert_eq!(invoice.status, PaymentStatus::Pending);

    let paid = mock_mark_invoice_paid(&mut state, created.invoice_id.as_str()).unwrap();
    assert_eq!(paid.status, PaymentStatus::Paid);

    let invoice =
        get_invoice(&state, &get_headers, &invoice_path, created.invoice_id.as_str()).unwrap();
    assert_eq!(invoice.status, PaymentStatus::Paid);
}

#[test]
fn created_invoice_has_mock_shape() {
    let config = test_config();
    let mut state = AppState::new(config.clone());
    let now = UnixTimestamp::from_secs(1_786_383_000);
    let headers = signed_headers(&config, "POST", "/v1/invoices", "{}", Some("k1"), now);
    let (status, created) = create_invoice_at(
        &mut state,
        &headers,
        "/v1/invoices",
        b"{}",
        amount_request(21),
        1_786_383_000,
    )
    .unwrap();
    assert_eq!(status, 201);
    assert_eq!(created.amount_sats.as_u64(), 21);
    let id = created.invoice_id.as_str();
    assert_eq!(id.len(), 36);
    assert_eq!(created.bolt11.as_str(), format!("lnbc21n1p{}", id.replace('-', "")));
    assert!(created.expires_at.as_secs() >= UnixTimestamp::now().as_secs() + 890);

    let other_key = signed_headers(&config, "POST", "/v1/invoices", "{}", Some("k2"), now);
    let (status, second) = create_invoice_at(
        &mut state,
        &other_key,
        "/v1/invoices",
        b"{}",
        amount_request(21),
        1_786_383_000,
    )
    .unwrap();
    assert_eq!(status, 201);
    assert_ne!(second.invoice_id, created.invoice_id);
}

#[test]
fn creation_errors_come_in_order() {
    let config = test_config();
    let mut state = AppState::new(config.clone());
    let now = UnixTimestamp::from_secs(1_786_383_000);
    let at = 1_786_383_000;

    let unsigned = RequestHeaders::new();
    match create_invoice_at(&mut state, &unsigned, "/v1/invoices", b"{}", Err("bad".to_string()), at) {
        Err(ApiError::Auth(AuthError::MissingHeader(name))) => assert_eq!(name, HEADER_DEVICE_ID),
        other => panic!("unexpected {:?}", other),
    }

    let no_key = signed_headers(&config, "POST", "/v1/invoices", "{}", None, now);
    match create_invoice_at(&mut state, &no_key, "/v1/invoices", b"{}", Err("bad".to_string()), at) {
        Err(ApiError::BadRequest(message)) => assert_eq!(message, "missing idempotency-key header"),
        other => panic!("unexpected {:?}", other),
    }

    let bad_key = signed_headers(&config, "POST", "/v1/invoices", "{}", Some("retry key"), now);
    match create_invoice_at(&mut state, &bad_key, "/v1/invoices", b"{}", amount_request(1), at) {
        Err(ApiError::BadRequest(message)) => assert_eq!(
            message,
            "invalid idempotency key: idempotency_key contains invalid characters"
        ),
        other => panic!("unexpected {:?}", other),
    }

    let mut unreadable_key = signed_headers(&config, "POST", "/v1/invoices", "{}", None, now);
    unreadable_key.insert(HEADER_IDEMPOTENCY_KEY, "ké".as_bytes());
    match idempotency_key(&unreadable_key) {
        Err(ApiError::BadRequest(message)) => assert_eq!(message, "invalid idempotency-key header"),
        other => panic!("unexpected {:?}", other),
    }

    let good = signed_headers(&config, "POST", "/v1/invoices", "{}", Some("k"), now);
    match create_invoice_at(&mut state, &good, "/v1/invoices", b"{}", Err("expected value".to_string()), at) {
        Err(ApiError::BadRequest(message)) => assert_eq!(message, "invalid JSON body: expected value"),
        other => panic!("unexpected {:?}", other),
    }
    assert_eq!(state.invoices.get(&lightning_terminal::models::InvoiceId::new("k").unwrap()), None);
}

#[test]
fn lookups_and_confirmations_report_errors() {
    let config = test_config();
    let mut state = AppState::new(config.clone());
    let now = UnixTimestamp::from_secs(1_786_383_000);
    let path = "/v1/invoices/missing";
    let headers = signed_headers(&config, "GET", path, "", None, now);

    match get_invoice_at(&state, &headers, path, "missing", 1_786_383_000) {
        Err(ApiError::NotFound(message)) => assert_eq!(message, "invoice not found"),
        other => panic!("unexpected {:?}", other),
    }
    match get_invoice_at(&state, &headers, path, "not valid", 1_786_383_000) {
        Err(ApiError::BadRequest(message)) => {
            assert_eq!(message, "invalid invoice id: invoice_id contains invalid characters")
        },
        other => panic!("unexpected {:?}", other),
    }
    match get_invoice_at(&state, &headers, path, "missing", 1_786_400_000) {
        Err(ApiError::Auth(AuthError::TimestampOutsideSkew)) => {},
        other => panic!("unexpected {:?}", other),
    }
    match mock_mark_invoice_paid(&mut state, "missing") {
        Err(ApiError::NotFound(message)) => assert_eq!(message, "invoice not found"),
        other => panic!("unexpected {:?}", other),
    }
    match mock_mark_invoice_paid(&mut state, "") {
        Err(ApiError::BadRequest(message)) => assert_eq!(message, "invalid invoice id: invoice_id cannot be empty"),
        other => panic!("unexpected {:?}", other),
    }
}

#[test]
fn error_answers() {
    let (status, body) = ApiError::BadRequest("nope".to_string()).error_response("req-1");
    assert_eq!(status, 400);
    assert_eq!(body.code, "bad_request");
    assert_eq!(body.message, "nope");
    assert_eq!(body.request_id.as_str(), "req-1");

    let (status, body) = ApiError::Auth(AuthError::UnknownDevice).error_response("not a token");
    assert_eq!(status, 401);
    assert_eq!(body.code, "unauthorized");
    assert_eq!(body.message, "unknown device");
    assert_eq!(body.request_id.as_str(), REQUEST_ID_FALLBACK);

    let (status, body) = ApiError::NotFound("gone".to_string()).into_response();
    assert_eq!(status, 404);
    assert_eq!(body.code, "not_found");
    assert_eq!(body.request_id.as_str().len(), 36);

    let error: ApiError = PaymentProviderError::Unavailable.into();
    let (status, body) = error.into_response();
    assert_eq!(status, 502);
    assert_eq!(body.code, "payment_provider_error");
    assert_eq!(body.message, "provider is temporarily unavailable");

    let error: ApiError = AuthError::InvalidSignature.into();
    assert_eq!(error.status_code(), 401);
    assert_eq!(error.message(), "invalid request signature");
}

#[test]
fn provider_behaviour() {
    let amount = Sats::new(10_000).unwrap();
    let expires = UnixTimestamp::from_secs(99);
    let invoice = mock_invoice(amount, "0f8e2d3c-1b2a-4c5d-8e9f-a0b1c2d3e4f5", expires).unwrap();
    assert_eq!(invoice.id.as_str(), "0f8e2d3c-1b2a-4c5d-8e9f-a0b1c2d3e4f5");
    assert_eq!(invoice.bolt11.as_str(), "lnbc10000n1p0f8e2d3c1b2a4c5d8e9fa0b1c2d3e4f5");
    assert_eq!(invoice.status, PaymentStatus::Pending);
    assert_eq!(invoice.expires_at, expires);

    match mock_invoice(amount, "not a uuid", expires) {
        Err(PaymentProviderError::InvalidProviderData(detail)) => {
            assert_eq!(detail, "invoice_id contains invalid characters")
        },
        other => panic!("unexpected {:?}", other),
    }

    let provider = MockPaymentProvider;
    let created = provider.create_invoice(amount, 60).unwrap();
    assert_eq!(created.amount, amount);
    assert_eq!(provider.get_invoice_status(&created), Ok(PaymentStatus::Pending));
    assert_eq!(
        PaymentProviderError::InvalidProviderData("x".to_string()).to_string(),
        "provider returned invalid data: x"
    );
}

#[test]
fn stores_read_back_what_was_written() {
    let provider = MockPaymentProvider;
    let invoice = provider.create_invoice(Sats::new(5).unwrap(), 60).unwrap();
    let mut invoices = InvoiceStore::new();
    invoices.insert(invoice.clone());
    assert_eq!(invoices.get(&invoice.id), Some(invoice.clone()));
    let paid = invoices.mark_paid(&invoice.id).unwrap();
    assert_eq!(paid.status, PaymentStatus::Paid);
    assert_eq!(invoices.get(&invoice.id).unwrap().status, PaymentStatus::Paid);

    let mut records = IdempotencyStore::default();
    let device = DeviceId::new("dev").unwrap();
    let key = lightning_terminal::protocol::IdempotencyKey::new("key").unwrap();
    assert_eq!(records.get(&device, &key), None);
    records.insert(device.clone(), key.clone(), invoice.id.clone());
    assert_eq!(records.get(&device, &key), Some(invoice.id.clone()));
    let other = lightning_terminal::protocol::IdempotencyKey::new("key2").unwrap();
    assert_eq!(records.get(&device, &other), None);
    assert_eq!(health().status, "ok");
}
