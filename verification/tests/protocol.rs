use lightning_terminal::models::{Bolt11, Invoice, InvoiceId, PaymentStatus, Sats, UnixTimestamp};
use lightning_terminal::protocol::{
    validate_token, CreateInvoiceResponse, ErrorResponse, GetInvoiceResponse, IdempotencyKey,
    ProtocolValidationError, RequestId, API_VERSION, HEADER_DEVICE_ID, HEADER_IDEMPOTENCY_KEY,
    HEADER_SIGNATURE, HEADER_TIMESTAMP, REQUEST_ID_FALLBACK,
};

#[test]
fn idempotency_key_rejects_spaces() {
    let result = IdempotencyKey::new("retry key");
    assert!(matches!(
        result,
        Err(ProtocolValidationError::InvalidCharacters {
            field: "idempotency_key"
        })
    ));
}

#[test]
fn protocol_constants() {
    assert_eq!(API_VERSION, "v1");
    assert_eq!(HEADER_DEVICE_ID, "x-terminal-device-id");
    assert_eq!(HEADER_SIGNATURE, "x-terminal-signature");
    assert_eq!(HEADER_TIMESTAMP, "x-terminal-timestamp");
    assert_eq!(HEADER_IDEMPOTENCY_KEY, "idempotency-key");
}

#[test]
fn tokens_are_checked() {
    assert_eq!(
        RequestId::new(""),
        Err(ProtocolValidationError::Empty { field: "request_id" })
    );
    assert_eq!(
        IdempotencyKey::new(&"k".repeat(129)),
        Err(ProtocolValidationError::TooLong { field: "idempotency_key", max: 128 })
    );
    assert_eq!(IdempotencyKey::new("retry-key-1").unwrap().as_str(), "retry-key-1");
    assert_eq!("retry.key".parse::<IdempotencyKey>().unwrap().to_string(), "retry.key");
    assert_eq!(validate_token("t", "a_b", 3).unwrap(), "a_b");
    assert_eq!(
        validate_token("t", "a_bc", 3),
        Err(ProtocolValidationError::TooLong { field: "t", max: 3 })
    );
    assert_eq!(RequestId::fallback().as_str(), REQUEST_ID_FALLBACK);
    assert_eq!(RequestId::new(REQUEST_ID_FALLBACK).unwrap(), RequestId::fallback());
}

#[test]
fn protocol_error_texts() {
    assert_eq!(
        ProtocolValidationError::Empty { field: "request_id" }.to_string(),
        "request_id cannot be empty"
    );
    assert_eq!(
        ProtocolValidationError::TooLong { field: "request_id", max: 128 }.to_string(),
        "request_id is too long"
    );
    assert_eq!(
        ProtocolValidationError::InvalidCharacters { field: "idempotency_key" }.to_string(),
        "idempotency_key contains invalid characters"
    );
}

#[test]
fn responses_describe_the_invoice() {
    let mut invoice = Invoice::new(
        InvoiceId::new("01JTEST").unwrap(),
        Sats::new(10_000).unwrap(),
        Bolt11::new("lnbc10000n1ptest").unwrap(),
        UnixTimestamp::from_secs(1_786_383_000),
    );
    let created = CreateInvoiceResponse::from(&invoice);
    assert_eq!(created.invoice_id, invoice.id);
    assert_eq!(created.amount_sats, invoice.amount);
    assert_eq!(created.bolt11, invoice.bolt11);
    assert_eq!(created.expires_at, invoice.expires_at);
    invoice.mark_paid();
    let status = GetInvoiceResponse::from(&invoice);
    assert_eq!(status.status, PaymentStatus::Paid);
    assert_eq!(status.invoice_id.as_str(), "01JTEST");
    assert_eq!(status.amount_sats.as_u64(), 10_000);

    let error = ErrorResponse::new("not_found".to_string(), "gone".to_string(), RequestId::new("r1").unwrap());
    assert_eq!(error.code, "not_found");
    assert_eq!(error.message, "gone");
    assert_eq!(error.request_id.as_str(), "r1");
}
