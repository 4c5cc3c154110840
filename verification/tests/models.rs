use lightning_terminal::models::{
    validate_identifier, Bolt11, DeviceId, Invoice, InvoiceId, PaymentStatus, Sats,
    UnixTimestamp, ValidationError, MAX_BITCOIN_SUPPLY_SATS,
};

#[test]
fn sats_rejects_zero_amounts() {
    let result = Sats::new(0);
    assert!(matches!(
        result,
        Err(ValidationError::ZeroAmount {
            field: "amount_sats"
        })
    ));
}

#[test]
fn invoice_id_rejects_whitespace() {
    let result = InvoiceId::new("invoice 1");
    assert!(matches!(
        result,
        Err(ValidationError::InvalidCharacters {
            field: "invoice_id"
        })
    ));
}

#[test]
fn bolt11_must_start_with_ln() {
    let result = Bolt11::new("bitcoin:bc1...");
    assert!(matches!(
        result,
        Err(ValidationError::InvalidBolt11 { field: "bolt11" })
    ));
}

#[test]
fn sats_bounds_are_the_bitcoin_supply() {
    assert_eq!(MAX_BITCOIN_SUPPLY_SATS, 21_000_000 * 100_000_000);
    assert_eq!(Sats::new(1).unwrap().as_u64(), 1);
    assert_eq!(Sats::new(MAX_BITCOIN_SUPPLY_SATS).unwrap().as_u64(), MAX_BITCOIN_SUPPLY_SATS);
    assert_eq!(
        Sats::new(MAX_BITCOIN_SUPPLY_SATS + 1),
        Err(ValidationError::AmountTooLarge { field: "amount_sats" })
    );
    assert_eq!(Sats::try_from(42u64).unwrap().as_u64(), 42);
    assert_eq!(Sats::new(10_000).unwrap().to_string(), "10000");
}

#[test]
fn identifiers_check_empty_length_and_characters() {
    assert_eq!(DeviceId::new(""), Err(ValidationError::Empty { field: "device_id" }));
    let long = "a".repeat(129);
    assert_eq!(
        DeviceId::new(&long),
        Err(ValidationError::TooLong { field: "device_id", max: 128 })
    );
    assert_eq!(DeviceId::new(&"a".repeat(128)).unwrap().as_str().len(), 128);
    let accented = "é".repeat(65);
    assert_eq!(
        InvoiceId::new(&accented),
        Err(ValidationError::TooLong { field: "invoice_id", max: 128 })
    );
    assert_eq!(
        InvoiceId::new("é"),
        Err(ValidationError::InvalidCharacters { field: "invoice_id" })
    );
    let id = DeviceId::new("dev-terminal_001.a").unwrap();
    assert_eq!(id.as_str(), "dev-terminal_001.a");
    assert_eq!(id.to_string(), "dev-terminal_001.a");
    assert!(id.same_as(&"dev-terminal_001.a".parse::<DeviceId>().unwrap()));
    assert_eq!(
        validate_identifier("thing", "a/b", 10),
        Err(ValidationError::InvalidCharacters { field: "thing" })
    );
    assert_eq!(validate_identifier("thing", "abc", 10).unwrap(), "abc");
}

#[test]
fn bolt11_checks() {
    assert_eq!(Bolt11::new(""), Err(ValidationError::Empty { field: "bolt11" }));
    assert_eq!(
        Bolt11::new(&"l".repeat(4097)),
        Err(ValidationError::TooLong { field: "bolt11", max: 4096 })
    );
    assert_eq!(
        Bolt11::new("lnbc 1"),
        Err(ValidationError::InvalidCharacters { field: "bolt11" })
    );
    assert_eq!(
        Bolt11::new("lnbc\u{0b}1"),
        Err(ValidationError::InvalidCharacters { field: "bolt11" })
    );
    assert_eq!(
        Bolt11::new("lnbcé"),
        Err(ValidationError::InvalidCharacters { field: "bolt11" })
    );
    assert_eq!(Bolt11::new("l"), Err(ValidationError::InvalidBolt11 { field: "bolt11" }));
    assert_eq!(Bolt11::new("LNBC10").unwrap().as_str(), "LNBC10");
    assert_eq!(Bolt11::new("lNtb1").unwrap().to_string(), "lNtb1");
}

#[test]
fn validation_error_texts() {
    assert_eq!(ValidationError::Empty { field: "bolt11" }.to_string(), "bolt11 cannot be empty");
    assert_eq!(
        ValidationError::TooLong { field: "device_id", max: 128 }.to_string(),
        "device_id is too long"
    );
    assert_eq!(
        ValidationError::InvalidCharacters { field: "x" }.to_string(),
        "x contains invalid characters"
    );
    assert_eq!(
        ValidationError::ZeroAmount { field: "amount_sats" }.to_string(),
        "amount_sats must be greater than zero"
    );
    assert_eq!(
        ValidationError::AmountTooLarge { field: "amount_sats" }.to_string(),
        "amount_sats exceeds the maximum Bitcoin supply"
    );
    assert_eq!(
        ValidationError::InvalidBolt11 { field: "bolt11" }.to_string(),
        "bolt11 is not a valid BOLT11 invoice"
    );
}

#[test]
fn invoices_are_created_pending_and_can_be_marked() {
    let mut invoice = Invoice::new(
        InvoiceId::new("inv-1").unwrap(),
        Sats::new(5).unwrap(),
        Bolt11::new("lnbc5").unwrap(),
        UnixTimestamp::from_secs(7),
    );
    assert_eq!(invoice.status, PaymentStatus::Pending);
    invoice.mark_paid();
    assert_eq!(invoice.status, PaymentStatus::Paid);
    invoice.mark_expired();
    assert_eq!(invoice.status, PaymentStatus::Expired);
    assert_eq!(invoice.expires_at.as_secs(), 7);
    assert_eq!(UnixTimestamp::from_secs(1_786_383_000).to_string(), "1786383000");
}

#[test]
fn clock_moves_forward() {
    let now = UnixTimestamp::now().as_secs();
    assert!(now > 1_700_000_000);
    assert!(UnixTimestamp::now_plus_seconds(900).as_secs() >= now + 900);
    assert_eq!(UnixTimestamp::now_plus_seconds(u64::MAX).as_secs(), u64::MAX);
}

#[test]
fn plus_seconds_adds_and_saturates() {
    assert_eq!(UnixTimestamp::from_secs(10).plus_seconds(5).as_secs(), 15);
    assert_eq!(UnixTimestamp::from_secs(1_786_383_000).plus_seconds(900).as_secs(), 1_786_383_900);
    assert_eq!(UnixTimestamp::from_secs(u64::MAX - 1).plus_seconds(5).as_secs(), u64::MAX);
    assert_eq!(UnixTimestamp::from_secs(7).plus_seconds(0).as_secs(), 7);
}
