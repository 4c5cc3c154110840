//! Versioned wire protocol between terminals and the gateway.
use vstd::prelude::*;
use vstd::utf8::*;

use crate::models::{
    byte_len, is_identifier_char, Bolt11, DeviceId, Invoice, InvoiceId, PaymentStatus, Sats,
    UnixTimestamp,
};

verus! {

pub const API_VERSION: &'static str = "v1";

pub const HEADER_DEVICE_ID: &'static str = "x-terminal-device-id";

pub const HEADER_SIGNATURE: &'static str = "x-terminal-signature";

pub const HEADER_TIMESTAMP: &'static str = "x-terminal-timestamp";

pub const HEADER_IDEMPOTENCY_KEY: &'static str = "idempotency-key";

/// The longest protocol token (idempotency key or request id) accepted, in bytes.
pub const MAX_TOKEN_LEN: usize = 128;

/// Why a protocol token was rejected; `field` names the offending input.
#[derive(Debug, Clone, Copy, PartialEq, Eq)]
pub enum ProtocolValidationError {
    Empty { field: &'static str },
    TooLong { field: &'static str, max: usize },
    InvalidCharacters { field: &'static str },
}

/// The human readable text of a protocol validation error.
pub open spec fn protocol_message(e: ProtocolValidationError) -> Seq<char> {
    match e {
        ProtocolValidationError::Empty { field } => field@ + " cannot be empty"@,
        ProtocolValidationError::TooLong { field, .. } => field@ + " is too long"@,
        ProtocolValidationError::InvalidCharacters { field } => field@
            + " contains invalid characters"@,
    }
}

impl ProtocolValidationError {
    /// The error's message, as users see it.
    pub fn to_string(&self) -> (text: String)
        ensures
            text@ == protocol_message(*self),
    {
        match self {
            ProtocolValidationError::Empty { field } => String::from_str(field).concat(
                " cannot be empty",
            ),
            ProtocolValidationError::TooLong { field, .. } => String::from_str(field).concat(
                " is too long",
            ),
            ProtocolValidationError::InvalidCharacters { field } => String::from_str(
                field,
            ).concat(" contains invalid characters"),
        }
    }
}

/// Every character of `s` is allowed in a protocol token (the same characters
/// as in identifiers: ASCII letters, digits, `-`, `_` and `.`).
pub open spec fn all_token_chars(s: Seq<char>) -> bool {
    forall|i: int| 0 <= i < s.len() ==> is_identifier_char(#[trigger] s[i])
}

/// The error reported for a token `s` of the field `field` limited to
/// `max_len` bytes, or `None` when `s` is a valid token.
pub open spec fn token_rejection(field: &'static str, s: Seq<char>, max_len: usize) -> Option<
    ProtocolValidationError,
> {
    if s.len() == 0 {
        Some(ProtocolValidationError::Empty { field })
    } else if encode_utf8(s).len() > max_len {
        Some(ProtocolValidationError::TooLong { field, max: max_len })
    } else if !all_token_chars(s) {
        Some(ProtocolValidationError::InvalidCharacters { field })
    } else {
        None
    }
}

/// A protocol token (an idempotency key or a request id) is accepted exactly
/// when it is non-empty, fits in its limit of bytes and is made of ASCII
/// letters, digits, `-`, `_` and `.`; empty text is refused as empty, text over
/// the limit as too long with the limit in the refusal. Tokens are limited to
/// 128 bytes.
pub proof fn law_token_acceptance(field: &'static str, s: Seq<char>, max_len: usize)
    ensures
        MAX_TOKEN_LEN == 128,
        token_rejection(field, s, max_len) is None <==> {
            &&& s.len() > 0
            &&& encode_utf8(s).len() <= max_len
            &&& forall|i: int|
                0 <= i < s.len() ==> ('a' <= #[trigger] s[i] <= 'z') || ('A' <= s[i] <= 'Z') || (
                '0' <= s[i] <= '9') || s[i] == '-' || s[i] == '_' || s[i] == '.'
        },
        s.len() == 0 <==> token_rejection(field, s, max_len) == Some(
            ProtocolValidationError::Empty { field },
        ),
        s.len() > 0 && encode_utf8(s).len() > max_len <==> token_rejection(field, s, max_len)
            == Some(ProtocolValidationError::TooLong { field, max: max_len }),
{
}

/// `s` is a non-empty token of at most `max_len` bytes made of allowed characters.
pub open spec fn valid_token(s: Seq<char>, max_len: usize) -> bool {
    s.len() > 0 && encode_utf8(s).len() <= max_len && all_token_chars(s)
}

fn only_token_chars(value: &str) -> (b: bool)
    ensures
        b == all_token_chars(value@),
{
    broadcast use vstd::string::group_string_axioms;

    for c in iter: value.chars()
        invariant
            iter.seq() == value@,
            forall|i: int| 0 <= i < iter.index() ==> is_identifier_char(#[trigger] value@[i]),
    {
        if !(('a' <= c && c <= 'z') || ('A' <= c && c <= 'Z') || ('0' <= c && c <= '9') || c == '-'
            || c == '_' || c == '.') {
            assert(!is_identifier_char(value@[iter.index() as int]));
            return false;
        }
    }
    true
}

/// Checks `value` as a protocol token of `field`, limited to `max_len` bytes,
/// and returns an owned copy when it is valid.
pub fn validate_token(field: &'static str, value: &str, max_len: usize) -> (res: Result<
    String,
    ProtocolValidationError,
>)
    ensures
        match res {
            Ok(text) => token_rejection(field, value@, max_len) is None && text@ == value@,
            Err(e) => token_rejection(field, value@, max_len) == Some(e),
        },
{
    if value.is_empty() {
        return Err(ProtocolValidationError::Empty { field });
    }
    if byte_len(value) > max_len {
        return Err(ProtocolValidationError::TooLong { field, max: max_len });
    }
    if !only_token_chars(value) {
        return Err(ProtocolValidationError::InvalidCharacters { field });
    }
    Ok(value.to_owned())
}

/// A client supplied key that makes invoice creation safe to retry.
#[derive(Debug, PartialEq, Eq, Hash)]
pub struct IdempotencyKey(String);

impl View for IdempotencyKey {
    type V = Seq<char>;

    closed spec fn view(&self) -> Seq<char> {
        self.0@
    }
}

impl Clone for IdempotencyKey {
    fn clone(&self) -> (copy: Self)
        ensures
            copy == *self,
    {
        proof {
            use_type_invariant(self);
        }
        IdempotencyKey(self.0.clone())
    }
}

impl IdempotencyKey {
    #[verifier::type_invariant]
    spec fn well_formed(self) -> bool {
        valid_token(self.0@, MAX_TOKEN_LEN)
    }

    pub fn new(value: &str) -> (res: Result<Self, ProtocolValidationError>)
        ensures
            match res {
                Ok(key) => token_rejection("idempotency_key", value@, MAX_TOKEN_LEN) is None
                    && key@ == value@,
                Err(e) => token_rejection("idempotency_key", value@, MAX_TOKEN_LEN) == Some(e),
            },
    {
        match validate_token("idempotency_key", value, MAX_TOKEN_LEN) {
            Ok(text) => Ok(IdempotencyKey(text)),
            Err(e) => Err(e),
        }
    }

    pub fn as_str(&self) -> (text: &str)
        ensures
            text@ == self@,
            valid_token(self@, MAX_TOKEN_LEN),
    {
        proof {
            use_type_invariant(self);
        }
        self.0.as_str()
    }

    /// The text, as an owned string.
    pub fn to_string(&self) -> (text: String)
        ensures
            text@ == self@,
    {
        self.0.clone()
    }
}

/// The identifier the gateway gives each error response.
#[derive(Debug, PartialEq, Eq, Hash)]
pub struct RequestId(String);

impl View for RequestId {
    type V = Seq<char>;

    closed spec fn view(&self) -> Seq<char> {
        self.0@
    }
}

impl Clone for RequestId {
    fn clone(&self) -> (copy: Self)
        ensures
            copy == *self,
    {
        proof {
            use_type_invariant(self);
        }
        RequestId(self.0.clone())
    }
}

impl RequestId {
    #[verifier::type_invariant]
    spec fn well_formed(self) -> bool {
        valid_token(self.0@, MAX_TOKEN_LEN)
    }

    pub fn new(value: &str) -> (res: Result<Self, ProtocolValidationError>)
        ensures
            match res {
                Ok(id) => token_rejection("request_id", value@, MAX_TOKEN_LEN) is None && id@
                    == value@,
                Err(e) => token_rejection("request_id", value@, MAX_TOKEN_LEN) == Some(e),
            },
    {
        match validate_token("request_id", value, MAX_TOKEN_LEN) {
            Ok(text) => Ok(RequestId(text)),
            Err(e) => Err(e),
        }
    }

    pub fn as_str(&self) -> (text: &str)
        ensures
            text@ == self@,
            valid_token(self@, MAX_TOKEN_LEN),
    {
        proof {
            use_type_invariant(self);
        }
        self.0.as_str()
    }

    /// The text, as an owned string.
    pub fn to_string(&self) -> (text: String)
        ensures
            text@ == self@,
    {
        self.0.clone()
    }

    /// The request id used when a generated one is refused.
    pub fn fallback() -> (id: Self)
        ensures
            id@ == REQUEST_ID_FALLBACK@,
    {
        proof {
            lemma_fallback_request_id_is_valid();
        }
        match RequestId::new(REQUEST_ID_FALLBACK) {
            Ok(id) => id,
            Err(_) => RequestId(String::from_str(REQUEST_ID_FALLBACK)),
        }
    }
}

/// The request id of an error answer when a generated one is refused.
pub const REQUEST_ID_FALLBACK: &'static str = "request-id-generation-failed";

/// The fallback request id is itself a valid request id.
pub proof fn lemma_fallback_request_id_is_valid()
    ensures
        token_rejection("request_id", REQUEST_ID_FALLBACK@, MAX_TOKEN_LEN) is None,
{
    reveal_strlit("request-id-generation-failed");
    let s = REQUEST_ID_FALLBACK@;
    assert(s.len() == 28);
    assert forall|i: int| 0 <= i < s.len() implies is_identifier_char(#[trigger] s[i]) by {
        assert(i == 0 || i == 1 || i == 2 || i == 3 || i == 4 || i == 5 || i == 6 || i == 7 || i == 8 || i == 9 || i == 10 || i == 11 || i == 12 || i == 13 || i == 14 || i == 15 || i == 16 || i == 17 || i == 18 || i == 19 || i == 20 || i == 21 || i == 22 || i == 23 || i == 24 || i == 25 || i == 26 || i == 27);
    }
    assert(is_ascii_chars(s)) by {
        assert forall|i: int| 0 <= i < s.len() implies '\0' <= #[trigger] s[i] <= '\u{7f}' by {
            assert(is_identifier_char(s[i]));
        }
    }
    is_ascii_chars_encode_utf8(s);
}

/// The authentication a terminal attaches to each request.
#[derive(Debug, Clone, PartialEq, Eq)]
pub struct DeviceAuth {
    pub device_id: DeviceId,
    pub timestamp: UnixTimestamp,
    pub signature: String,
}

/// Body of `POST /v1/invoices`.
#[derive(Debug, Clone, PartialEq, Eq)]
pub struct CreateInvoiceRequest {
    pub amount_sats: Sats,
}

/// Answer to `POST /v1/invoices`.
#[derive(Debug, Clone, PartialEq, Eq)]
pub struct CreateInvoiceResponse {
    pub invoice_id: InvoiceId,
    pub amount_sats: Sats,
    pub bolt11: Bolt11,
    pub expires_at: UnixTimestamp,
}

/// The creation answer that describes `invoice`.
pub open spec fn create_response_of(invoice: Invoice) -> CreateInvoiceResponse {
    CreateInvoiceResponse {
        invoice_id: invoice.id,
        amount_sats: invoice.amount,
        bolt11: invoice.bolt11,
        expires_at: invoice.expires_at,
    }
}

impl CreateInvoiceResponse {
    pub fn from(invoice: &Invoice) -> (response: Self)
        ensures
            response == create_response_of(*invoice),
    {
        CreateInvoiceResponse {
            invoice_id: invoice.id.clone(),
            amount_sats: invoice.amount,
            bolt11: invoice.bolt11.clone(),
            expires_at: invoice.expires_at,
        }
    }
}

/// Answer to `GET /v1/invoices/{invoice_id}`.
#[derive(Debug, Clone, PartialEq, Eq)]
pub struct GetInvoiceResponse {
    pub invoice_id: InvoiceId,
    pub status: PaymentStatus,
    pub amount_sats: Sats,
}

/// The lookup answer that describes `invoice`.
pub open spec fn get_response_of(invoice: Invoice) -> GetInvoiceResponse {
    GetInvoiceResponse { invoice_id: invoice.id, status: invoice.status, amount_sats: invoice.amount }
}

impl GetInvoiceResponse {
    pub fn from(invoice: &Invoice) -> (response: Self)
        ensures
            response == get_response_of(*invoice),
    {
        GetInvoiceResponse {
            invoice_id: invoice.id.clone(),
            status: invoice.status,
            amount_sats: invoice.amount,
        }
    }
}

/// Body of every error answer of the gateway.
#[derive(Debug, Clone, PartialEq, Eq)]
pub struct ErrorResponse {
    pub code: String,
    pub message: String,
    pub request_id: RequestId,
}

impl ErrorResponse {
    pub fn new(code: String, message: String, request_id: RequestId) -> (response: Self)
        ensures
            response == (ErrorResponse { code, message, request_id }),
    {
        ErrorResponse { code, message, request_id }
    }
}

impl core::str::FromStr for IdempotencyKey {
    type Err = ProtocolValidationError;

    /// Reads `value` as `IdempotencyKey::new` checks it.
    fn from_str(value: &str) -> (res: Result<Self, Self::Err>)
        ensures
            match res {
                Ok(key) => token_rejection("idempotency_key", value@, MAX_TOKEN_LEN) is None
                    && key@ == value@,
                Err(e) => token_rejection("idempotency_key", value@, MAX_TOKEN_LEN) == Some(e),
            },
    {
        Self::new(value)
    }
}

} // verus!
