//! Strong domain types for Lightning payments: amounts, timestamps,
//! identifiers, BOLT11 invoices and payments.
use vstd::prelude::*;
use vstd::utf8::*;

use crate::clock::elapsed_since_epoch;
use crate::text::{decimal_string, decimal_text};

verus! {

/// The largest amount of satoshis that can ever exist (21 million bitcoin).
pub const MAX_BITCOIN_SUPPLY_SATS: u64 = 2_100_000_000_000_000;

/// The longest identifier (device or invoice id) that is accepted, in bytes.
pub const MAX_IDENTIFIER_LEN: usize = 128;

/// The longest BOLT11 invoice string that is accepted, in bytes.
pub const MAX_BOLT11_LEN: usize = 4096;

/// Why a domain value was rejected; `field` names the offending input.
#[derive(Debug, Clone, Copy, PartialEq, Eq)]
pub enum ValidationError {
    Empty { field: &'static str },
    TooLong { field: &'static str, max: usize },
    InvalidCharacters { field: &'static str },
    ZeroAmount { field: &'static str },
    AmountTooLarge { field: &'static str },
    InvalidBolt11 { field: &'static str },
}

/// The human readable text of a validation error.
pub open spec fn validation_message(e: ValidationError) -> Seq<char> {
    match e {
        ValidationError::Empty { field } => field@ + " cannot be empty"@,
        ValidationError::TooLong { field, .. } => field@ + " is too long"@,
        ValidationError::InvalidCharacters { field } => field@ + " contains invalid characters"@,
        ValidationError::ZeroAmount { field } => field@ + " must be greater than zero"@,
        ValidationError::AmountTooLarge { field } => field@ + " exceeds the maximum Bitcoin supply"@,
        ValidationError::InvalidBolt11 { field } => field@ + " is not a valid BOLT11 invoice"@,
    }
}

impl ValidationError {
    /// The error's message, as users see it.
    pub fn to_string(&self) -> (text: String)
        ensures
            text@ == validation_message(*self),
    {
        match self {
            ValidationError::Empty { field } => String::from_str(field).concat(" cannot be empty"),
            ValidationError::TooLong { field, .. } => String::from_str(field).concat(" is too long"),
            ValidationError::InvalidCharacters { field } => String::from_str(field).concat(
                " contains invalid characters",
            ),
            ValidationError::ZeroAmount { field } => String::from_str(field).concat(
                " must be greater than zero",
            ),
            ValidationError::AmountTooLarge { field } => String::from_str(field).concat(
                " exceeds the maximum Bitcoin supply",
            ),
            ValidationError::InvalidBolt11 { field } => String::from_str(field).concat(
                " is not a valid BOLT11 invoice",
            ),
        }
    }
}

/// The error `Sats::new` reports for `value`, or `None` when it is a valid amount.
pub open spec fn sats_rejection(value: u64) -> Option<ValidationError> {
    if value == 0 {
        Some(ValidationError::ZeroAmount { field: "amount_sats" })
    } else if value > MAX_BITCOIN_SUPPLY_SATS {
        Some(ValidationError::AmountTooLarge { field: "amount_sats" })
    } else {
        None
    }
}

/// A positive amount of satoshis, never above the total bitcoin supply.
#[derive(Debug, Clone, Copy, PartialEq, Eq, Structural, PartialOrd, Ord, Hash)]
pub struct Sats(u64);

impl Sats {
    #[verifier::type_invariant]
    spec fn in_supply(self) -> bool {
        0 < self.0 <= MAX_BITCOIN_SUPPLY_SATS
    }

    /// The number of satoshis.
    pub closed spec fn value(self) -> u64 {
        self.0
    }

    pub fn new(value: u64) -> (res: Result<Self, ValidationError>)
        ensures
            match res {
                Ok(s) => sats_rejection(value) is None && s.value() == value,
                Err(e) => sats_rejection(value) == Some(e),
            },
    {
        if value == 0 {
            return Err(ValidationError::ZeroAmount { field: "amount_sats" });
        }
        if value > MAX_BITCOIN_SUPPLY_SATS {
            return Err(ValidationError::AmountTooLarge { field: "amount_sats" });
        }
        Ok(Sats(value))
    }

    pub fn as_u64(self) -> (v: u64)
        ensures
            v == self.value(),
            0 < v <= MAX_BITCOIN_SUPPLY_SATS,
    {
        proof {
            use_type_invariant(&self);
        }
        self.0
    }

    /// The amount as decimal text.
    pub fn to_string(&self) -> (text: String)
        ensures
            text@ == decimal_text(self.value() as nat),
    {
        decimal_string(self.0)
    }
}

impl TryFrom<u64> for Sats {
    type Error = ValidationError;

    fn try_from(value: u64) -> (res: Result<Self, Self::Error>) {
        Self::new(value)
    }
}

impl vstd::std_specs::convert::TryFromSpecImpl<u64> for Sats {
    open spec fn obeys_try_from_spec() -> bool {
        true
    }

    closed spec fn try_from_spec(v: u64) -> Result<Self, ValidationError> {
        match sats_rejection(v) {
            Some(e) => Err(e),
            None => Ok(Sats(v)),
        }
    }
}

/// `a + b`, or the largest `u64` when the sum does not fit.
pub open spec fn saturating_sum(a: u64, b: u64) -> u64 {
    if a + b > u64::MAX {
        u64::MAX
    } else {
        (a + b) as u64
    }
}

/// Seconds since the Unix epoch.
#[derive(Debug, Clone, Copy, PartialEq, Eq, Structural, PartialOrd, Ord, Hash)]
pub struct UnixTimestamp(u64);

impl UnixTimestamp {
    /// The number of seconds since the epoch.
    pub closed spec fn secs(self) -> u64 {
        self.0
    }

    pub fn from_secs(value: u64) -> (t: Self)
        ensures
            t.secs() == value,
    {
        UnixTimestamp(value)
    }

    /// The current time read from the system clock; zero when the clock
    /// reads before the epoch.
    pub fn now() -> (t: Self) {
        let seconds = match elapsed_since_epoch() {
            Some(elapsed) => elapsed.as_secs(),
            None => 0,
        };
        UnixTimestamp(seconds)
    }

    /// The current time plus `seconds`, saturating at the largest timestamp:
    /// the clock is read once and `plus_seconds` does the rest.
    pub fn now_plus_seconds(seconds: u64) -> (t: Self)
        ensures
            exists|now: u64| t.secs() == #[trigger] saturating_sum(now, seconds),
    {
        Self::now().plus_seconds(seconds)
    }

    /// This timestamp plus `seconds`, saturating at the largest timestamp.
    pub fn plus_seconds(self, seconds: u64) -> (t: Self)
        ensures
            t.secs() == saturating_sum(self.secs(), seconds),
    {
        UnixTimestamp(self.0.saturating_add(seconds))
    }

    pub fn as_secs(self) -> (v: u64)
        ensures
            v == self.secs(),
    {
        self.0
    }

    /// The timestamp as decimal text.
    pub fn to_string(&self) -> (text: String)
        ensures
            text@ == decimal_text(self.secs() as nat),
    {
        decimal_string(self.0)
    }
}

/// Characters allowed in identifiers: ASCII letters, digits, `-`, `_` and `.`.
pub open spec fn is_identifier_char(c: char) -> bool {
    ('a' <= c && c <= 'z') || ('A' <= c && c <= 'Z') || ('0' <= c && c <= '9') || c == '-' || c == '_'
        || c == '.'
}

fn identifier_char(c: char) -> (b: bool)
    ensures
        b == is_identifier_char(c),
{
    ('a' <= c && c <= 'z') || ('A' <= c && c <= 'Z') || ('0' <= c && c <= '9') || c == '-' || c == '_'
        || c == '.'
}

/// The length of `text` in bytes of its UTF-8 encoding.
pub fn byte_len(text: &str) -> (n: usize)
    ensures
        n == encode_utf8(text@).len(),
{
    text.as_bytes().len()
}

/// Every character of `s` is allowed in an identifier.
pub open spec fn all_identifier_chars(s: Seq<char>) -> bool {
    forall|i: int| 0 <= i < s.len() ==> is_identifier_char(#[trigger] s[i])
}

fn only_identifier_chars(value: &str) -> (b: bool)
    ensures
        b == all_identifier_chars(value@),
{
    broadcast use vstd::string::group_string_axioms;

    for c in iter: value.chars()
        invariant
            iter.seq() == value@,
            forall|i: int| 0 <= i < iter.index() ==> is_identifier_char(#[trigger] value@[i]),
    {
        if !identifier_char(c) {
            return false;
        }
    }
    true
}

/// The error reported for an identifier `s` of the field `field` limited to
/// `max_len` bytes, or `None` when `s` is a valid identifier.
pub open spec fn identifier_rejection(field: &'static str, s: Seq<char>, max_len: usize) -> Option<
    ValidationError,
> {
    if s.len() == 0 {
        Some(ValidationError::Empty { field })
    } else if encode_utf8(s).len() > max_len {
        Some(ValidationError::TooLong { field, max: max_len })
    } else if !all_identifier_chars(s) {
        Some(ValidationError::InvalidCharacters { field })
    } else {
        None
    }
}

/// `s` is a non-empty identifier of at most `max_len` bytes made of allowed characters.
pub open spec fn valid_identifier(s: Seq<char>, max_len: usize) -> bool {
    s.len() > 0 && encode_utf8(s).len() <= max_len && all_identifier_chars(s)
}

/// Checks `value` as an identifier of `field`, limited to `max_len` bytes,
/// and returns an owned copy when it is valid.
pub fn validate_identifier(field: &'static str, value: &str, max_len: usize) -> (res: Result<
    String,
    ValidationError,
>)
    ensures
        match res {
            Ok(text) => identifier_rejection(field, value@, max_len) is None && text@ == value@,
            Err(e) => identifier_rejection(field, value@, max_len) == Some(e),
        },
{
    if value.is_empty() {
        return Err(ValidationError::Empty { field });
    }
    if byte_len(value) > max_len {
        return Err(ValidationError::TooLong { field, max: max_len });
    }
    if !only_identifier_chars(value) {
        return Err(ValidationError::InvalidCharacters { field });
    }
    Ok(value.to_owned())
}

/// A validated terminal device identifier.
#[derive(Debug, PartialEq, Eq, Hash)]
pub struct DeviceId(String);

impl View for DeviceId {
    type V = Seq<char>;

    closed spec fn view(&self) -> Seq<char> {
        self.0@
    }
}

impl Clone for DeviceId {
    fn clone(&self) -> (copy: Self)
        ensures
            copy == *self,
    {
        proof {
            use_type_invariant(self);
        }
        DeviceId(self.0.clone())
    }
}

impl DeviceId {
    #[verifier::type_invariant]
    spec fn well_formed(self) -> bool {
        valid_identifier(self.0@, MAX_IDENTIFIER_LEN)
    }

    pub fn new(value: &str) -> (res: Result<Self, ValidationError>)
        ensures
            match res {
                Ok(id) => identifier_rejection("device_id", value@, MAX_IDENTIFIER_LEN) is None
                    && id@ == value@,
                Err(e) => identifier_rejection("device_id", value@, MAX_IDENTIFIER_LEN) == Some(e),
            },
    {
        match validate_identifier("device_id", value, MAX_IDENTIFIER_LEN) {
            Ok(text) => Ok(DeviceId(text)),
            Err(e) => Err(e),
        }
    }

    pub fn as_str(&self) -> (text: &str)
        ensures
            text@ == self@,
            valid_identifier(self@, MAX_IDENTIFIER_LEN),
    {
        proof {
            use_type_invariant(self);
        }
        self.0.as_str()
    }

    /// The text, as an owned string.
    pub fn to_string(&self) -> (text: String)
        ensures
            text@ == self@,
    {
        self.0.clone()
    }

    /// Whether both ids hold the same text.
    pub fn same_as(&self, other: &DeviceId) -> (same: bool)
        ensures
            same == (self@ == other@),
    {
        self.0 == other.0
    }
}

/// A validated invoice identifier.
#[derive(Debug, PartialEq, Eq, Hash)]
pub struct InvoiceId(String);

impl View for InvoiceId {
    type V = Seq<char>;

    closed spec fn view(&self) -> Seq<char> {
        self.0@
    }
}

impl Clone for InvoiceId {
    fn clone(&self) -> (copy: Self)
        ensures
            copy == *self,
    {
        proof {
            use_type_invariant(self);
        }
        InvoiceId(self.0.clone())
    }
}

impl InvoiceId {
    #[verifier::type_invariant]
    spec fn well_formed(self) -> bool {
        valid_identifier(self.0@, MAX_IDENTIFIER_LEN)
    }

    pub fn new(value: &str) -> (res: Result<Self, ValidationError>)
        ensures
            match res {
                Ok(id) => identifier_rejection("invoice_id", value@, MAX_IDENTIFIER_LEN) is None
                    && id@ == value@,
                Err(e) => identifier_rejection("invoice_id", value@, MAX_IDENTIFIER_LEN) == Some(e),
            },
    {
        match validate_identifier("invoice_id", value, MAX_IDENTIFIER_LEN) {
            Ok(text) => Ok(InvoiceId(text)),
            Err(e) => Err(e),
        }
    }

    pub fn as_str(&self) -> (text: &str)
        ensures
            text@ == self@,
            valid_identifier(self@, MAX_IDENTIFIER_LEN),
    {
        proof {
            use_type_invariant(self);
        }
        self.0.as_str()
    }

    /// The text, as an owned string.
    pub fn to_string(&self) -> (text: String)
        ensures
            text@ == self@,
    {
        self.0.clone()
    }

    /// Whether both ids hold the same text.
    pub fn same_as(&self, other: &InvoiceId) -> (same: bool)
        ensures
            same == (self@ == other@),
    {
        self.0 == other.0
    }
}

/// ASCII whitespace as `char::is_whitespace` classifies it: space, and tab
/// through carriage return.
pub open spec fn is_ascii_whitespace_char(c: char) -> bool {
    c == ' ' || ('\t' <= c && c <= '\r')
}

/// `s` starts with `ln`, in either case.
pub open spec fn has_lightning_prefix(s: Seq<char>) -> bool {
    s.len() >= 2 && (s[0] == 'l' || s[0] == 'L') && (s[1] == 'n' || s[1] == 'N')
}

/// The error reported for a BOLT11 invoice text `s`, or `None` when it is accepted.
pub open spec fn bolt11_rejection(s: Seq<char>) -> Option<ValidationError> {
    if s.len() == 0 {
        Some(ValidationError::Empty { field: "bolt11" })
    } else if encode_utf8(s).len() > MAX_BOLT11_LEN {
        Some(ValidationError::TooLong { field: "bolt11", max: MAX_BOLT11_LEN })
    } else if !is_ascii_chars(s) || exists|i: int|
        0 <= i < s.len() && is_ascii_whitespace_char(#[trigger] s[i]) {
        Some(ValidationError::InvalidCharacters { field: "bolt11" })
    } else if !has_lightning_prefix(s) {
        Some(ValidationError::InvalidBolt11 { field: "bolt11" })
    } else {
        None
    }
}

fn contains_ascii_whitespace(value: &str) -> (found: bool)
    ensures
        found == exists|i: int| 0 <= i < value@.len() && is_ascii_whitespace_char(#[trigger] value@[i]),
{
    broadcast use vstd::string::group_string_axioms;

    for c in iter: value.chars()
        invariant
            iter.seq() == value@,
            forall|i: int| 0 <= i < iter.index() ==> !is_ascii_whitespace_char(#[trigger] value@[i]),
    {
        if c == ' ' || ('\t' <= c && c <= '\r') {
            assert(is_ascii_whitespace_char(value@[iter.index() as int]));
            return true;
        }
    }
    false
}

/// A BOLT11 payment request string: ASCII, without whitespace, starting with `ln`.
#[derive(Debug, PartialEq, Eq, Hash)]
pub struct Bolt11(String);

impl View for Bolt11 {
    type V = Seq<char>;

    closed spec fn view(&self) -> Seq<char> {
        self.0@
    }
}

impl Clone for Bolt11 {
    fn clone(&self) -> (copy: Self)
        ensures
            copy == *self,
    {
        proof {
            use_type_invariant(self);
        }
        Bolt11(self.0.clone())
    }
}

impl Bolt11 {
    #[verifier::type_invariant]
    spec fn well_formed(self) -> bool {
        bolt11_rejection(self.0@) is None
    }

    pub fn new(value: &str) -> (res: Result<Self, ValidationError>)
        ensures
            match res {
                Ok(b) => bolt11_rejection(value@) is None && b@ == value@,
                Err(e) => bolt11_rejection(value@) == Some(e),
            },
    {
        broadcast use vstd::string::group_string_axioms;

        if value.is_empty() {
            return Err(ValidationError::Empty { field: "bolt11" });
        }
        if byte_len(value) > MAX_BOLT11_LEN {
            return Err(ValidationError::TooLong { field: "bolt11", max: MAX_BOLT11_LEN });
        }
        if !value.is_ascii() || contains_ascii_whitespace(value) {
            return Err(ValidationError::InvalidCharacters { field: "bolt11" });
        }
        let n = byte_len(value);
        assert(encode_utf8(value@).len() == value@.len()) by {
            is_ascii_chars_encode_utf8(value@);
        }
        if n < 2 {
            return Err(ValidationError::InvalidBolt11 { field: "bolt11" });
        }
        let first = value.get_char(0);
        let second = value.get_char(1);
        if !((first == 'l' || first == 'L') && (second == 'n' || second == 'N')) {
            return Err(ValidationError::InvalidBolt11 { field: "bolt11" });
        }
        Ok(Bolt11(value.to_owned()))
    }

    pub fn as_str(&self) -> (text: &str)
        ensures
            text@ == self@,
            bolt11_rejection(self@) is None,
    {
        proof {
            use_type_invariant(self);
        }
        self.0.as_str()
    }

    /// The text, as an owned string.
    pub fn to_string(&self) -> (text: String)
        ensures
            text@ == self@,
    {
        self.0.clone()
    }
}

/// Where an invoice stands with respect to payment.
#[derive(Debug, Clone, Copy, PartialEq, Eq, Structural, Hash)]
pub enum PaymentStatus {
    Pending,
    Paid,
    Expired,
    Failed,
}

/// A Lightning invoice issued for a fixed amount.
#[derive(Debug, PartialEq, Eq)]
pub struct Invoice {
    pub id: InvoiceId,
    pub amount: Sats,
    pub bolt11: Bolt11,
    pub expires_at: UnixTimestamp,
    pub status: PaymentStatus,
}

impl Clone for Invoice {
    fn clone(&self) -> (copy: Self)
        ensures
            copy == *self,
    {
        Invoice {
            id: self.id.clone(),
            amount: self.amount,
            bolt11: self.bolt11.clone(),
            expires_at: self.expires_at,
            status: self.status,
        }
    }
}

impl Invoice {
    /// A new invoice, still waiting for payment.
    pub fn new(id: InvoiceId, amount: Sats, bolt11: Bolt11, expires_at: UnixTimestamp) -> (invoice:
        Self)
        ensures
            invoice == (Invoice { id, amount, bolt11, expires_at, status: PaymentStatus::Pending }),
    {
        Invoice { id, amount, bolt11, expires_at, status: PaymentStatus::Pending }
    }

    pub fn mark_paid(&mut self)
        ensures
            *final(self) == (Invoice { status: PaymentStatus::Paid, ..*old(self) }),
    {
        self.status = PaymentStatus::Paid;
    }

    pub fn mark_expired(&mut self)
        ensures
            *final(self) == (Invoice { status: PaymentStatus::Expired, ..*old(self) }),
    {
        self.status = PaymentStatus::Expired;
    }
}

/// A payment observed for an invoice.
#[derive(Debug, PartialEq, Eq)]
pub struct Payment {
    pub invoice_id: InvoiceId,
    pub amount: Sats,
    pub status: PaymentStatus,
    pub received_at: UnixTimestamp,
}

impl Clone for Payment {
    fn clone(&self) -> (copy: Self)
        ensures
            copy == *self,
    {
        Payment {
            invoice_id: self.invoice_id.clone(),
            amount: self.amount,
            status: self.status,
            received_at: self.received_at,
        }
    }
}

impl Payment {
    /// A confirmed payment of `amount` for the invoice `invoice_id`.
    pub fn received(invoice_id: InvoiceId, amount: Sats, received_at: UnixTimestamp) -> (payment:
        Self)
        ensures
            payment == (Payment { invoice_id, amount, status: PaymentStatus::Paid, received_at }),
    {
        Payment { invoice_id, amount, status: PaymentStatus::Paid, received_at }
    }
}

impl core::str::FromStr for DeviceId {
    type Err = ValidationError;

    /// Reads `value` as `DeviceId::new` checks it.
    fn from_str(value: &str) -> (res: Result<Self, Self::Err>)
        ensures
            match res {
                Ok(parsed) => identifier_rejection("device_id", value@, MAX_IDENTIFIER_LEN) is None && parsed@ == value@,
                Err(e) => identifier_rejection("device_id", value@, MAX_IDENTIFIER_LEN) == Some(e),
            },
    {
        Self::new(value)
    }
}

impl core::str::FromStr for InvoiceId {
    type Err = ValidationError;

    /// Reads `value` as `InvoiceId::new` checks it.
    fn from_str(value: &str) -> (res: Result<Self, Self::Err>)
        ensures
            match res {
                Ok(parsed) => identifier_rejection("invoice_id", value@, MAX_IDENTIFIER_LEN) is None && parsed@ == value@,
                Err(e) => identifier_rejection("invoice_id", value@, MAX_IDENTIFIER_LEN) == Some(e),
            },
    {
        Self::new(value)
    }
}

impl core::str::FromStr for Bolt11 {
    type Err = ValidationError;

    /// Reads `value` as `Bolt11::new` checks it.
    fn from_str(value: &str) -> (res: Result<Self, Self::Err>)
        ensures
            match res {
                Ok(parsed) => bolt11_rejection(value@) is None && parsed@ == value@,
                Err(e) => bolt11_rejection(value@) == Some(e),
            },
    {
        Self::new(value)
    }
}

/// Two amounts are equal exactly when they hold the same number of satoshis.
pub proof fn lemma_sats_equal_by_value(a: Sats, b: Sats)
    ensures
        (a == b) <==> (a.value() == b.value()),
{
}

/// A BOLT11 invoice text is accepted exactly when it starts with `ln` in
/// either case, is ASCII without whitespace, and is at most 4096 bytes long.
/// Empty text is refused as empty, and only text above 4096 bytes is refused
/// as too long, with the limit of 4096 bytes in the refusal.
pub proof fn law_bolt11_acceptance(s: Seq<char>)
    ensures
        bolt11_rejection(s) is None <==> {
            &&& s.len() >= 2
            &&& s[0] == 'l' || s[0] == 'L'
            &&& s[1] == 'n' || s[1] == 'N'
            &&& encode_utf8(s).len() <= 4096
            &&& is_ascii_chars(s)
            &&& forall|i: int|
                0 <= i < s.len() ==> #[trigger] s[i] != ' ' && !('\t' <= s[i] <= '\r')
        },
        bolt11_rejection(s) == Some(ValidationError::Empty { field: "bolt11" }) <==> s.len() == 0,
        bolt11_rejection(s) is Some && bolt11_rejection(s)->0 is TooLong <==> s.len() > 0
            && encode_utf8(s).len() > 4096,
        bolt11_rejection(s) is Some && bolt11_rejection(s)->0 is TooLong ==> bolt11_rejection(s)
            == Some(ValidationError::TooLong { field: "bolt11", max: 4096 }),
{
    if bolt11_rejection(s) is None {
        assert forall|i: int| 0 <= i < s.len() implies #[trigger] s[i] != ' ' && !('\t' <= s[i]
            <= '\r') by {
            assert(!is_ascii_whitespace_char(s[i]));
        }
    }
    if forall|i: int| 0 <= i < s.len() ==> #[trigger] s[i] != ' ' && !('\t' <= s[i] <= '\r') {
        assert(!exists|i: int| 0 <= i < s.len() && is_ascii_whitespace_char(#[trigger] s[i]));
    }
}

/// An amount is accepted exactly when it is at least one satoshi and at most
/// the 21 million bitcoin (2,100,000,000,000,000 satoshis) that can exist;
/// zero is refused as zero and anything larger as too large.
pub proof fn law_sats_range(value: u64)
    ensures
        sats_rejection(value) is None <==> 1 <= value <= 2_100_000_000_000_000,
        value == 0 ==> sats_rejection(value) == Some(
            ValidationError::ZeroAmount { field: "amount_sats" },
        ),
        value > 2_100_000_000_000_000 ==> sats_rejection(value) == Some(
            ValidationError::AmountTooLarge { field: "amount_sats" },
        ),
{
}

/// An identifier is accepted exactly when it is non-empty, fits in its limit
/// of bytes and is made of ASCII letters, digits, `-`, `_` and `.`; empty text
/// is refused as empty, text over the limit as too long with the limit in the
/// refusal. Device and invoice ids are limited to 128 bytes.
pub proof fn law_identifier_acceptance(field: &'static str, s: Seq<char>, max_len: usize)
    ensures
        MAX_IDENTIFIER_LEN == 128,
        identifier_rejection(field, s, max_len) is None <==> {
            &&& s.len() > 0
            &&& encode_utf8(s).len() <= max_len
            &&& forall|i: int|
                0 <= i < s.len() ==> ('a' <= #[trigger] s[i] <= 'z') || ('A' <= s[i] <= 'Z') || (
                '0' <= s[i] <= '9') || s[i] == '-' || s[i] == '_' || s[i] == '.'
        },
        s.len() == 0 <==> identifier_rejection(field, s, max_len) == Some(
            ValidationError::Empty { field },
        ),
        s.len() > 0 && encode_utf8(s).len() > max_len <==> identifier_rejection(field, s, max_len)
            == Some(ValidationError::TooLong { field, max: max_len }),
{
}

/// Two timestamps are equal exactly when they count the same seconds.
pub proof fn lemma_timestamp_equal_by_secs(a: UnixTimestamp, b: UnixTimestamp)
    ensures
        (a == b) <==> (a.secs() == b.secs()),
{
}

} // verus!
