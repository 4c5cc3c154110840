//! Lightning payment providers, and the in-memory mock the gateway uses.
use vstd::prelude::*;
use vstd::utf8::*;

use crate::crypto::{is_hex_lower_char, is_uuid_text, new_uuid_text};
use crate::models::{
    bolt11_rejection, has_lightning_prefix, identifier_rejection, is_ascii_whitespace_char,
    is_identifier_char, saturating_sum, validation_message, Bolt11, Invoice, InvoiceId, PaymentStatus, Sats,
    UnixTimestamp, ValidationError, MAX_IDENTIFIER_LEN,
};
use crate::text::{
    decimal_string, decimal_text, is_digit_char, lemma_decimal_text_digits, remove_char,
    without_char,
};

verus! {

/// Why a payment provider could not serve a request.
#[derive(Debug, Clone, PartialEq, Eq)]
pub enum PaymentProviderError {
    InvalidProviderData(String),
    Unavailable,
}

/// A payment provider error with its text taken as a sequence of characters.
pub ghost enum ProviderErrorView {
    InvalidProviderData(Seq<char>),
    Unavailable,
}

impl View for PaymentProviderError {
    type V = ProviderErrorView;

    open spec fn view(&self) -> ProviderErrorView {
        match self {
            PaymentProviderError::InvalidProviderData(detail) => ProviderErrorView::InvalidProviderData(
                detail@,
            ),
            PaymentProviderError::Unavailable => ProviderErrorView::Unavailable,
        }
    }
}

/// The human readable text of a provider error.
pub open spec fn provider_message(e: ProviderErrorView) -> Seq<char> {
    match e {
        ProviderErrorView::InvalidProviderData(detail) => "provider returned invalid data: "@ + detail,
        ProviderErrorView::Unavailable => "provider is temporarily unavailable"@,
    }
}

impl PaymentProviderError {
    /// The error's message, as users see it.
    pub fn to_string(&self) -> (text: String)
        ensures
            text@ == provider_message(self@),
    {
        match self {
            PaymentProviderError::InvalidProviderData(detail) => String::from_str(
                "provider returned invalid data: ",
            ).concat(detail.as_str()),
            PaymentProviderError::Unavailable => String::from_str(
                "provider is temporarily unavailable",
            ),
        }
    }
}

/// A backend that issues Lightning invoices and reports their status.
pub trait PaymentProvider {
    fn create_invoice(&self, amount: Sats, ttl_seconds: u64) -> Result<Invoice, PaymentProviderError>;

    fn get_invoice_status(&self, invoice: &Invoice) -> Result<PaymentStatus, PaymentProviderError>;
}

/// The BOLT11 text of the mock invoice for `amount` with the UUID `uuid`:
/// `lnbc`, the amount, `n1p` and the UUID without its hyphens.
pub open spec fn mock_bolt11_text(amount: u64, uuid: Seq<char>) -> Seq<char> {
    "lnbc"@ + decimal_text(amount as nat) + "n1p"@ + without_char(uuid, '-')
}

/// Why the mock refuses to build an invoice from `uuid`, if it does.
pub open spec fn mock_rejection(amount: u64, uuid: Seq<char>) -> Option<ValidationError> {
    match identifier_rejection("invoice_id", uuid, MAX_IDENTIFIER_LEN) {
        Some(e) => Some(e),
        None => bolt11_rejection(mock_bolt11_text(amount, uuid)),
    }
}

/// `e` reports the validation error `v` as invalid provider data.
pub open spec fn reports_invalid_data(e: ProviderErrorView, v: ValidationError) -> bool {
    e == ProviderErrorView::InvalidProviderData(validation_message(v))
}

/// Builds the mock invoice for `amount` identified by `uuid`, expiring at
/// `expires_at`.
pub fn mock_invoice(amount: Sats, uuid: &str, expires_at: UnixTimestamp) -> (res: Result<
    Invoice,
    PaymentProviderError,
>)
    ensures
        match res {
            Ok(invoice) => {
                &&& mock_rejection(amount.value(), uuid@) is None
                &&& invoice.id@ == uuid@
                &&& invoice.amount == amount
                &&& invoice.bolt11@ == mock_bolt11_text(amount.value(), uuid@)
                &&& invoice.expires_at == expires_at
                &&& invoice.status == PaymentStatus::Pending
            },
            Err(e) => mock_rejection(amount.value(), uuid@) matches Some(v) && reports_invalid_data(
                e@,
                v,
            ),
        },
{
    let invoice_id = match InvoiceId::new(uuid) {
        Ok(invoice_id) => invoice_id,
        Err(error) => return Err(PaymentProviderError::InvalidProviderData(error.to_string())),
    };
    let compact_id = remove_char(uuid, '-');
    let amount_text = decimal_string(amount.as_u64());
    let text = String::from_str("lnbc").concat(amount_text.as_str()).concat("n1p").concat(
        compact_id.as_str(),
    );
    let bolt11 = match Bolt11::new(text.as_str()) {
        Ok(bolt11) => bolt11,
        Err(error) => return Err(PaymentProviderError::InvalidProviderData(error.to_string())),
    };
    Ok(Invoice::new(invoice_id, amount, bolt11, expires_at))
}

/// The mock provider: invoices with random UUID ids, paid only when told so.
#[derive(Debug, Clone, Copy)]
pub struct MockPaymentProvider;

impl Default for MockPaymentProvider {
    fn default() -> (provider: Self) {
        MockPaymentProvider
    }
}

impl PaymentProvider for MockPaymentProvider {
    /// A new pending invoice for `amount` with a random UUID id, expiring
    /// `ttl_seconds` from now. It is always issued.
    fn create_invoice(&self, amount: Sats, ttl_seconds: u64) -> (res: Result<
        Invoice,
        PaymentProviderError,
    >)
        ensures
            match res {
                Ok(invoice) => {
                    &&& is_uuid_text(invoice.id@)
                    &&& invoice.amount == amount
                    &&& invoice.bolt11@ == mock_bolt11_text(amount.value(), invoice.id@)
                    &&& exists|now: u64|
                        invoice.expires_at.secs() == #[trigger] saturating_sum(now, ttl_seconds)
                    &&& invoice.status == PaymentStatus::Pending
                },
                Err(_) => false,
            },
    {
        let id = new_uuid_text();
        let expires_at = UnixTimestamp::now_plus_seconds(ttl_seconds);
        proof {
            lemma_mock_accepts_uuid(amount.value(), id@);
        }
        mock_invoice(amount, id.as_str(), expires_at)
    }

    /// The status the invoice records.
    fn get_invoice_status(&self, invoice: &Invoice) -> (res: Result<PaymentStatus, PaymentProviderError>)
        ensures
            res == Ok::<PaymentStatus, PaymentProviderError>(invoice.status),
    {
        Ok(invoice.status)
    }
}

/// The mock builds an invoice from every UUID, whatever the amount.
pub proof fn lemma_mock_accepts_uuid(amount: u64, uuid: Seq<char>)
    requires
        is_uuid_text(uuid),
    ensures
        mock_rejection(amount, uuid) is None,
{
    assert forall|i: int| 0 <= i < uuid.len() implies is_identifier_char(#[trigger] uuid[i]) by {
        if !(i == 8 || i == 13 || i == 18 || i == 23) {
            assert(is_hex_lower_char(uuid[i]));
        }
    }
    assert(is_ascii_chars(uuid));
    is_ascii_chars_encode_utf8(uuid);
    assert(identifier_rejection("invoice_id", uuid, MAX_IDENTIFIER_LEN) is None);

    let compact = without_char(uuid, '-');
    lemma_without_char_keeps(uuid, '-');
    let digits = decimal_text(amount as nat);
    lemma_decimal_text_digits(amount as nat);
    reveal_strlit("lnbc");
    reveal_strlit("n1p");
    let text = mock_bolt11_text(amount, uuid);
    let head = "lnbc"@ + digits + "n1p"@;
    assert(text == head + compact);
    assert forall|i: int| 0 <= i < text.len() implies is_identifier_char(#[trigger] text[i]) by {
        if i < 4 {
        } else if i < 4 + digits.len() {
            assert(text[i] == digits[i - 4]);
            assert(is_digit_char(digits[i - 4]));
        } else if i < head.len() {
        } else {
            assert(text[i] == compact[i - head.len()]);
        }
    }
    assert(is_ascii_chars(text)) by {
        assert forall|i: int| 0 <= i < text.len() implies '\0' <= #[trigger] text[i] <= '\u{7f}' by {
            assert(is_identifier_char(text[i]));
        }
    }
    is_ascii_chars_encode_utf8(text);
    assert forall|i: int| 0 <= i < text.len() implies !is_ascii_whitespace_char(#[trigger] text[i]) by {
        assert(is_identifier_char(text[i]));
    }
    assert(has_lightning_prefix(text)) by {
        assert(text[0] == 'l');
        assert(text[1] == 'n');
    }
}

/// Taking `c` out of `s` leaves no longer text made of characters of `s`.
proof fn lemma_without_char_keeps(s: Seq<char>, c: char)
    ensures
        without_char(s, c).len() <= s.len(),
        forall|i: int|
            0 <= i < without_char(s, c).len() ==> exists|j: int|
                0 <= j < s.len() && s[j] == #[trigger] without_char(s, c)[i],
    decreases s.len(),
{
    if s.len() > 0 {
        let rest = s.drop_last();
        lemma_without_char_keeps(rest, c);
        let w = without_char(s, c);
        assert forall|i: int| 0 <= i < w.len() implies exists|j: int|
            0 <= j < s.len() && s[j] == #[trigger] w[i] by {
            if i < without_char(rest, c).len() {
                let j = choose|j: int| 0 <= j < rest.len() && rest[j] == without_char(rest, c)[i];
                assert(s[j] == w[i]);
            } else {
                assert(s[s.len() - 1] == w[i]);
            }
        }
    }
}

} // verus!
