//! Errors of the gateway's HTTP API and the error answers they turn into.
use vstd::prelude::*;
use vstd::utf8::*;

use crate::auth::{auth_message, AuthError};
use crate::crypto::{is_hex_lower_char, is_uuid_text, new_uuid_text};
use crate::models::is_identifier_char;
use crate::protocol::{
    token_rejection, ErrorResponse, RequestId, MAX_TOKEN_LEN, REQUEST_ID_FALLBACK,
};
use crate::provider::{provider_message, PaymentProviderError, ProviderErrorView};

verus! {

/// Why an API request failed.
#[derive(Debug)]
pub enum ApiError {
    Auth(AuthError),
    BadRequest(String),
    NotFound(String),
    Provider(PaymentProviderError),
}

/// An API error with its texts taken as sequences of characters.
pub ghost enum ApiErrorView {
    Auth(AuthError),
    BadRequest(Seq<char>),
    NotFound(Seq<char>),
    Provider(ProviderErrorView),
}

impl View for ApiError {
    type V = ApiErrorView;

    open spec fn view(&self) -> ApiErrorView {
        match self {
            ApiError::Auth(e) => ApiErrorView::Auth(*e),
            ApiError::BadRequest(message) => ApiErrorView::BadRequest(message@),
            ApiError::NotFound(message) => ApiErrorView::NotFound(message@),
            ApiError::Provider(e) => ApiErrorView::Provider(e@),
        }
    }
}

impl From<AuthError> for ApiError {
    fn from(error: AuthError) -> (api_error: Self) {
        ApiError::Auth(error)
    }
}

impl vstd::std_specs::convert::FromSpecImpl<AuthError> for ApiError {
    open spec fn obeys_from_spec() -> bool {
        true
    }

    open spec fn from_spec(v: AuthError) -> Self {
        ApiError::Auth(v)
    }
}

impl From<PaymentProviderError> for ApiError {
    fn from(error: PaymentProviderError) -> (api_error: Self) {
        ApiError::Provider(error)
    }
}

impl vstd::std_specs::convert::FromSpecImpl<PaymentProviderError> for ApiError {
    open spec fn obeys_from_spec() -> bool {
        true
    }

    open spec fn from_spec(v: PaymentProviderError) -> Self {
        ApiError::Provider(v)
    }
}

/// The HTTP status of an error answer.
pub open spec fn api_status(e: ApiErrorView) -> u16 {
    match e {
        ApiErrorView::Auth(_) => 401,
        ApiErrorView::BadRequest(_) => 400,
        ApiErrorView::NotFound(_) => 404,
        ApiErrorView::Provider(_) => 502,
    }
}

/// The machine readable code of an error answer.
pub open spec fn api_code(e: ApiErrorView) -> &'static str {
    match e {
        ApiErrorView::Auth(_) => "unauthorized",
        ApiErrorView::BadRequest(_) => "bad_request",
        ApiErrorView::NotFound(_) => "not_found",
        ApiErrorView::Provider(_) => "payment_provider_error",
    }
}

/// The human readable message of an error answer.
pub open spec fn api_message(e: ApiErrorView) -> Seq<char> {
    match e {
        ApiErrorView::Auth(error) => auth_message(error),
        ApiErrorView::BadRequest(message) => message,
        ApiErrorView::NotFound(message) => message,
        ApiErrorView::Provider(error) => provider_message(error),
    }
}

/// Each error is answered with its own status and code: a failed
/// authentication with 401 `unauthorized`, a bad request with 400
/// `bad_request`, an unknown resource with 404 `not_found`, and a failure of
/// the payment provider with 502 `payment_provider_error`; a bad request and
/// an unknown resource carry their own message.
pub proof fn law_error_answers(e: ApiErrorView)
    ensures
        e is Auth ==> api_status(e) == 401 && api_code(e) == "unauthorized",
        e is BadRequest ==> api_status(e) == 400 && api_code(e) == "bad_request",
        e is NotFound ==> api_status(e) == 404 && api_code(e) == "not_found",
        e is Provider ==> api_status(e) == 502 && api_code(e) == "payment_provider_error",
        e matches ApiErrorView::BadRequest(message) ==> api_message(e) == message,
        e matches ApiErrorView::NotFound(message) ==> api_message(e) == message,
{
}

/// The request id an error answer carries when `candidate` was generated
/// for it: the candidate when it is a valid request id, the fallback otherwise.
pub open spec fn answered_request_id(candidate: Seq<char>) -> Seq<char> {
    if token_rejection("request_id", candidate, MAX_TOKEN_LEN) is None {
        candidate
    } else {
        REQUEST_ID_FALLBACK@
    }
}

impl ApiError {
    /// The HTTP status of the error answer.
    pub fn status_code(&self) -> (status: u16)
        ensures
            status == api_status(self@),
    {
        match self {
            ApiError::Auth(_) => 401,
            ApiError::BadRequest(_) => 400,
            ApiError::NotFound(_) => 404,
            ApiError::Provider(_) => 502,
        }
    }

    /// The machine readable code of the error answer.
    pub fn code(&self) -> (code: &'static str)
        ensures
            code == api_code(self@),
    {
        match self {
            ApiError::Auth(_) => "unauthorized",
            ApiError::BadRequest(_) => "bad_request",
            ApiError::NotFound(_) => "not_found",
            ApiError::Provider(_) => "payment_provider_error",
        }
    }

    /// The human readable message of the error answer.
    pub fn message(&self) -> (text: String)
        ensures
            text@ == api_message(self@),
    {
        match self {
            ApiError::Auth(error) => error.to_string(),
            ApiError::BadRequest(message) => message.clone(),
            ApiError::NotFound(message) => message.clone(),
            ApiError::Provider(error) => error.to_string(),
        }
    }

    /// The error answer, carrying the request id `candidate_request_id`, or
    /// the fallback id when the candidate is no valid request id.
    pub fn error_response(&self, candidate_request_id: &str) -> (answer: (u16, ErrorResponse))
        ensures
            answer.0 == api_status(self@),
            answer.1.code@ == api_code(self@)@,
            answer.1.message@ == api_message(self@),
            answer.1.request_id@ == answered_request_id(candidate_request_id@),
    {
        let status = self.status_code();
        let code = String::from_str(self.code());
        let message = self.message();
        let request_id = match RequestId::new(candidate_request_id) {
            Ok(request_id) => request_id,
            Err(_) => RequestId::fallback(),
        };
        (status, ErrorResponse::new(code, message, request_id))
    }

    /// The error answer, carrying a fresh random UUID as its request id.
    pub fn into_response(self) -> (answer: (u16, ErrorResponse))
        ensures
            answer.0 == api_status(self@),
            answer.1.code@ == api_code(self@)@,
            answer.1.message@ == api_message(self@),
            is_uuid_text(answer.1.request_id@),
    {
        let candidate = new_uuid_text();
        proof {
            lemma_uuid_is_request_id(candidate@);
        }
        self.error_response(candidate.as_str())
    }
}

/// Every UUID text is a valid request id.
pub proof fn lemma_uuid_is_request_id(uuid: Seq<char>)
    requires
        is_uuid_text(uuid),
    ensures
        token_rejection("request_id", uuid, MAX_TOKEN_LEN) is None,
{
    assert forall|i: int| 0 <= i < uuid.len() implies is_identifier_char(#[trigger] uuid[i]) by {
        if !(i == 8 || i == 13 || i == 18 || i == 23) {
            assert(is_hex_lower_char(uuid[i]));
        }
    }
    assert(is_ascii_chars(uuid));
    is_ascii_chars_encode_utf8(uuid);
}

} // verus!
