//! The gateway's state and the decisions of its HTTP endpoints: health,
//! invoice creation (authenticated and idempotent), invoice lookup and the
//! mock payment confirmation.
use vstd::prelude::*;

use crate::auth::{
    header_lookup, header_text, header_text_of, verification_outcome, verify_request_at,
    RequestHeaders,
};
use crate::config::GatewayConfig;
use crate::crypto::is_uuid_text;
use crate::error::{ApiError, ApiErrorView};
use crate::models::{
    identifier_rejection, saturating_sum, validation_message, Invoice, InvoiceId, PaymentStatus, Sats,
    UnixTimestamp, MAX_IDENTIFIER_LEN,
};
use crate::protocol::{
    create_response_of, get_response_of, protocol_message, token_rejection, CreateInvoiceRequest,
    CreateInvoiceResponse, GetInvoiceResponse, IdempotencyKey, HEADER_IDEMPOTENCY_KEY,
    MAX_TOKEN_LEN,
};
use crate::provider::{mock_bolt11_text, MockPaymentProvider, PaymentProvider};
use crate::storage::{paid, IdempotencyStore, InvoiceStore};

verus! {

/// Everything the gateway's endpoints share.
pub struct AppState {
    pub config: GatewayConfig,
    pub invoices: InvoiceStore,
    pub idempotency: IdempotencyStore,
    pub provider: MockPaymentProvider,
}

impl AppState {
    /// A gateway with `config` and no invoices yet.
    pub fn new(config: GatewayConfig) -> (state: Self)
        ensures
            state.config == config,
            state.invoices@ == Map::<Seq<char>, Invoice>::empty(),
            state.idempotency@ == Map::<(Seq<char>, Seq<char>), InvoiceId>::empty(),
    {
        AppState {
            config,
            invoices: InvoiceStore::new(),
            idempotency: IdempotencyStore::new(),
            provider: MockPaymentProvider,
        }
    }
}

/// Body of `GET /healthz`.
#[derive(Debug, Clone, Copy)]
pub struct HealthResponse {
    pub status: &'static str,
}

/// `GET /healthz`: the gateway is up.
pub fn health() -> (response: HealthResponse)
    ensures
        response.status@ == "ok"@,
{
    HealthResponse { status: "ok" }
}

/// The idempotency key a request carries, or the bad request it is.
pub open spec fn idempotency_key_outcome(headers: Seq<(Seq<char>, Seq<u8>)>) -> Result<
    Seq<char>,
    ApiErrorView,
> {
    match header_lookup(headers, HEADER_IDEMPOTENCY_KEY@) {
        None => Err(ApiErrorView::BadRequest("missing idempotency-key header"@)),
        Some(raw) => match header_text_of(raw) {
            None => Err(ApiErrorView::BadRequest("invalid idempotency-key header"@)),
            Some(text) => match token_rejection("idempotency_key", text, MAX_TOKEN_LEN) {
                Some(e) => Err(
                    ApiErrorView::BadRequest("invalid idempotency key: "@ + protocol_message(e)),
                ),
                None => Ok(text),
            },
        },
    }
}

/// Reads the `idempotency-key` header of a request.
pub fn idempotency_key(headers: &RequestHeaders) -> (res: Result<IdempotencyKey, ApiError>)
    ensures
        match res {
            Ok(key) => idempotency_key_outcome(headers@) == Ok::<Seq<char>, ApiErrorView>(key@),
            Err(e) => idempotency_key_outcome(headers@) == Err::<Seq<char>, ApiErrorView>(e@),
        },
{
    let raw = match headers.get(HEADER_IDEMPOTENCY_KEY) {
        Some(raw) => raw,
        None => return Err(ApiError::BadRequest(String::from_str("missing idempotency-key header"))),
    };
    let text = match header_text(raw) {
        Some(text) => text,
        None => return Err(ApiError::BadRequest(String::from_str("invalid idempotency-key header"))),
    };
    match IdempotencyKey::new(text.as_str()) {
        Ok(key) => Ok(key),
        Err(error) => Err(
            ApiError::BadRequest(
                String::from_str("invalid idempotency key: ").concat(error.to_string().as_str()),
            ),
        ),
    }
}

/// The amount a parsed creation body asks for, or the parser's error text.
pub open spec fn requested_amount(request: Result<CreateInvoiceRequest, String>) -> Result<
    Sats,
    Seq<char>,
> {
    match request {
        Ok(body) => Ok(body.amount_sats),
        Err(detail) => Err(detail@),
    }
}

/// What a creation request is before any invoice is looked up: the device it
/// comes from, its idempotency key and the amount it asks for; or, checked in
/// this order, its failed authentication, its bad idempotency key or its bad body.
pub open spec fn creation_request(
    config: GatewayConfig,
    headers: Seq<(Seq<char>, Seq<u8>)>,
    path: Seq<char>,
    body: Seq<u8>,
    request: Result<Sats, Seq<char>>,
    now: u64,
) -> Result<(Seq<char>, Seq<char>, Sats), ApiErrorView> {
    match verification_outcome(
        config.device_id@,
        config.device_secret@,
        config.auth_max_skew_seconds,
        headers,
        "POST"@,
        path,
        body,
        now,
    ) {
        Err(e) => Err(ApiErrorView::Auth(e)),
        Ok(device) => match idempotency_key_outcome(headers) {
            Err(e) => Err(e),
            Ok(key) => match request {
                Err(detail) => Err(ApiErrorView::BadRequest("invalid JSON body: "@ + detail)),
                Ok(amount) => Ok((device, key, amount)),
            },
        },
    }
}

/// The invoice created earlier for `device` and `key`, when it is still on file.
pub open spec fn idempotent_hit(
    invoices: Map<Seq<char>, Invoice>,
    records: Map<(Seq<char>, Seq<char>), InvoiceId>,
    device: Seq<char>,
    key: Seq<char>,
) -> Option<Invoice> {
    if records.contains_key((device, key)) && invoices.contains_key(records[(device, key)]@) {
        Some(invoices[records[(device, key)]@])
    } else {
        None
    }
}

/// The pending invoice that a creation answer describes.
pub open spec fn invoice_of_response(response: CreateInvoiceResponse) -> Invoice {
    Invoice {
        id: response.invoice_id,
        amount: response.amount_sats,
        bolt11: response.bolt11,
        expires_at: response.expires_at,
        status: PaymentStatus::Pending,
    }
}

/// A fresh mock invoice for `amount` with a lifetime of `ttl_seconds` is
/// described by `response`.
pub open spec fn issued_for(response: CreateInvoiceResponse, amount: Sats, ttl_seconds: u64) -> bool {
    &&& response.amount_sats == amount
    &&& is_uuid_text(response.invoice_id@)
    &&& response.bolt11@ == mock_bolt11_text(amount.value(), response.invoice_id@)
    &&& exists|now: u64|
        response.expires_at.secs() == #[trigger] saturating_sum(now, ttl_seconds)
}

/// What `POST /v1/invoices` did at `now`, taking the gateway from `before` to
/// `after` and answering `res`: a refused request changes nothing; a retry
/// with a known (device, key) pair answers 200 with the invoice created
/// then; otherwise a new invoice is created, filed and recorded for the pair,
/// and answered with 201.
pub open spec fn invoice_creation(
    before: AppState,
    after: AppState,
    headers: Seq<(Seq<char>, Seq<u8>)>,
    path: Seq<char>,
    body: Seq<u8>,
    request: Result<Sats, Seq<char>>,
    now: u64,
    res: Result<(u16, CreateInvoiceResponse), ApiError>,
) -> bool {
    match creation_request(before.config, headers, path, body, request, now) {
        Err(e) => {
            &&& res matches Err(error) && error@ == e
            &&& after == before
        },
        Ok((device, key, amount)) => match idempotent_hit(
            before.invoices@,
            before.idempotency@,
            device,
            key,
        ) {
            Some(invoice) => {
                &&& res == Ok::<(u16, CreateInvoiceResponse), ApiError>(
                    (200, create_response_of(invoice)),
                )
                &&& after == before
            },
            None => {
                &&& res matches Ok(answer)
                &&& answer.0 == 201
                &&& issued_for(answer.1, amount, before.config.invoice_ttl_seconds)
                &&& after.config == before.config
                &&& after.invoices@ == before.invoices@.insert(
                    answer.1.invoice_id@,
                    invoice_of_response(answer.1),
                )
                &&& after.idempotency@ == before.idempotency@.insert(
                    (device, key),
                    answer.1.invoice_id,
                )
            },
        },
    }
}

/// `POST /v1/invoices` at the instant `now`, with the request body already
/// parsed (`request` holds the parser's error text when it failed).
pub fn create_invoice_at(
    state: &mut AppState,
    headers: &RequestHeaders,
    path: &str,
    body: &[u8],
    request: Result<CreateInvoiceRequest, String>,
    now: u64,
) -> (res: Result<(u16, CreateInvoiceResponse), ApiError>)
    ensures
        invoice_creation(
            *old(state),
            *final(state),
            headers@,
            path@,
            body@,
            requested_amount(request),
            now,
            res,
        ),
{
    let device_id = match verify_request_at(&state.config, headers, "POST", path, body, now) {
        Ok(device_id) => device_id,
        Err(error) => return Err(ApiError::Auth(error)),
    };
    let key = idempotency_key(headers)?;
    let request = match request {
        Ok(request) => request,
        Err(detail) => return Err(
            ApiError::BadRequest(String::from_str("invalid JSON body: ").concat(detail.as_str())),
        ),
    };

    if let Some(invoice_id) = state.idempotency.get(&device_id, &key) {
        if let Some(invoice) = state.invoices.get(&invoice_id) {
            return Ok((200, CreateInvoiceResponse::from(&invoice)));
        }
    }
    let invoice = match state.provider.create_invoice(
        request.amount_sats,
        state.config.invoice_ttl_seconds,
    ) {
        Ok(invoice) => invoice,
        Err(error) => return Err(ApiError::Provider(error)),
    };
    let response = CreateInvoiceResponse::from(&invoice);
    let invoice_id = invoice.id.clone();
    state.invoices.insert(invoice);
    state.idempotency.insert(device_id, key, invoice_id);
    Ok((201, response))
}

/// `POST /v1/invoices` at the current time.
pub fn create_invoice(
    state: &mut AppState,
    headers: &RequestHeaders,
    path: &str,
    body: &[u8],
    request: Result<CreateInvoiceRequest, String>,
) -> (res: Result<(u16, CreateInvoiceResponse), ApiError>)
    ensures
        exists|now: u64|
            #[trigger] invoice_creation(
                *old(state),
                *final(state),
                headers@,
                path@,
                body@,
                requested_amount(request),
                now,
                res,
            ),
{
    let now = UnixTimestamp::now().as_secs();
    create_invoice_at(state, headers, path, body, request, now)
}

/// The answer of `GET /v1/invoices/{invoice_id}` at `now`.
pub open spec fn invoice_lookup(
    config: GatewayConfig,
    invoices: Map<Seq<char>, Invoice>,
    headers: Seq<(Seq<char>, Seq<u8>)>,
    path: Seq<char>,
    invoice_id: Seq<char>,
    now: u64,
) -> Result<GetInvoiceResponse, ApiErrorView> {
    match verification_outcome(
        config.device_id@,
        config.device_secret@,
        config.auth_max_skew_seconds,
        headers,
        "GET"@,
        path,
        Seq::empty(),
        now,
    ) {
        Err(e) => Err(ApiErrorView::Auth(e)),
        Ok(_) => match identifier_rejection("invoice_id", invoice_id, MAX_IDENTIFIER_LEN) {
            Some(e) => Err(ApiErrorView::BadRequest("invalid invoice id: "@ + validation_message(e))),
            None => if invoices.contains_key(invoice_id) {
                Ok(get_response_of(invoices[invoice_id]))
            } else {
                Err(ApiErrorView::NotFound("invoice not found"@))
            },
        },
    }
}

/// `res` answers as `outcome` does.
pub open spec fn answers<T>(res: Result<T, ApiError>, outcome: Result<T, ApiErrorView>) -> bool {
    match res {
        Ok(answer) => outcome == Ok::<T, ApiErrorView>(answer),
        Err(e) => outcome == Err::<T, ApiErrorView>(e@),
    }
}

/// `GET /v1/invoices/{invoice_id}` at the instant `now`; the request has no body.
pub fn get_invoice_at(
    state: &AppState,
    headers: &RequestHeaders,
    path: &str,
    invoice_id: &str,
    now: u64,
) -> (res: Result<GetInvoiceResponse, ApiError>)
    ensures
        answers(
            res,
            invoice_lookup(state.config, state.invoices@, headers@, path@, invoice_id@, now),
        ),
{
    let no_body: Vec<u8> = Vec::new();
    match verify_request_at(&state.config, headers, "GET", path, no_body.as_slice(), now) {
        Ok(_) => {},
        Err(error) => return Err(ApiError::Auth(error)),
    }
    let invoice_id = match InvoiceId::new(invoice_id) {
        Ok(invoice_id) => invoice_id,
        Err(error) => return Err(
            ApiError::BadRequest(
                String::from_str("invalid invoice id: ").concat(error.to_string().as_str()),
            ),
        ),
    };
    match state.invoices.get(&invoice_id) {
        Some(invoice) => Ok(GetInvoiceResponse::from(&invoice)),
        None => Err(ApiError::NotFound(String::from_str("invoice not found"))),
    }
}

/// `GET /v1/invoices/{invoice_id}` at the current time.
pub fn get_invoice(state: &AppState, headers: &RequestHeaders, path: &str, invoice_id: &str) -> (res:
    Result<GetInvoiceResponse, ApiError>)
    ensures
        exists|now: u64|
            answers(
                res,
                #[trigger] invoice_lookup(
                    state.config,
                    state.invoices@,
                    headers@,
                    path@,
                    invoice_id@,
                    now,
                ),
            ),
{
    let now = UnixTimestamp::now().as_secs();
    get_invoice_at(state, headers, path, invoice_id, now)
}

/// The answer of `POST /webhooks/mock/invoices/{invoice_id}/paid`.
pub open spec fn payment_confirmation(invoices: Map<Seq<char>, Invoice>, invoice_id: Seq<char>) -> Result<
    GetInvoiceResponse,
    ApiErrorView,
> {
    match identifier_rejection("invoice_id", invoice_id, MAX_IDENTIFIER_LEN) {
        Some(e) => Err(ApiErrorView::BadRequest("invalid invoice id: "@ + validation_message(e))),
        None => if invoices.contains_key(invoice_id) {
            Ok(get_response_of(paid(invoices[invoice_id])))
        } else {
            Err(ApiErrorView::NotFound("invoice not found"@))
        },
    }
}

/// `POST /webhooks/mock/invoices/{invoice_id}/paid`: marks the invoice paid.
pub fn mock_mark_invoice_paid(state: &mut AppState, invoice_id: &str) -> (res: Result<
    GetInvoiceResponse,
    ApiError,
>)
    ensures
        answers(res, payment_confirmation(old(state).invoices@, invoice_id@)),
        final(state).config == old(state).config,
        final(state).idempotency == old(state).idempotency,
        if res is Ok {
            final(state).invoices@ == old(state).invoices@.insert(
                invoice_id@,
                paid(old(state).invoices@[invoice_id@]),
            )
        } else {
            final(state).invoices@ == old(state).invoices@
        },
{
    let invoice_id = match InvoiceId::new(invoice_id) {
        Ok(invoice_id) => invoice_id,
        Err(error) => return Err(
            ApiError::BadRequest(
                String::from_str("invalid invoice id: ").concat(error.to_string().as_str()),
            ),
        ),
    };
    match state.invoices.mark_paid(&invoice_id) {
        Some(invoice) => Ok(GetInvoiceResponse::from(&invoice)),
        None => Err(ApiError::NotFound(String::from_str("invoice not found"))),
    }
}

/// Idempotency: retrying a creation with the same device, key and body
/// answers 200 with the invoice of the first answer and changes nothing.
pub proof fn law_retry_returns_original_invoice(
    s0: AppState,
    s1: AppState,
    s2: AppState,
    headers: Seq<(Seq<char>, Seq<u8>)>,
    path: Seq<char>,
    body: Seq<u8>,
    request: Result<Sats, Seq<char>>,
    now1: u64,
    now2: u64,
    first: (u16, CreateInvoiceResponse),
    retry: Result<(u16, CreateInvoiceResponse), ApiError>,
)
    requires
        invoice_creation(s0, s1, headers, path, body, request, now1, Ok(first)),
        creation_request(s0.config, headers, path, body, request, now2) is Ok,
        invoice_creation(s1, s2, headers, path, body, request, now2, retry),
    ensures
        retry == Ok::<(u16, CreateInvoiceResponse), ApiError>((200, first.1)),
        s2 == s1,
{
    let (device, key, amount) = creation_request(s0.config, headers, path, body, request, now1)->Ok_0;
    assert(creation_request(s0.config, headers, path, body, request, now2)->Ok_0 == (
        device,
        key,
        amount,
    ));
    match idempotent_hit(s0.invoices@, s0.idempotency@, device, key) {
        Some(_) => {},
        None => {
            let response = first.1;
            assert(s1.idempotency@[(device, key)] == response.invoice_id);
            assert(s1.invoices@[response.invoice_id@] == invoice_of_response(response));
            assert(create_response_of(invoice_of_response(response)) == response);
        },
    }
}

/// A created invoice reads back as pending, for the amount asked for.
pub proof fn law_created_invoice_reads_pending(
    config: GatewayConfig,
    invoices: Map<Seq<char>, Invoice>,
    response: CreateInvoiceResponse,
    headers: Seq<(Seq<char>, Seq<u8>)>,
    path: Seq<char>,
    now: u64,
)
    requires
        is_uuid_text(response.invoice_id@),
        verification_outcome(
            config.device_id@,
            config.device_secret@,
            config.auth_max_skew_seconds,
            headers,
            "GET"@,
            path,
            Seq::empty(),
            now,
        ) is Ok,
    ensures
        invoice_lookup(
            config,
            invoices.insert(response.invoice_id@, invoice_of_response(response)),
            headers,
            path,
            response.invoice_id@,
            now,
        ) == Ok::<GetInvoiceResponse, ApiErrorView>(
            GetInvoiceResponse {
                invoice_id: response.invoice_id,
                status: PaymentStatus::Pending,
                amount_sats: response.amount_sats,
            },
        ),
{
    lemma_uuid_is_invoice_id(response.invoice_id@);
}

/// A confirmed invoice reads back as paid.
pub proof fn law_confirmed_invoice_reads_paid(
    config: GatewayConfig,
    invoices: Map<Seq<char>, Invoice>,
    invoice_id: Seq<char>,
    headers: Seq<(Seq<char>, Seq<u8>)>,
    path: Seq<char>,
    now: u64,
)
    requires
        payment_confirmation(invoices, invoice_id) is Ok,
        verification_outcome(
            config.device_id@,
            config.device_secret@,
            config.auth_max_skew_seconds,
            headers,
            "GET"@,
            path,
            Seq::empty(),
            now,
        ) is Ok,
    ensures
        invoice_lookup(
            config,
            invoices.insert(invoice_id, paid(invoices[invoice_id])),
            headers,
            path,
            invoice_id,
            now,
        ) == payment_confirmation(invoices, invoice_id),
        payment_confirmation(invoices, invoice_id)->Ok_0.status == PaymentStatus::Paid,
{
}

/// Every UUID text is a valid invoice id.
pub proof fn lemma_uuid_is_invoice_id(uuid: Seq<char>)
    requires
        is_uuid_text(uuid),
    ensures
        identifier_rejection("invoice_id", uuid, MAX_IDENTIFIER_LEN) is None,
{
    crate::provider::lemma_mock_accepts_uuid(1, uuid);
}

} // verus!
