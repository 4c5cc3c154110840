//! HMAC-SHA256 device authentication of gateway requests.
//!
//! A terminal signs `METHOD \n PATH \n UNIX_TIMESTAMP \n SHA256_HEX(BODY)`
//! with its device secret and sends the device id, the timestamp and the
//! hexadecimal signature in headers.
use vstd::prelude::*;
use vstd::utf8::*;

use crate::config::GatewayConfig;
use crate::crypto::{
    decode_hex, encode_hex, hex_decoded, hex_lower, hmac_sha256, hmac_sha256_tag,
    hmac_sha256_verify, is_hex_lower_char, lemma_hex_roundtrip, sha256, sha256_digest,
};
use crate::models::{
    identifier_rejection, is_identifier_char, valid_identifier, DeviceId, UnixTimestamp,
    MAX_IDENTIFIER_LEN,
};
use crate::protocol::{HEADER_DEVICE_ID, HEADER_SIGNATURE, HEADER_TIMESTAMP};
use crate::text::{
    decimal_string, decimal_text, is_digit_char, lemma_decimal_text_digits,
    lemma_decimal_text_parses, parse_u64, parsed_u64,
};

verus! {

/// Why a request failed authentication.
#[derive(Debug, Clone, Copy, PartialEq, Eq)]
pub enum AuthError {
    MissingHeader(&'static str),
    InvalidHeader(&'static str),
    UnknownDevice,
    TimestampOutsideSkew,
    InvalidSignature,
}

/// The human readable text of an authentication error.
pub open spec fn auth_message(e: AuthError) -> Seq<char> {
    match e {
        AuthError::MissingHeader(name) => "missing header "@ + name@,
        AuthError::InvalidHeader(name) => "invalid header "@ + name@,
        AuthError::UnknownDevice => "unknown device"@,
        AuthError::TimestampOutsideSkew => "request timestamp is outside the accepted clock skew"@,
        AuthError::InvalidSignature => "invalid request signature"@,
    }
}

impl AuthError {
    /// The error's message, as users see it.
    pub fn to_string(&self) -> (text: String)
        ensures
            text@ == auth_message(*self),
    {
        match self {
            AuthError::MissingHeader(name) => String::from_str("missing header ").concat(name),
            AuthError::InvalidHeader(name) => String::from_str("invalid header ").concat(name),
            AuthError::UnknownDevice => String::from_str("unknown device"),
            AuthError::TimestampOutsideSkew => String::from_str(
                "request timestamp is outside the accepted clock skew",
            ),
            AuthError::InvalidSignature => String::from_str("invalid request signature"),
        }
    }
}

/// One header of a request: its (lowercase) name and its raw value.
#[derive(Debug, Clone)]
pub struct HeaderField {
    pub name: String,
    pub value: Vec<u8>,
}

/// The headers of a request, in order. Names are compared exactly, so they
/// are kept in the lowercase form that HTTP header maps use.
#[derive(Debug, Clone)]
pub struct RequestHeaders {
    fields: Vec<HeaderField>,
}

/// The value of the first header named `name` among `fields`.
pub open spec fn header_lookup(fields: Seq<(Seq<char>, Seq<u8>)>, name: Seq<char>) -> Option<
    Seq<u8>,
>
    decreases fields.len(),
{
    if fields.len() == 0 {
        None
    } else if fields[0].0 == name {
        Some(fields[0].1)
    } else {
        header_lookup(fields.drop_first(), name)
    }
}

/// `fields` without the headers named `name`.
pub open spec fn without_header(fields: Seq<(Seq<char>, Seq<u8>)>, name: Seq<char>) -> Seq<
    (Seq<char>, Seq<u8>),
>
    decreases fields.len(),
{
    if fields.len() == 0 {
        fields
    } else if fields.last().0 == name {
        without_header(fields.drop_last(), name)
    } else {
        without_header(fields.drop_last(), name).push(fields.last())
    }
}

impl View for RequestHeaders {
    type V = Seq<(Seq<char>, Seq<u8>)>;

    closed spec fn view(&self) -> Seq<(Seq<char>, Seq<u8>)> {
        self.fields@.map_values(|f: HeaderField| (f.name@, f.value@))
    }
}

impl RequestHeaders {
    /// No headers.
    pub fn new() -> (headers: Self)
        ensures
            headers@ == Seq::<(Seq<char>, Seq<u8>)>::empty(),
    {
        let headers = RequestHeaders { fields: Vec::new() };
        assert(headers@ =~= Seq::<(Seq<char>, Seq<u8>)>::empty());
        headers
    }

    /// Adds a header after the others, keeping earlier ones of the same name.
    pub fn append(&mut self, name: &str, value: &[u8])
        ensures
            final(self)@ == old(self)@.push((name@, value@)),
    {
        let field = HeaderField { name: name.to_owned(), value: vstd::slice::slice_to_vec(value) };
        self.fields.push(field);
        assert(self@ =~= old(self)@.push((name@, value@)));
    }

    /// Sets the header `name` to `value`, replacing every earlier header of that name.
    pub fn insert(&mut self, name: &str, value: &[u8])
        ensures
            final(self)@ == without_header(old(self)@, name@).push((name@, value@)),
    {
        let key = name.to_owned();
        let mut kept: Vec<HeaderField> = Vec::new();
        let n = self.fields.len();
        for i in 0..n
            invariant
                n == self.fields.len(),
                self@ == old(self)@,
                kept@.map_values(|f: HeaderField| (f.name@, f.value@)) == without_header(
                    self@.take(i as int),
                    name@,
                ),
                key@ == name@,
        {
            proof {
                assert(self@.take(i + 1).drop_last() =~= self@.take(i as int));
            }
            if !(self.fields[i].name == key) {
                let field = HeaderField {
                    name: self.fields[i].name.clone(),
                    value: vstd::slice::slice_to_vec(self.fields[i].value.as_slice()),
                };
                kept.push(field);
            }
            proof {
                assert(kept@.map_values(|f: HeaderField| (f.name@, f.value@)) =~= without_header(
                    self@.take(i + 1),
                    name@,
                ));
            }
        }
        assert(self@.take(n as int) =~= self@);
        kept.push(HeaderField { name: key, value: vstd::slice::slice_to_vec(value) });
        self.fields = kept;
        assert(self@ =~= without_header(old(self)@, name@).push((name@, value@)));
    }

    /// The value of the first header named `name`.
    pub fn get(&self, name: &str) -> (value: Option<&[u8]>)
        ensures
            match value {
                Some(v) => header_lookup(self@, name@) == Some(v@),
                None => header_lookup(self@, name@) is None,
            },
    {
        let key = name.to_owned();
        let n = self.fields.len();
        assert(self@.skip(0) =~= self@);
        for i in 0..n
            invariant
                n == self.fields.len(),
                key@ == name@,
                header_lookup(self@, name@) == header_lookup(self@.skip(i as int), name@),
        {
            assert(self@.skip(i as int).drop_first() =~= self@.skip(i + 1));
            if self.fields[i].name == key {
                return Some(self.fields[i].value.as_slice());
            }
        }
        assert(self@.skip(n as int) =~= Seq::<(Seq<char>, Seq<u8>)>::empty());
        None
    }
}

/// A byte that may stand in header text: visible ASCII or a tab.
pub open spec fn is_visible_ascii(b: u8) -> bool {
    (32 <= b && b < 127) || b == 9
}

/// The text of a raw header value: its bytes as characters when all of them
/// are visible ASCII, `None` otherwise.
pub open spec fn header_text_of(raw: Seq<u8>) -> Option<Seq<char>> {
    if forall|i: int| 0 <= i < raw.len() ==> is_visible_ascii(#[trigger] raw[i]) {
        Some(raw.map_values(|b: u8| b as char))
    } else {
        None
    }
}

/// `axum::http::HeaderValue::from_bytes` then `to_str`: the text of a raw
/// header value. `from_bytes` refuses control bytes other than tab and DEL;
/// `to_str` refuses every byte that is not visible ASCII or a tab, and
/// otherwise reads the bytes as characters.
#[verifier::external_body]
pub(crate) fn header_text(raw: &[u8]) -> (text: Option<String>)
    ensures
        match text {
            Some(text) => header_text_of(raw@) == Some(text@),
            None => header_text_of(raw@) is None,
        },
{
    match axum::http::HeaderValue::from_bytes(raw) {
        Ok(value) => match value.to_str() {
            Ok(text) => Some(text.to_string()),
            Err(_) => None,
        },
        Err(_) => None,
    }
}

/// The text of the header `name` among `fields`, or why it cannot be read.
pub open spec fn header_value_of(fields: Seq<(Seq<char>, Seq<u8>)>, name: &'static str) -> Result<
    Seq<char>,
    AuthError,
> {
    match header_lookup(fields, name@) {
        None => Err(AuthError::MissingHeader(name)),
        Some(raw) => match header_text_of(raw) {
            None => Err(AuthError::InvalidHeader(name)),
            Some(text) => Ok(text),
        },
    }
}

/// The text of the header `name`.
pub fn header_value(headers: &RequestHeaders, name: &'static str) -> (res: Result<String, AuthError>)
    ensures
        match res {
            Ok(text) => header_value_of(headers@, name) == Ok::<Seq<char>, AuthError>(text@),
            Err(e) => header_value_of(headers@, name) == Err::<Seq<char>, AuthError>(e),
        },
{
    let raw = match headers.get(name) {
        Some(raw) => raw,
        None => return Err(AuthError::MissingHeader(name)),
    };
    match header_text(raw) {
        Some(text) => Ok(text),
        None => Err(AuthError::InvalidHeader(name)),
    }
}

/// The text that a request's signature covers: method, path, timestamp and
/// the hexadecimal SHA-256 of the body, one per line.
pub open spec fn signing_payload_text(
    method: Seq<char>,
    path: Seq<char>,
    timestamp: u64,
    body: Seq<u8>,
) -> Seq<char> {
    method + seq!['\n'] + path + seq!['\n'] + decimal_text(timestamp as nat) + seq!['\n']
        + hex_lower(sha256_digest(body))
}

/// The HMAC-SHA256 tag of a request's signing payload under `secret`.
pub open spec fn request_tag(
    secret: Seq<char>,
    method: Seq<char>,
    path: Seq<char>,
    timestamp: u64,
    body: Seq<u8>,
) -> Seq<u8> {
    hmac_sha256_tag(encode_utf8(secret), encode_utf8(signing_payload_text(method, path, timestamp, body)))
}

/// The signature a terminal sends: the request tag as lowercase hexadecimal text.
pub open spec fn request_signature(
    secret: Seq<char>,
    method: Seq<char>,
    path: Seq<char>,
    timestamp: u64,
    body: Seq<u8>,
) -> Seq<char> {
    hex_lower(request_tag(secret, method, path, timestamp, body))
}

/// The text that a request's signature covers.
pub fn signing_payload(method: &str, path: &str, timestamp: UnixTimestamp, body: &[u8]) -> (payload:
    String)
    ensures
        payload@ == signing_payload_text(method@, path@, timestamp.secs(), body@),
{
    let body_hash = sha256(body);
    let hash_text = encode_hex(body_hash.as_slice());
    let time_text = decimal_string(timestamp.as_secs());
    let mut payload = String::from_str(method);
    payload.append("\n");
    payload.append(path);
    payload.append("\n");
    payload.append(time_text.as_str());
    payload.append("\n");
    payload.append(hash_text.as_str());
    proof {
        reveal_strlit("\n");
        assert(payload@ =~= signing_payload_text(method@, path@, timestamp.secs(), body@));
    }
    payload
}

/// Signs a request for the device holding `secret`: the lowercase hexadecimal
/// HMAC-SHA256 of the signing payload. It always succeeds.
pub fn sign_request(
    secret: &str,
    method: &str,
    path: &str,
    timestamp: UnixTimestamp,
    body: &[u8],
) -> (res: Result<String, AuthError>)
    ensures
        match res {
            Ok(signature) => signature@ == request_signature(
                secret@,
                method@,
                path@,
                timestamp.secs(),
                body@,
            ),
            Err(_) => false,
        },
        res matches Ok(signature) ==> signature@.len() == 64,
{
    let payload = signing_payload(method, path, timestamp, body);
    let tag = match hmac_sha256(secret.as_bytes(), payload.as_str().as_bytes()) {
        Some(tag) => tag,
        None => return Err(AuthError::InvalidSignature),
    };
    proof {
        lemma_hex_roundtrip(tag@);
    }
    Ok(encode_hex(tag.as_slice()))
}

/// How far apart two instants are, in seconds.
pub open spec fn distance(a: u64, b: u64) -> u64 {
    if a >= b {
        (a - b) as u64
    } else {
        (b - a) as u64
    }
}

/// Whether a request made at `timestamp` is accepted at `now` with the
/// allowed clock skew `max_skew_seconds`.
pub open spec fn timestamp_outcome(timestamp: u64, max_skew_seconds: u64, now: u64) -> Result<
    (),
    AuthError,
> {
    if distance(now, timestamp) > max_skew_seconds {
        Err(AuthError::TimestampOutsideSkew)
    } else {
        Ok(())
    }
}

/// A request's timestamp is accepted exactly when it lies at most
/// `max_skew_seconds` before or after `now`, the bound included; otherwise it
/// is refused as outside the allowed skew.
pub proof fn law_skew_window(timestamp: u64, max_skew_seconds: u64, now: u64)
    ensures
        timestamp_outcome(timestamp, max_skew_seconds, now) is Ok <==> now - max_skew_seconds
            <= timestamp <= now + max_skew_seconds,
        timestamp_outcome(timestamp, max_skew_seconds, now) is Err ==> timestamp_outcome(
            timestamp,
            max_skew_seconds,
            now,
        ) == Err::<(), AuthError>(AuthError::TimestampOutsideSkew),
{
}

/// Checks that `timestamp` lies within `max_skew_seconds` of `now`.
pub fn validate_timestamp_at(timestamp: UnixTimestamp, max_skew_seconds: u64, now: u64) -> (res:
    Result<(), AuthError>)
    ensures
        res == timestamp_outcome(timestamp.secs(), max_skew_seconds, now),
{
    let request_time = timestamp.as_secs();
    let delta = if now >= request_time {
        now - request_time
    } else {
        request_time - now
    };
    if delta > max_skew_seconds {
        Err(AuthError::TimestampOutsideSkew)
    } else {
        Ok(())
    }
}

/// Checks that `timestamp` lies within `max_skew_seconds` of the current time.
pub fn validate_timestamp(timestamp: UnixTimestamp, max_skew_seconds: u64) -> (res: Result<
    (),
    AuthError,
>)
    ensures
        exists|now: u64| res == timestamp_outcome(timestamp.secs(), max_skew_seconds, now),
{
    let now = UnixTimestamp::now().as_secs();
    validate_timestamp_at(timestamp, max_skew_seconds, now)
}

/// The outcome of authenticating a request at `now`: the device id it comes
/// from, or the first reason to refuse it.
pub open spec fn verification_outcome(
    config_device: Seq<char>,
    secret: Seq<char>,
    max_skew_seconds: u64,
    headers: Seq<(Seq<char>, Seq<u8>)>,
    method: Seq<char>,
    path: Seq<char>,
    body: Seq<u8>,
    now: u64,
) -> Result<Seq<char>, AuthError> {
    match header_value_of(headers, HEADER_DEVICE_ID) {
        Err(e) => Err(e),
        Ok(device) => match header_value_of(headers, HEADER_SIGNATURE) {
            Err(e) => Err(e),
            Ok(signature) => match header_value_of(headers, HEADER_TIMESTAMP) {
                Err(e) => Err(e),
                Ok(time_text) => if identifier_rejection(
                    "device_id",
                    device,
                    MAX_IDENTIFIER_LEN,
                ) is Some {
                    Err(AuthError::InvalidHeader(HEADER_DEVICE_ID))
                } else if device != config_device {
                    Err(AuthError::UnknownDevice)
                } else {
                    match parsed_u64(time_text) {
                        None => Err(AuthError::InvalidHeader(HEADER_TIMESTAMP)),
                        Some(timestamp) => if timestamp_outcome(
                            timestamp,
                            max_skew_seconds,
                            now,
                        ) is Err {
                            Err(AuthError::TimestampOutsideSkew)
                        } else {
                            match hex_decoded(signature) {
                                None => Err(AuthError::InvalidHeader(HEADER_SIGNATURE)),
                                Some(provided) => if provided == request_tag(
                                    secret,
                                    method,
                                    path,
                                    timestamp,
                                    body,
                                ) {
                                    Ok(device)
                                } else {
                                    Err(AuthError::InvalidSignature)
                                },
                            }
                        },
                    }
                },
            },
        },
    }
}

/// `res` reports `outcome`: the same device id, or the same error.
pub open spec fn outcome_is(res: Result<DeviceId, AuthError>, outcome: Result<Seq<char>, AuthError>) -> bool {
    match res {
        Ok(device) => outcome == Ok::<Seq<char>, AuthError>(device@),
        Err(e) => outcome == Err::<Seq<char>, AuthError>(e),
    }
}

/// Authenticates a request at the instant `now`.
pub fn verify_request_at(
    config: &GatewayConfig,
    headers: &RequestHeaders,
    method: &str,
    path: &str,
    body: &[u8],
    now: u64,
) -> (res: Result<DeviceId, AuthError>)
    ensures
        outcome_is(
            res,
            verification_outcome(
                config.device_id@,
                config.device_secret@,
                config.auth_max_skew_seconds,
                headers@,
                method@,
                path@,
                body@,
                now,
            ),
        ),
{
    let device_text = header_value(headers, HEADER_DEVICE_ID)?;
    let signature = header_value(headers, HEADER_SIGNATURE)?;
    let time_text = header_value(headers, HEADER_TIMESTAMP)?;

    let device_id = match DeviceId::new(device_text.as_str()) {
        Ok(device_id) => device_id,
        Err(_) => return Err(AuthError::InvalidHeader(HEADER_DEVICE_ID)),
    };
    if !device_id.same_as(&config.device_id) {
        return Err(AuthError::UnknownDevice);
    }
    let timestamp = match parse_u64(time_text.as_str()) {
        Some(secs) => UnixTimestamp::from_secs(secs),
        None => return Err(AuthError::InvalidHeader(HEADER_TIMESTAMP)),
    };
    validate_timestamp_at(timestamp, config.auth_max_skew_seconds, now)?;

    let payload = signing_payload(method, path, timestamp, body);
    let provided = match decode_hex(signature.as_str()) {
        Some(provided) => provided,
        None => return Err(AuthError::InvalidHeader(HEADER_SIGNATURE)),
    };
    if !hmac_sha256_verify(
        config.device_secret.as_str().as_bytes(),
        payload.as_str().as_bytes(),
        provided.as_slice(),
    ) {
        return Err(AuthError::InvalidSignature);
    }
    Ok(device_id)
}

/// Authenticates a request at the current time: the outcome is the one of
/// `verify_request_at` at some instant read from the clock.
pub fn verify_request(
    config: &GatewayConfig,
    headers: &RequestHeaders,
    method: &str,
    path: &str,
    body: &[u8],
) -> (res: Result<DeviceId, AuthError>)
    ensures
        exists|now: u64|
            outcome_is(
                res,
                #[trigger] verification_outcome(
                    config.device_id@,
                    config.device_secret@,
                    config.auth_max_skew_seconds,
                    headers@,
                    method@,
                    path@,
                    body@,
                    now,
                ),
            ),
{
    let now = UnixTimestamp::now().as_secs();
    verify_request_at(config, headers, method, path, body, now)
}

/// A character that header text may hold and that is sent as itself.
pub open spec fn is_header_char(c: char) -> bool {
    ' ' <= c && c <= '~'
}

/// Text made of visible ASCII characters, sent as a header value, reads back
/// as the same text.
pub proof fn lemma_header_text_reads_back(text: Seq<char>)
    requires
        forall|i: int| 0 <= i < text.len() ==> is_header_char(#[trigger] text[i]),
    ensures
        header_text_of(encode_utf8(text)) == Some(text),
{
    assert(is_ascii_chars(text));
    is_ascii_chars_encode_utf8(text);
    let raw = encode_utf8(text);
    assert forall|i: int| 0 <= i < raw.len() implies is_visible_ascii(#[trigger] raw[i]) by {
        assert(text[i] as u8 == raw[i]);
        assert(is_header_char(text[i]));
    }
    let read = raw.map_values(|b: u8| b as char);
    assert(read =~= text) by {
        assert forall|i: int| 0 <= i < text.len() implies #[trigger] read[i] == text[i] by {
            assert(text[i] as u8 == raw[i]);
            assert(is_header_char(text[i]));
        }
    }
}

/// The signature roundtrip: a request that carries the configured device id,
/// a timestamp within the allowed skew of `now` and the signature
/// `sign_request` computes with the device secret is authenticated as that
/// device.
pub proof fn law_signed_request_verifies(
    config_device: Seq<char>,
    secret: Seq<char>,
    max_skew_seconds: u64,
    headers: Seq<(Seq<char>, Seq<u8>)>,
    method: Seq<char>,
    path: Seq<char>,
    body: Seq<u8>,
    timestamp: u64,
    now: u64,
)
    requires
        valid_identifier(config_device, MAX_IDENTIFIER_LEN),
        distance(now, timestamp) <= max_skew_seconds,
        header_lookup(headers, HEADER_DEVICE_ID@) == Some(encode_utf8(config_device)),
        header_lookup(headers, HEADER_TIMESTAMP@) == Some(
            encode_utf8(decimal_text(timestamp as nat)),
        ),
        header_lookup(headers, HEADER_SIGNATURE@) == Some(
            encode_utf8(request_signature(secret, method, path, timestamp, body)),
        ),
    ensures
        verification_outcome(
            config_device,
            secret,
            max_skew_seconds,
            headers,
            method,
            path,
            body,
            now,
        ) == Ok::<Seq<char>, AuthError>(config_device),
{
    assert forall|i: int| 0 <= i < config_device.len() implies is_header_char(
        #[trigger] config_device[i],
    ) by {
        assert(is_identifier_char(config_device[i]));
    }
    lemma_header_text_reads_back(config_device);

    let time_text = decimal_text(timestamp as nat);
    lemma_decimal_text_digits(timestamp as nat);
    assert forall|i: int| 0 <= i < time_text.len() implies is_header_char(#[trigger] time_text[i]) by {
        assert(is_digit_char(time_text[i]));
    }
    lemma_header_text_reads_back(time_text);
    lemma_decimal_text_parses(timestamp);

    let tag = request_tag(secret, method, path, timestamp, body);
    let signature = request_signature(secret, method, path, timestamp, body);
    lemma_hex_roundtrip(tag);
    assert forall|i: int| 0 <= i < signature.len() implies is_header_char(#[trigger] signature[i]) by {
        assert(is_hex_lower_char(signature[i]));
    }
    lemma_header_text_reads_back(signature);
}

/// The timestamp a request's header carries, when it can be read.
pub open spec fn header_timestamp(headers: Seq<(Seq<char>, Seq<u8>)>) -> Option<u64> {
    match header_value_of(headers, HEADER_TIMESTAMP) {
        Ok(text) => parsed_u64(text),
        Err(_) => None,
    }
}

/// The signature bytes a request's header carries, when it can be read.
pub open spec fn header_signature(headers: Seq<(Seq<char>, Seq<u8>)>) -> Option<Seq<u8>> {
    match header_value_of(headers, HEADER_SIGNATURE) {
        Ok(text) => hex_decoded(text),
        Err(_) => None,
    }
}

/// Only signed requests pass: a request that is authenticated at `now` comes
/// from the configured device, carries a timestamp within the allowed skew of
/// `now`, and its signature is the device's tag over that very request.
pub proof fn law_authenticated_request_was_signed(
    config_device: Seq<char>,
    secret: Seq<char>,
    max_skew_seconds: u64,
    headers: Seq<(Seq<char>, Seq<u8>)>,
    method: Seq<char>,
    path: Seq<char>,
    body: Seq<u8>,
    now: u64,
)
    requires
        verification_outcome(
            config_device,
            secret,
            max_skew_seconds,
            headers,
            method,
            path,
            body,
            now,
        ) is Ok,
    ensures
        verification_outcome(
            config_device,
            secret,
            max_skew_seconds,
            headers,
            method,
            path,
            body,
            now,
        ) == Ok::<Seq<char>, AuthError>(config_device),
        header_timestamp(headers) is Some,
        distance(now, header_timestamp(headers)->Some_0) <= max_skew_seconds,
        header_signature(headers) == Some(
            request_tag(secret, method, path, header_timestamp(headers)->Some_0, body),
        ),
{
}

} // verus!
