//! The gateway's settings, and how they are read from optional text values.
use vstd::prelude::*;

use crate::models::{identifier_rejection, DeviceId, ValidationError, MAX_IDENTIFIER_LEN};
use crate::text::{parse_u64, parsed_u64};

verus! {

/// How long an invoice lives when no lifetime is configured, in seconds.
pub const DEFAULT_INVOICE_TTL_SECONDS: u64 = 900;

/// How far a request's clock may be off when no bound is configured, in seconds.
pub const DEFAULT_AUTH_MAX_SKEW_SECONDS: u64 = 300;

/// The device id used when none is configured.
pub open spec fn default_device_id() -> Seq<char> {
    "dev-terminal-001"@
}

/// The shared secret used when none is configured; fit for development only.
pub open spec fn default_device_secret() -> Seq<char> {
    "change-me-development-secret"@
}

/// The gateway's knowledge of its one terminal, and its policies: how long
/// invoices live and how far a request's clock may be off.
#[derive(Debug, Clone)]
pub struct GatewayConfig {
    pub device_id: DeviceId,
    pub device_secret: String,
    pub invoice_ttl_seconds: u64,
    pub auth_max_skew_seconds: u64,
}

/// Why a configured value was refused.
#[derive(Debug, Clone, PartialEq, Eq)]
pub enum ConfigValueError {
    /// The configured device id is not a valid identifier.
    InvalidDeviceId(ValidationError),
    /// The setting `name` holds `value`, which is not a `u64` in decimal.
    InvalidInteger { name: &'static str, value: String },
}

/// The text of a setting: the configured one, else the default.
pub open spec fn text_setting(value: Option<&str>, default: Seq<char>) -> Seq<char> {
    match value {
        Some(text) => text@,
        None => default,
    }
}

/// The number a setting gives: the configured text read as a `u64`, or the
/// default when nothing is configured; `None` when the text is no `u64`.
pub open spec fn integer_setting(value: Option<&str>, default: u64) -> Option<u64> {
    match value {
        Some(text) => parsed_u64(text@),
        None => Some(default),
    }
}

/// Reads the integer setting `name` from its configured text, if any.
pub fn read_integer_setting(name: &'static str, value: Option<&str>, default: u64) -> (res: Result<
    u64,
    ConfigValueError,
>)
    ensures
        match res {
            Ok(n) => integer_setting(value, default) == Some(n),
            Err(e) => {
                &&& integer_setting(value, default) is None
                &&& value is Some
                &&& e matches ConfigValueError::InvalidInteger { name: n, value: v }
                &&& n == name
                &&& v@ == value->0@
            },
        },
{
    match value {
        None => Ok(default),
        Some(text) => match parse_u64(text) {
            Some(n) => Ok(n),
            None => Err(ConfigValueError::InvalidInteger { name, value: text.to_owned() }),
        },
    }
}

/// Builds the gateway's settings from the configured values, each of which
/// may be missing: the device id, the device secret, the invoice lifetime and
/// the allowed clock skew, the last two as decimal text. A missing value takes
/// its default. The device id is checked first, then the lifetime, then the
/// skew; the first that is refused gives the error.
pub fn gateway_config_from(
    device_id: Option<&str>,
    device_secret: Option<String>,
    invoice_ttl: Option<&str>,
    auth_max_skew: Option<&str>,
) -> (res: Result<GatewayConfig, ConfigValueError>)
    ensures
        match res {
            Ok(config) => {
                &&& identifier_rejection(
                    "device_id",
                    text_setting(device_id, default_device_id()),
                    MAX_IDENTIFIER_LEN,
                ) is None
                &&& config.device_id@ == text_setting(device_id, default_device_id())
                &&& config.device_secret@ == (match device_secret {
                    Some(s) => s@,
                    None => default_device_secret(),
                })
                &&& integer_setting(invoice_ttl, DEFAULT_INVOICE_TTL_SECONDS) == Some(
                    config.invoice_ttl_seconds,
                )
                &&& integer_setting(auth_max_skew, DEFAULT_AUTH_MAX_SKEW_SECONDS) == Some(
                    config.auth_max_skew_seconds,
                )
            },
            Err(ConfigValueError::InvalidDeviceId(e)) => identifier_rejection(
                "device_id",
                text_setting(device_id, default_device_id()),
                MAX_IDENTIFIER_LEN,
            ) == Some(e),
            Err(ConfigValueError::InvalidInteger { name, value }) => {
                &&& identifier_rejection(
                    "device_id",
                    text_setting(device_id, default_device_id()),
                    MAX_IDENTIFIER_LEN,
                ) is None
                &&& {
                    ||| {
                        &&& integer_setting(invoice_ttl, DEFAULT_INVOICE_TTL_SECONDS) is None
                        &&& name == "GATEWAY_INVOICE_TTL_SECONDS"
                        &&& value@ == invoice_ttl->0@
                    }
                    ||| {
                        &&& integer_setting(invoice_ttl, DEFAULT_INVOICE_TTL_SECONDS) is Some
                        &&& integer_setting(auth_max_skew, DEFAULT_AUTH_MAX_SKEW_SECONDS) is None
                        &&& name == "GATEWAY_AUTH_MAX_SKEW_SECONDS"
                        &&& value@ == auth_max_skew->0@
                    }
                }
            },
        },
{
    let device_id = match device_id {
        Some(text) => DeviceId::new(text),
        None => DeviceId::new("dev-terminal-001"),
    };
    let device_id = match device_id {
        Ok(id) => id,
        Err(e) => return Err(ConfigValueError::InvalidDeviceId(e)),
    };
    let device_secret = match device_secret {
        Some(secret) => secret,
        None => String::from_str("change-me-development-secret"),
    };
    let invoice_ttl_seconds = match read_integer_setting(
        "GATEWAY_INVOICE_TTL_SECONDS",
        invoice_ttl,
        DEFAULT_INVOICE_TTL_SECONDS,
    ) {
        Ok(n) => n,
        Err(e) => return Err(e),
    };
    let auth_max_skew_seconds = match read_integer_setting(
        "GATEWAY_AUTH_MAX_SKEW_SECONDS",
        auth_max_skew,
        DEFAULT_AUTH_MAX_SKEW_SECONDS,
    ) {
        Ok(n) => n,
        Err(e) => return Err(e),
    };
    Ok(GatewayConfig { device_id, device_secret, invoice_ttl_seconds, auth_max_skew_seconds })
}

} // verus!
