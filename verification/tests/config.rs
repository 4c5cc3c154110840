use lightning_terminal::config::{
    gateway_config_from, read_integer_setting, ConfigValueError, DEFAULT_AUTH_MAX_SKEW_SECONDS,
    DEFAULT_INVOICE_TTL_SECONDS,
};
use lightning_terminal::models::ValidationError;

#[test]
fn missing_settings_take_their_defaults() {
    let config = gateway_config_from(None, None, None, None).unwrap();
    assert_eq!(config.device_id.as_str(), "dev-terminal-001");
    assert_eq!(config.device_secret, "change-me-development-secret");
    assert_eq!(config.invoice_ttl_seconds, 900);
    assert_eq!(config.auth_max_skew_seconds, 300);
    assert_eq!(DEFAULT_INVOICE_TTL_SECONDS, 900);
    assert_eq!(DEFAULT_AUTH_MAX_SKEW_SECONDS, 300);
}

#[test]
fn configured_settings_are_used() {
    let config = gateway_config_from(
        Some("terminal-42"),
        Some("s3cret".to_string()),
        Some("60"),
        Some("+15"),
    )
    .unwrap();
    assert_eq!(config.device_id.as_str(), "terminal-42");
    assert_eq!(config.device_secret, "s3cret");
    assert_eq!(config.invoice_ttl_seconds, 60);
    assert_eq!(config.auth_max_skew_seconds, 15);
}

#[test]
fn invalid_device_id_is_refused_first() {
    let result = gateway_config_from(Some("bad id"), None, Some("x"), None);
    assert_eq!(
        result.unwrap_err(),
        ConfigValueError::InvalidDeviceId(ValidationError::InvalidCharacters {
            field: "device_id"
        })
    );
    let result = gateway_config_from(Some(""), None, None, None);
    assert_eq!(
        result.unwrap_err(),
        ConfigValueError::InvalidDeviceId(ValidationError::Empty { field: "device_id" })
    );
}

#[test]
fn invalid_integers_name_their_setting() {
    let result = gateway_config_from(None, None, Some("15m"), Some("-1"));
    assert_eq!(
        result.unwrap_err(),
        ConfigValueError::InvalidInteger {
            name: "GATEWAY_INVOICE_TTL_SECONDS",
            value: "15m".to_string()
        }
    );
    let result = gateway_config_from(None, None, Some("900"), Some("-1"));
    assert_eq!(
        result.unwrap_err(),
        ConfigValueError::InvalidInteger {
            name: "GATEWAY_AUTH_MAX_SKEW_SECONDS",
            value: "-1".to_string()
        }
    );
}

#[test]
fn integer_settings_must_fit_in_u64() {
    assert_eq!(
        read_integer_setting("N", Some("18446744073709551615"), 1),
        Ok(u64::MAX)
    );
    assert_eq!(
        read_integer_setting("N", Some("18446744073709551616"), 1),
        Err(ConfigValueError::InvalidInteger {
            name: "N",
            value: "18446744073709551616".to_string()
        })
    );
    assert_eq!(read_integer_setting("N", None, 7), Ok(7));
    assert!(read_integer_setting("N", Some(""), 7).is_err());
}
