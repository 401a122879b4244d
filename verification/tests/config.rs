use plex_transmission_throttler::transmission::validate_config;
use plex_transmission_throttler::transmission::wrap_backend_failure;
use plex_transmission_throttler::transmission::ConfigError;

#[test]
fn complete_config_is_kept_verbatim() {
    let r = validate_config(
        Some(String::from("http://localhost:9091/transmission/rpc")),
        Some(String::from("admin")),
        Some(String::from("swordfish")),
    );
    match r {
        Ok(config) => {
            assert_eq!(config.url, "http://localhost:9091/transmission/rpc");
            assert_eq!(config.user, "admin");
            assert_eq!(config.password, "swordfish");
        }
        Err(e) => panic!("expected a valid configuration, got {:?}", e),
    }
}

#[test]
fn each_missing_config_value_is_named() {
    let r = validate_config(None, Some(String::from("admin")), Some(String::from("x")));
    assert_eq!(r.unwrap_err(), ConfigError::MissingUrl);

    let r = validate_config(Some(String::from("http://h")), None, Some(String::from("x")));
    assert_eq!(r.unwrap_err(), ConfigError::MissingUsername);

    let r = validate_config(Some(String::from("http://h")), Some(String::from("admin")), None);
    assert_eq!(r.unwrap_err(), ConfigError::MissingPassword);

    let r = validate_config(None, None, None);
    assert_eq!(r.unwrap_err(), ConfigError::MissingUrl);
}

#[test]
fn config_error_messages_name_the_variable() {
    assert_eq!(
        ConfigError::MissingUrl.message(),
        "TRANSMISSION_URL environment variable should be set."
    );
    assert_eq!(
        ConfigError::MissingUsername.message(),
        "TRANSMISSION_USERNAME environment variable should be set."
    );
    assert_eq!(
        ConfigError::MissingPassword.message(),
        "TRANSMISSION_PASSWORD environment variable should be set."
    );
}

#[test]
fn wrapped_failures_name_the_operation() {
    let e = wrap_backend_failure(true, "connection reset");
    assert_eq!(e.message, "Cannot enable alt speed: connection reset");
    let e = wrap_backend_failure(false, "401 unauthorized");
    assert_eq!(e.message, "Cannot disable alt speed: 401 unauthorized");
}
