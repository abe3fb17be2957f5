use rtwod2::config::{
    default_interval, default_mode, default_timeout, ProviderMode, UpdateConfig,
};
use rtwod2::errors::{FetchError, UpdateError};

#[test]
fn defaults_match_the_documented_values() {
    assert_eq!(default_timeout(), 5);
    assert_eq!(default_interval(), 300);
    assert!(matches!(default_mode(), ProviderMode::Random));
}

#[test]
fn update_config_validity_is_a_non_empty_endpoint_list() {
    let empty = UpdateConfig {
        interval: 300,
        timeout: 5,
        mode: ProviderMode::RoundRobin,
        urls: vec![],
    };
    assert!(!empty.is_valid());
    let one = UpdateConfig {
        interval: 300,
        timeout: 5,
        mode: ProviderMode::RoundRobin,
        urls: vec![String::from("http://a.example")],
    };
    assert!(one.is_valid());
}

#[test]
fn fetch_error_messages_carry_their_cause() {
    assert_eq!(
        FetchError::transport(String::from("dns lookup failed")).message(),
        "failed to fetch IP: dns lookup failed"
    );
    assert_eq!(FetchError::status(404).message(), "failed to fetch IP: unexpected HTTP status 404");
    assert_eq!(FetchError::status(0).message(), "failed to fetch IP: unexpected HTTP status 0");
    assert_eq!(
        FetchError::status(65535).message(),
        "failed to fetch IP: unexpected HTTP status 65535"
    );
    assert_eq!(
        FetchError::malformed_payload().message(),
        "failed to fetch IP: malformed provider payload"
    );
}

#[test]
fn update_error_messages_carry_their_cause() {
    assert_eq!(
        UpdateError::transport(String::from("connection reset")).message(),
        "failed to update recorded IP: connection reset"
    );
    assert_eq!(
        UpdateError::status(502).message(),
        "failed to update recorded IP: unexpected HTTP status 502"
    );
}
