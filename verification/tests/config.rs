use orbix_backend::config::{parse_port, Config, ConfigError};

#[test]
fn absent_values_take_their_defaults() {
    let config = Config::from_env(None, "secret".to_string(), None, None, None).unwrap();
    assert_eq!(config.mongodb_uri, "mongodb://localhost:27017/orbix");
    assert_eq!(config.jwt_secret, "secret");
    assert_eq!(config.port, 5000);
    assert_eq!(config.openai_api_key, None);
    assert_eq!(config.ai_service_url, "http://localhost:8000");
}

#[test]
fn given_values_are_kept() {
    let config = Config::from_env(
        Some("mongodb://db:27017/x".to_string()),
        "s3".to_string(),
        Some("8080".to_string()),
        Some("key".to_string()),
        Some("http://ai:9000".to_string()),
    )
    .unwrap();
    assert_eq!(config.mongodb_uri, "mongodb://db:27017/x");
    assert_eq!(config.jwt_secret, "s3");
    assert_eq!(config.port, 8080);
    assert_eq!(config.openai_api_key, Some("key".to_string()));
    assert_eq!(config.ai_service_url, "http://ai:9000");
}

#[test]
fn a_port_that_is_no_number_is_an_error() {
    let r = Config::from_env(None, "s".to_string(), Some("http".to_string()), None, None);
    assert_eq!(r, Err(ConfigError::InvalidPort));
    let r = Config::from_env(None, "s".to_string(), Some("65536".to_string()), None, None);
    assert_eq!(r, Err(ConfigError::InvalidPort));
}

#[test]
fn parse_port_reads_decimal_numbers_up_to_65535() {
    assert_eq!(parse_port("0"), Some(0));
    assert_eq!(parse_port("5000"), Some(5000));
    assert_eq!(parse_port("65535"), Some(65535));
    assert_eq!(parse_port("+80"), Some(80));
    assert_eq!(parse_port("000080"), Some(80));
    assert_eq!(parse_port("65536"), None);
    assert_eq!(parse_port("99999999999999999999"), None);
    assert_eq!(parse_port(""), None);
    assert_eq!(parse_port("+"), None);
    assert_eq!(parse_port("-1"), None);
    assert_eq!(parse_port("80 "), None);
    assert_eq!(parse_port(" 80"), None);
    assert_eq!(parse_port("8_0"), None);
    assert_eq!(parse_port("8a"), None);
    assert_eq!(parse_port("++80"), None);
    assert_eq!(parse_port("٨٠"), None);
}

#[test]
fn parse_port_agrees_with_the_standard_parser() {
    for text in ["0", "1", "80", "+443", "65535", "65536", "", "+", "-", "-0", "1e3", "0x10", "00000", "70000", "6553a"] {
        assert_eq!(parse_port(text), text.parse::<u16>().ok(), "{:?}", text);
    }
}
