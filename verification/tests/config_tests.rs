use wemove::config::{Args, AuthConfig};

#[test]
fn test_args_default() {
    let args = Args::default();
    assert_eq!(args.host, "127.0.0.1");
    assert_eq!(args.port, 8080);
}

#[test]
fn args_default_log_level_and_no_config_file() {
    let args = Args::default();
    assert_eq!(args.log_level, "info");
    assert!(args.config.is_none());
}

#[test]
fn address_text_joins_host_and_port() {
    let args = Args::default();
    assert_eq!(args.address_text(), "127.0.0.1:8080");
    let other = Args { host: "0.0.0.0".to_string(), port: 3000, log_level: "debug".to_string(), config: None };
    assert_eq!(other.address_text(), "0.0.0.0:3000");
    let zero = Args { host: "::1".to_string(), port: 0, log_level: "info".to_string(), config: None };
    assert_eq!(zero.address_text(), "::1:0");
    let max = Args { host: "h".to_string(), port: 65535, log_level: "info".to_string(), config: None };
    assert_eq!(max.address_text(), "h:65535");
}

#[test]
fn auth_config_needs_a_secret() {
    assert!(AuthConfig::from_values(None, Some("10".to_string())).is_none());
    assert!(AuthConfig::from_values(None, None).is_none());
}

#[test]
fn auth_config_defaults_expiry_to_one_hour() {
    let c = AuthConfig::from_values(Some("s3cret".to_string()), None).unwrap();
    assert_eq!(c.jwt_secret, "s3cret");
    assert_eq!(c.token_expiry_secs, 3600);
    let c = AuthConfig::from_values(Some("s".to_string()), Some("soon".to_string())).unwrap();
    assert_eq!(c.token_expiry_secs, 3600);
    let c = AuthConfig::from_values(Some("s".to_string()), Some("".to_string())).unwrap();
    assert_eq!(c.token_expiry_secs, 3600);
    let c = AuthConfig::from_values(Some("s".to_string()), Some("-5".to_string())).unwrap();
    assert_eq!(c.token_expiry_secs, 3600);
    let c = AuthConfig::from_values(Some("s".to_string()), Some("18446744073709551616".to_string())).unwrap();
    assert_eq!(c.token_expiry_secs, 3600);
}

#[test]
fn auth_config_reads_expiry() {
    let c = AuthConfig::from_values(Some("s".to_string()), Some("7200".to_string())).unwrap();
    assert_eq!(c.token_expiry_secs, 7200);
    let c = AuthConfig::from_values(Some("s".to_string()), Some("+60".to_string())).unwrap();
    assert_eq!(c.token_expiry_secs, 60);
    let c = AuthConfig::from_values(Some("s".to_string()), Some("18446744073709551615".to_string())).unwrap();
    assert_eq!(c.token_expiry_secs, u64::MAX);
}
