use sd_cpp_server::config::{parse_port, ConfigError, Context, Settings};

fn full() -> Settings {
    Settings {
        port: Some("8080".to_string()),
        token: Some("s3cret".to_string()),
        binary_path: Some("/usr/bin/sd".to_string()),
        args: Some("  --threads 4\t-v \n".to_string()),
        models_dir: Some("/models".to_string()),
        cache_dir: Some("/var/cache/sd".to_string()),
    }
}

fn error_of(settings: &Settings) -> ConfigError {
    match Context::from_settings(settings) {
        Ok(_) => panic!("a configuration was built"),
        Err(e) => e,
    }
}

#[test]
fn port_texts_that_name_a_port() {
    assert_eq!(parse_port("1"), Some(1));
    assert_eq!(parse_port("80"), Some(80));
    assert_eq!(parse_port("8080"), Some(8080));
    assert_eq!(parse_port("65535"), Some(65535));
    assert_eq!(parse_port("+443"), Some(443));
    assert_eq!(parse_port("0080"), Some(80));
    assert_eq!(parse_port("000000000000000000000000065535"), Some(65535));
}

#[test]
fn port_texts_that_name_none() {
    for text in [
        "", "+", "-1", "0", "+0", "000", "65536", "99999999999999999999", "80 ", " 80", "8o80",
        "0x50", "80.0", "++80", "\u{664}\u{662}",
    ] {
        assert_eq!(parse_port(text), None, "{:?}", text);
    }
}

#[test]
fn port_agrees_with_std_above_zero() {
    for text in ["1", "9", "10", "443", "+8080", "65535", "65536", "70000", "a", "", "+", "12a"] {
        assert_eq!(parse_port(text), text.parse::<u16>().ok(), "{:?}", text);
    }
}

#[test]
fn full_settings_give_the_configuration() {
    let ctx = match Context::from_settings(&full()) {
        Ok(c) => c,
        Err(e) => panic!("{:?}", e),
    };
    assert_eq!(ctx.port, 8080);
    assert_eq!(ctx.token, "s3cret");
    assert_eq!(ctx.binary_path, "/usr/bin/sd");
    assert_eq!(
        ctx.args,
        Some(vec!["--threads".to_string(), "4".to_string(), "-v".to_string()])
    );
    assert_eq!(ctx.models_dir, "/models");
    assert_eq!(ctx.cache_dir, "/var/cache/sd");
}

#[test]
fn optional_settings_fall_back() {
    let mut s = full();
    s.args = None;
    s.cache_dir = None;
    let ctx = match Context::from_settings(&s) {
        Ok(c) => c,
        Err(e) => panic!("{:?}", e),
    };
    assert_eq!(ctx.args, None);
    assert_eq!(ctx.cache_dir, "/tmp");
}

#[test]
fn blank_extra_arguments_are_an_empty_list() {
    let mut s = full();
    s.args = Some(" \t ".to_string());
    let ctx = match Context::from_settings(&s) {
        Ok(c) => c,
        Err(e) => panic!("{:?}", e),
    };
    assert_eq!(ctx.args, Some(Vec::new()));
}

#[test]
fn each_missing_setting_is_named() {
    let mut s = full();
    s.port = None;
    assert_eq!(error_of(&s), ConfigError::PortNotSet);
    let mut s = full();
    s.port = Some("http".to_string());
    assert_eq!(error_of(&s), ConfigError::PortInvalid);
    let mut s = full();
    s.port = Some("0".to_string());
    assert_eq!(error_of(&s), ConfigError::PortInvalid);
    let mut s = full();
    s.token = None;
    assert_eq!(error_of(&s), ConfigError::TokenNotSet);
    let mut s = full();
    s.binary_path = None;
    assert_eq!(error_of(&s), ConfigError::BinaryNotSet);
    let mut s = full();
    s.models_dir = None;
    assert_eq!(error_of(&s), ConfigError::ModelsNotSet);
}

#[test]
fn first_fault_wins() {
    let s = Settings {
        port: None,
        token: None,
        binary_path: None,
        args: None,
        models_dir: None,
        cache_dir: None,
    };
    assert_eq!(error_of(&s), ConfigError::PortNotSet);
    let mut s = full();
    s.token = None;
    s.models_dir = None;
    assert_eq!(error_of(&s), ConfigError::TokenNotSet);
}

#[test]
fn error_messages_name_the_setting() {
    assert_eq!(
        ConfigError::PortNotSet.message(),
        "SD_CPP_SERVER_PORT environment variable not set"
    );
    assert_eq!(
        ConfigError::PortInvalid.message(),
        "SD_CPP_SERVER_PORT must be a valid port number"
    );
    assert_eq!(
        ConfigError::TokenNotSet.message(),
        "SD_CPP_SERVER_TOKEN environment variable not set"
    );
    assert_eq!(
        ConfigError::BinaryNotSet.message(),
        "SD_CPP_SERVER_BINARY environment variable not set"
    );
    assert_eq!(
        ConfigError::ModelsNotSet.message(),
        "SD_CPP_SERVER_MODELS environment variable not set"
    );
}
