use zere::CliError;
use zere::Config;
use zere::config_file_in_dir;

#[test]
fn test_default_config() {
    let config = Config::default();
    assert_eq!(config.api.endpoint, "https://api.zeredata.com");
    assert!(config.auth.api_key.is_none());
    assert!(!config.is_authenticated());
}

#[test]
fn set_endpoint_replaces_endpoint_only() {
    let mut config = Config::default();
    config.set_endpoint("https://example.invalid".to_string());
    assert_eq!(config.api.endpoint, "https://example.invalid");
    assert!(config.auth.api_key.is_none());
}

#[test]
fn set_api_key_round_trip() {
    let mut config = Config::default();
    config.set_api_key(Some("SECRET-REDACTED".to_string()));
    assert!(config.is_authenticated());
    assert_eq!(config.require_auth().unwrap(), "SECRET-REDACTED");
    config.set_api_key(None);
    assert!(!config.is_authenticated());
}

#[test]
fn require_auth_without_key_is_error() {
    let config = Config::default();
    match config.require_auth() {
        Err(CliError::NotAuthenticated) => {}
        _ => panic!("expected NotAuthenticated"),
    }
}

#[test]
fn config_file_name_is_appended() {
    assert_eq!(config_file_in_dir("/home/user/.config/zere"), "/home/user/.config/zere/config.toml");
}

#[test]
fn config_path_ends_with_file_name() {
    match Config::config_path() {
        Ok(p) => assert!(p.ends_with("/config.toml")),
        Err(CliError::Config(m)) => assert_eq!(m, "Could not determine config directory"),
        Err(_) => panic!("unexpected error variant"),
    }
}

#[test]
fn error_messages() {
    assert_eq!(CliError::Api("boom".to_string()).message(), "API error: boom");
    assert_eq!(
        CliError::NotAuthenticated.message(),
        "Not authenticated. Please run 'zere login' first"
    );
    assert_eq!(CliError::InvalidResponse.message(), "Invalid response from server");
    assert_eq!(CliError::Other("plain".to_string()).message(), "plain");
}
