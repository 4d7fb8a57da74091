use announce_bot::config::{
    default_log_level, is_log_level, Config, ConfigError, Environment, RateLimitConfig,
    RetryConfig, Secrets, ServerConfig, TimeoutConfig,
};

fn text(n: usize) -> String {
    "k".repeat(n)
}

fn secrets(gh: usize, key: usize, secret: usize, token: usize, token_secret: usize) -> Secrets {
    Secrets::new(text(gh), text(key), text(secret), text(token), text(token_secret))
}

fn config() -> Config {
    Config {
        environment: Environment::Development,
        server: ServerConfig {
            host: "127.0.0.1:7878".to_string(),
            port: 7878,
            webhook_path: "/webhook".to_string(),
        },
        rate_limit: RateLimitConfig { max_requests: 100, window_seconds: 3600 },
        retry: RetryConfig { max_attempts: 3, initial_delay_ms: 1000, max_delay_ms: 5000 },
        timeout: TimeoutConfig { connect_seconds: 10, read_seconds: 30, write_seconds: 30 },
        secrets: secrets(40, 25, 32, 32, 32),
        repo_owner: "delta-rs".to_string(),
        repo_name: "delta".to_string(),
        log_level: "INFO".to_string(),
    }
}

#[test]
fn valid_secrets_pass() {
    assert_eq!(secrets(40, 25, 32, 32, 32).validate(), Ok(()));
}

#[test]
fn each_secret_fault_is_reported() {
    assert_eq!(secrets(0, 25, 32, 32, 32).validate(), Err(ConfigError::MissingGithubToken));
    assert_eq!(secrets(39, 25, 32, 32, 32).validate(), Err(ConfigError::GithubTokenLength));
    assert_eq!(secrets(41, 25, 32, 32, 32).validate(), Err(ConfigError::GithubTokenLength));
    assert_eq!(secrets(40, 0, 32, 32, 32).validate(), Err(ConfigError::MissingXApiKey));
    assert_eq!(secrets(40, 24, 32, 32, 32).validate(), Err(ConfigError::XApiKeyTooShort));
    assert_eq!(secrets(40, 25, 0, 32, 32).validate(), Err(ConfigError::MissingXApiSecret));
    assert_eq!(secrets(40, 25, 31, 32, 32).validate(), Err(ConfigError::XApiSecretTooShort));
    assert_eq!(secrets(40, 25, 32, 0, 32).validate(), Err(ConfigError::MissingXAccessToken));
    assert_eq!(secrets(40, 25, 32, 31, 32).validate(), Err(ConfigError::XAccessTokenTooShort));
    assert_eq!(secrets(40, 25, 32, 32, 0).validate(), Err(ConfigError::MissingXAccessSecret));
    assert_eq!(secrets(40, 25, 32, 32, 31).validate(), Err(ConfigError::XAccessSecretTooShort));
}

#[test]
fn token_length_counts_bytes() {
    let s = Secrets::new("é".repeat(20), text(25), text(32), text(32), text(32));
    assert_eq!(s.validate(), Ok(()));
}

#[test]
fn getters_hand_back_secrets() {
    let s = Secrets::new("a".into(), "b".into(), "c".into(), "d".into(), "e".into());
    assert_eq!(
        [s.github_token(), s.x_api_key(), s.x_api_secret(), s.x_access_token(), s.x_access_secret()],
        ["a", "b", "c", "d", "e"]
    );
    let c = config();
    assert_eq!(c.github_token(), text(40));
    assert_eq!(c.x_api_key(), text(25));
    assert_eq!(c.x_api_secret(), text(32));
    assert_eq!(c.x_access_token(), text(32));
    assert_eq!(c.x_access_secret(), text(32));
}

#[test]
fn valid_config_passes_with_any_case_log_level() {
    assert_eq!(config().validate(), Ok(()));
}

#[test]
fn each_config_fault_is_reported() {
    let mut c = config();
    c.repo_name = String::new();
    assert_eq!(c.validate(), Err(ConfigError::EmptyRepository));
    let mut c = config();
    c.repo_owner = String::new();
    assert_eq!(c.validate(), Err(ConfigError::EmptyRepository));
    let mut c = config();
    c.log_level = "Verbose".to_string();
    assert_eq!(c.validate(), Err(ConfigError::InvalidLogLevel("Verbose".to_string())));
    let mut c = config();
    c.rate_limit.max_requests = 0;
    assert_eq!(c.validate(), Err(ConfigError::ZeroRateLimitRequests));
    let mut c = config();
    c.rate_limit.window_seconds = 0;
    assert_eq!(c.validate(), Err(ConfigError::ZeroRateLimitWindow));
    let mut c = config();
    c.retry.max_attempts = 0;
    assert_eq!(c.validate(), Err(ConfigError::ZeroRetryAttempts));
    let mut c = config();
    c.retry.initial_delay_ms = 0;
    assert_eq!(c.validate(), Err(ConfigError::ZeroRetryDelay));
    let mut c = config();
    c.retry.max_delay_ms = 999;
    assert_eq!(c.validate(), Err(ConfigError::RetryDelayOrder));
    let mut c = config();
    c.timeout.connect_seconds = 0;
    assert_eq!(c.validate(), Err(ConfigError::ZeroConnectTimeout));
    let mut c = config();
    c.timeout.read_seconds = 0;
    assert_eq!(c.validate(), Err(ConfigError::ZeroReadTimeout));
    let mut c = config();
    c.timeout.write_seconds = 0;
    assert_eq!(c.validate(), Err(ConfigError::ZeroWriteTimeout));
}

#[test]
fn log_levels_are_known_in_lower_case() {
    for level in ["error", "warn", "info", "debug", "trace"] {
        assert!(is_log_level(level));
    }
    assert!(!is_log_level("INFO"));
    assert!(!is_log_level("information"));
    assert_eq!(config().validate_lowered("fatal"), Err(ConfigError::InvalidLogLevel("INFO".to_string())));
}

#[test]
fn environment_names_in_any_case() {
    assert_eq!(Environment::from_name("DEV"), Ok(Environment::Development));
    assert_eq!(Environment::from_name("development"), Ok(Environment::Development));
    assert_eq!(Environment::from_name("Prod"), Ok(Environment::Production));
    assert_eq!(Environment::from_name("PRODUCTION"), Ok(Environment::Production));
    assert_eq!(Environment::from_name("staging"), Err(ConfigError::InvalidEnvironment("staging".to_string())));
    assert_eq!(Environment::from_lowercase("DEV"), None);
}

#[test]
fn default_log_level_is_info() {
    assert_eq!(default_log_level(), "info");
}

#[test]
fn webhook_url_joins_host_and_path() {
    assert_eq!(config().webhook_url(), "http://127.0.0.1:7878/webhook");
}
