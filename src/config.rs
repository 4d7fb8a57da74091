use vstd::prelude::*;

use crate::text::str_equal;

verus! {

/// The length of a text in bytes, as UTF-8, as `str::len` reports it.
pub open spec fn byte_len(s: Seq<char>) -> usize {
    vstd::utf8::encode_utf8(s).len() as usize
}

/// The text with every character put in lower case.
pub uninterp spec fn lowercase_of(s: Seq<char>) -> Seq<char>;

/// Relies on str::to_lowercase: the lower-case form of a text, which
/// depends on the characters alone.
#[verifier::external_body]
fn lowercase(s: &str) -> (r: String)
    ensures
        r@ == lowercase_of(s@),
{
    s.to_lowercase()
}

/// The environment the application runs in.
#[derive(PartialEq, Eq, Structural, Clone, Copy, Debug)]
pub enum Environment {
    Development,
    Production,
}

/// Why a configuration was refused.
#[derive(Debug, Clone, PartialEq, Eq)]
pub enum ConfigError {
    InvalidEnvironment(String),
    MissingGithubToken,
    GithubTokenLength,
    MissingXApiKey,
    XApiKeyTooShort,
    MissingXApiSecret,
    XApiSecretTooShort,
    MissingXAccessToken,
    XAccessTokenTooShort,
    MissingXAccessSecret,
    XAccessSecretTooShort,
    EmptyRepository,
    InvalidLogLevel(String),
    ZeroRateLimitRequests,
    ZeroRateLimitWindow,
    ZeroRetryAttempts,
    ZeroRetryDelay,
    RetryDelayOrder,
    ZeroConnectTimeout,
    ZeroReadTimeout,
    ZeroWriteTimeout,
}

/// The environment that a lower-case name stands for.
pub open spec fn environment_named(lowered: Seq<char>) -> Option<Environment> {
    if lowered == "development"@ || lowered == "dev"@ {
        Some(Environment::Development)
    } else if lowered == "production"@ || lowered == "prod"@ {
        Some(Environment::Production)
    } else {
        None
    }
}

/// Whether a lower-case name is that of a log level.
pub open spec fn log_level_named(lowered: Seq<char>) -> bool {
    lowered == "error"@ || lowered == "warn"@ || lowered == "info"@ || lowered == "debug"@
        || lowered == "trace"@
}

impl Environment {
    /// The environment that a lower-case name stands for, if any.
    pub fn from_lowercase(lowered: &str) -> (r: Option<Environment>)
        ensures
            r == environment_named(lowered@),
    {
        if str_equal(lowered, "development") || str_equal(lowered, "dev") {
            Some(Environment::Development)
        } else if str_equal(lowered, "production") || str_equal(lowered, "prod") {
            Some(Environment::Production)
        } else {
            None
        }
    }

    /// The environment that a name stands for, in any case.
    pub fn from_name(s: &str) -> (r: Result<Environment, ConfigError>)
        ensures
            match environment_named(lowercase_of(s@)) {
                Some(e) => r == Ok::<Environment, ConfigError>(e),
                None => r matches Err(ConfigError::InvalidEnvironment(t)) && t@ == s@,
            },
    {
        let lowered = lowercase(s);
        match Environment::from_lowercase(lowered.as_str()) {
            Some(e) => Ok(e),
            None => Err(ConfigError::InvalidEnvironment(s.to_owned())),
        }
    }
}

/// Whether a lower-case name is that of a log level.
pub fn is_log_level(lowered: &str) -> (r: bool)
    ensures
        r == log_level_named(lowered@),
{
    str_equal(lowered, "error") || str_equal(lowered, "warn") || str_equal(lowered, "info")
        || str_equal(lowered, "debug") || str_equal(lowered, "trace")
}

/// Where the webhook server listens.
pub struct ServerConfig {
    pub host: String,
    pub port: u16,
    pub webhook_path: String,
}

/// How many requests go out per window.
pub struct RateLimitConfig {
    /// Most requests in one window.
    pub max_requests: u32,
    /// Length of the window in seconds.
    pub window_seconds: u64,
}

/// How failed operations are retried.
pub struct RetryConfig {
    pub max_attempts: u32,
    /// First delay between attempts, in milliseconds.
    pub initial_delay_ms: u64,
    /// Longest delay between attempts, in milliseconds.
    pub max_delay_ms: u64,
}

/// Timeouts of outbound requests, in seconds.
pub struct TimeoutConfig {
    pub connect_seconds: u64,
    pub read_seconds: u64,
    pub write_seconds: u64,
}

/// Credentials; read only through the getters, never displayed.
pub struct Secrets {
    github_token: String,
    x_api_key: String,
    x_api_secret: String,
    x_access_token: String,
    x_access_secret: String,
}

/// The first fault of a set of credentials, in the order in which they are
/// checked.
pub open spec fn secrets_fault(
    github_token: Seq<char>,
    x_api_key: Seq<char>,
    x_api_secret: Seq<char>,
    x_access_token: Seq<char>,
    x_access_secret: Seq<char>,
) -> Option<ConfigError> {
    if github_token.len() == 0 {
        Some(ConfigError::MissingGithubToken)
    } else if byte_len(github_token) != 40 {
        Some(ConfigError::GithubTokenLength)
    } else if x_api_key.len() == 0 {
        Some(ConfigError::MissingXApiKey)
    } else if byte_len(x_api_key) < 25 {
        Some(ConfigError::XApiKeyTooShort)
    } else if x_api_secret.len() == 0 {
        Some(ConfigError::MissingXApiSecret)
    } else if byte_len(x_api_secret) < 32 {
        Some(ConfigError::XApiSecretTooShort)
    } else if x_access_token.len() == 0 {
        Some(ConfigError::MissingXAccessToken)
    } else if byte_len(x_access_token) < 32 {
        Some(ConfigError::XAccessTokenTooShort)
    } else if x_access_secret.len() == 0 {
        Some(ConfigError::MissingXAccessSecret)
    } else if byte_len(x_access_secret) < 32 {
        Some(ConfigError::XAccessSecretTooShort)
    } else {
        None
    }
}

impl Secrets {
    pub closed spec fn spec_github_token(&self) -> Seq<char> {
        self.github_token@
    }

    pub closed spec fn spec_x_api_key(&self) -> Seq<char> {
        self.x_api_key@
    }

    pub closed spec fn spec_x_api_secret(&self) -> Seq<char> {
        self.x_api_secret@
    }

    pub closed spec fn spec_x_access_token(&self) -> Seq<char> {
        self.x_access_token@
    }

    pub closed spec fn spec_x_access_secret(&self) -> Seq<char> {
        self.x_access_secret@
    }

    /// The fault of these credentials, if any.
    pub open spec fn fault(&self) -> Option<ConfigError> {
        secrets_fault(
            self.spec_github_token(),
            self.spec_x_api_key(),
            self.spec_x_api_secret(),
            self.spec_x_access_token(),
            self.spec_x_access_secret(),
        )
    }

    pub fn new(
        github_token: String,
        x_api_key: String,
        x_api_secret: String,
        x_access_token: String,
        x_access_secret: String,
    ) -> (r: Self)
        ensures
            r.spec_github_token() == github_token@,
            r.spec_x_api_key() == x_api_key@,
            r.spec_x_api_secret() == x_api_secret@,
            r.spec_x_access_token() == x_access_token@,
            r.spec_x_access_secret() == x_access_secret@,
    {
        Secrets { github_token, x_api_key, x_api_secret, x_access_token, x_access_secret }
    }

    pub fn github_token(&self) -> (r: &str)
        ensures
            r@ == self.spec_github_token(),
    {
        self.github_token.as_str()
    }

    pub fn x_api_key(&self) -> (r: &str)
        ensures
            r@ == self.spec_x_api_key(),
    {
        self.x_api_key.as_str()
    }

    pub fn x_api_secret(&self) -> (r: &str)
        ensures
            r@ == self.spec_x_api_secret(),
    {
        self.x_api_secret.as_str()
    }

    pub fn x_access_token(&self) -> (r: &str)
        ensures
            r@ == self.spec_x_access_token(),
    {
        self.x_access_token.as_str()
    }

    pub fn x_access_secret(&self) -> (r: &str)
        ensures
            r@ == self.spec_x_access_secret(),
    {
        self.x_access_secret.as_str()
    }

    /// Checks every credential: each must be set, the GitHub token 40 bytes
    /// long, the X API key at least 25 bytes, the other X credentials at
    /// least 32. The first fault found is returned.
    pub fn validate(&self) -> (r: Result<(), ConfigError>)
        ensures
            match self.fault() {
                None => r is Ok,
                Some(e) => r == Err::<(), ConfigError>(e),
            },
    {
        if self.github_token.as_str().is_empty() {
            return Err(ConfigError::MissingGithubToken);
        }
        if self.github_token.as_str().len() != 40 {
            return Err(ConfigError::GithubTokenLength);
        }
        if self.x_api_key.as_str().is_empty() {
            return Err(ConfigError::MissingXApiKey);
        }
        if self.x_api_key.as_str().len() < 25 {
            return Err(ConfigError::XApiKeyTooShort);
        }
        if self.x_api_secret.as_str().is_empty() {
            return Err(ConfigError::MissingXApiSecret);
        }
        if self.x_api_secret.as_str().len() < 32 {
            return Err(ConfigError::XApiSecretTooShort);
        }
        if self.x_access_token.as_str().is_empty() {
            return Err(ConfigError::MissingXAccessToken);
        }
        if self.x_access_token.as_str().len() < 32 {
            return Err(ConfigError::XAccessTokenTooShort);
        }
        if self.x_access_secret.as_str().is_empty() {
            return Err(ConfigError::MissingXAccessSecret);
        }
        if self.x_access_secret.as_str().len() < 32 {
            return Err(ConfigError::XAccessSecretTooShort);
        }
        Ok(())
    }
}

/// The log level used where none is configured.
pub fn default_log_level() -> (r: String)
    ensures
        r@ == "info"@,
{
    String::from_str("info")
}

/// The configuration of the application.
pub struct Config {
    pub environment: Environment,
    pub server: ServerConfig,
    pub rate_limit: RateLimitConfig,
    pub retry: RetryConfig,
    pub timeout: TimeoutConfig,
    pub secrets: Secrets,
    /// Owner of the repository: a user or an organization.
    pub repo_owner: String,
    pub repo_name: String,
    pub log_level: String,
}

/// The first fault of a configuration whose log level reads `lowered_level`
/// in lower case, in the order in which the checks run.
pub open spec fn config_fault(c: Config, lowered_level: Seq<char>) -> Option<ConfigError> {
    if c.repo_owner@.len() == 0 || c.repo_name@.len() == 0 {
        Some(ConfigError::EmptyRepository)
    } else if !log_level_named(lowered_level) {
        Some(ConfigError::InvalidLogLevel(c.log_level))
    } else if c.rate_limit.max_requests == 0 {
        Some(ConfigError::ZeroRateLimitRequests)
    } else if c.rate_limit.window_seconds == 0 {
        Some(ConfigError::ZeroRateLimitWindow)
    } else if c.retry.max_attempts == 0 {
        Some(ConfigError::ZeroRetryAttempts)
    } else if c.retry.initial_delay_ms == 0 {
        Some(ConfigError::ZeroRetryDelay)
    } else if c.retry.max_delay_ms < c.retry.initial_delay_ms {
        Some(ConfigError::RetryDelayOrder)
    } else if c.timeout.connect_seconds == 0 {
        Some(ConfigError::ZeroConnectTimeout)
    } else if c.timeout.read_seconds == 0 {
        Some(ConfigError::ZeroReadTimeout)
    } else if c.timeout.write_seconds == 0 {
        Some(ConfigError::ZeroWriteTimeout)
    } else {
        None
    }
}

impl Config {
    pub fn github_token(&self) -> (r: &str)
        ensures
            r@ == self.secrets.spec_github_token(),
    {
        self.secrets.github_token()
    }

    pub fn x_api_key(&self) -> (r: &str)
        ensures
            r@ == self.secrets.spec_x_api_key(),
    {
        self.secrets.x_api_key()
    }

    pub fn x_api_secret(&self) -> (r: &str)
        ensures
            r@ == self.secrets.spec_x_api_secret(),
    {
        self.secrets.x_api_secret()
    }

    pub fn x_access_token(&self) -> (r: &str)
        ensures
            r@ == self.secrets.spec_x_access_token(),
    {
        self.secrets.x_access_token()
    }

    pub fn x_access_secret(&self) -> (r: &str)
        ensures
            r@ == self.secrets.spec_x_access_secret(),
    {
        self.secrets.x_access_secret()
    }

    /// Checks the configuration, given its log level in lower case: the
    /// repository is named, the log level is known, and every limit, delay
    /// and timeout is positive, with the longest retry delay no shorter
    /// than the first. The first fault found is returned.
    pub fn validate_lowered(&self, lowered_level: &str) -> (r: Result<(), ConfigError>)
        ensures
            match config_fault(*self, lowered_level@) {
                None => r is Ok,
                Some(ConfigError::InvalidLogLevel(_)) => r matches Err(
                    ConfigError::InvalidLogLevel(t),
                ) && t@ == self.log_level@,
                Some(e) => r == Err::<(), ConfigError>(e),
            },
    {
        if self.repo_owner.as_str().is_empty() || self.repo_name.as_str().is_empty() {
            return Err(ConfigError::EmptyRepository);
        }
        if !is_log_level(lowered_level) {
            return Err(ConfigError::InvalidLogLevel(self.log_level.clone()));
        }
        if self.rate_limit.max_requests == 0 {
            return Err(ConfigError::ZeroRateLimitRequests);
        }
        if self.rate_limit.window_seconds == 0 {
            return Err(ConfigError::ZeroRateLimitWindow);
        }
        if self.retry.max_attempts == 0 {
            return Err(ConfigError::ZeroRetryAttempts);
        }
        if self.retry.initial_delay_ms == 0 {
            return Err(ConfigError::ZeroRetryDelay);
        }
        if self.retry.max_delay_ms < self.retry.initial_delay_ms {
            return Err(ConfigError::RetryDelayOrder);
        }
        if self.timeout.connect_seconds == 0 {
            return Err(ConfigError::ZeroConnectTimeout);
        }
        if self.timeout.read_seconds == 0 {
            return Err(ConfigError::ZeroReadTimeout);
        }
        if self.timeout.write_seconds == 0 {
            return Err(ConfigError::ZeroWriteTimeout);
        }
        Ok(())
    }

    /// Checks the configuration as `validate_lowered` does, putting the log
    /// level in lower case first.
    pub fn validate(&self) -> (r: Result<(), ConfigError>)
        ensures
            match config_fault(*self, lowercase_of(self.log_level@)) {
                None => r is Ok,
                Some(ConfigError::InvalidLogLevel(_)) => r matches Err(
                    ConfigError::InvalidLogLevel(t),
                ) && t@ == self.log_level@,
                Some(e) => r == Err::<(), ConfigError>(e),
            },
    {
        let lowered = lowercase(self.log_level.as_str());
        self.validate_lowered(lowered.as_str())
    }

    /// The address of the webhook: `http://`, the host, then the path.
    pub fn webhook_url(&self) -> (r: String)
        ensures
            r@ == "http://"@ + self.server.host@ + self.server.webhook_path@,
    {
        let mut url = String::from_str("http://");
        url.append(self.server.host.as_str());
        url.append(self.server.webhook_path.as_str());
        url
    }
}

} // verus!
