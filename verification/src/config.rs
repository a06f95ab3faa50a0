//! The application's configuration model: plain data the host fills in from
//! its configuration sources, plus the verified pieces of configuration
//! handling — key-identifier lookup and log-format parsing.

use vstd::prelude::*;

use crate::text::text_eq;

verus! {

broadcast use vstd::string::group_string_axioms;

/// Why a configuration value was rejected.
#[derive(Debug)]
pub enum AppConfigError {
    /// The log format label is neither known variant.
    InvalidLogFormatVariant,
}

/// How the server formats its log lines.
#[derive(Debug, Clone, Copy, PartialEq, Eq, Structural)]
pub enum ServerLogFormat {
    Json,
    Pretty,
}

impl ServerLogFormat {
    /// Parse a log-format label: exactly `"json"` and `"pretty"` are
    /// accepted; every other label is rejected.
    pub fn parse(value: &str) -> (r: Result<ServerLogFormat, AppConfigError>)
        ensures
            value@ == "json"@ ==> r == Result::<ServerLogFormat, AppConfigError>::Ok(
                ServerLogFormat::Json,
            ),
            value@ == "pretty"@ ==> r == Result::<ServerLogFormat, AppConfigError>::Ok(
                ServerLogFormat::Pretty,
            ),
            value@ != "json"@ && value@ != "pretty"@ ==> r == Result::<
                ServerLogFormat,
                AppConfigError,
            >::Err(AppConfigError::InvalidLogFormatVariant),
    {
        proof {
            reveal_strlit("json");
            reveal_strlit("pretty");
            assert("json"@.len() == 4);
            assert("pretty"@.len() == 6);
        }
        if text_eq(value, "json") {
            Ok(ServerLogFormat::Json)
        } else if text_eq(value, "pretty") {
            Ok(ServerLogFormat::Pretty)
        } else {
            Err(AppConfigError::InvalidLogFormatVariant)
        }
    }
}

/// Expiration windows for issued tokens, in seconds.
#[derive(Debug)]
pub struct JwtConfig {
    pub default_expiration: i64,
    pub max_expiration: i64,
}

/// A signing key the server can use: either key material held locally or a
/// reference into a cloud key-management service.
#[derive(Debug)]
pub enum AsymmetricKey {
    Local { kid: String, private: String, public: String },
    Ckms {
        kid: String,
        version: u16,
        key: String,
        keyring: String,
        location: String,
        project: String,
    },
}

impl AsymmetricKey {
    /// The key's identifier, wherever the key itself lives.
    pub fn kid(&self) -> (r: &str)
        ensures
            match self {
                AsymmetricKey::Local { kid, .. } => r@ == kid@,
                AsymmetricKey::Ckms { kid, .. } => r@ == kid@,
            },
    {
        match self {
            AsymmetricKey::Local { kid, .. } => kid.as_str(),
            AsymmetricKey::Ckms { kid, .. } => kid.as_str(),
        }
    }
}

/// Credentials for the GitHub login provider.
#[derive(Debug)]
pub struct GitHubOAuthConfig {
    pub client_id: String,
    pub client_secret: String,
    pub redirect_uri: String,
}

/// Credentials for the Google device-flow login provider.
#[derive(Debug)]
pub struct GoogleOAuthDeviceConfig {
    pub client_id: String,
    pub client_secret: String,
}

/// Credentials for the Google web-flow login provider.
#[derive(Debug)]
pub struct GoogleOAuthWebConfig {
    pub client_id: String,
    pub client_secret: String,
    pub redirect_uri: String,
}

/// Credentials for the Google login provider.
#[derive(Debug)]
pub struct GoogleOAuthConfig {
    pub device: GoogleOAuthDeviceConfig,
    pub web: GoogleOAuthWebConfig,
}

/// The login providers the server may offer.
#[derive(Debug)]
pub struct OAuthProviders {
    pub github: Option<GitHubOAuthConfig>,
    pub google: Option<GoogleOAuthConfig>,
}

/// Authentication configuration.
#[derive(Debug)]
pub struct AuthnProviders {
    pub oauth: OAuthProviders,
}

/// Where the generated API description is written.
#[derive(Debug)]
pub struct SpecConfig {
    pub output: String,
}

/// The search backend the server indexes into.
#[derive(Debug)]
pub struct SearchConfig {
    pub host: String,
    pub key: String,
    pub index: String,
}

/// The application's configuration. The host loads it from its
/// configuration sources and hands it over as plain data.
#[derive(Debug)]
pub struct AppConfig {
    pub log_format: ServerLogFormat,
    pub public_url: String,
    pub server_port: u16,
    pub database_url: String,
    pub keys: Vec<AsymmetricKey>,
    pub jwt: JwtConfig,
    pub spec: Option<SpecConfig>,
    pub authn: AuthnProviders,
    pub search: SearchConfig,
}

} // verus!
