//! The configuration the service runs with, as plain values. Loading and
//! layering of configuration files happens outside the library; this is the
//! shape the rest of the system reads.

use vstd::prelude::*;

verus! {

/// The ingress HTTP server address.
#[derive(Clone, Debug, PartialEq, Eq)]
pub struct Server {
    pub host: String,
    pub port: String,
}

/// The outbound HTTP client settings.
#[derive(Clone, Debug, PartialEq, Eq)]
pub struct Client {
    pub dns_threads: usize,
    pub der_path: String,
    pub tls_password: String,
    pub secp_private_key: String,
}

/// The broker settings.
#[derive(Clone, Debug, PartialEq, Eq)]
pub struct Rabbit {
    pub url: String,
    pub thread_pool_size: usize,
    pub connection_timeout_secs: usize,
    pub connection_pool_size: usize,
    pub restart_subscription_secs: usize,
}

/// The push gateway credentials.
#[derive(Clone, Debug, PartialEq, Eq)]
pub struct IosCredentials {
    pub ios_url: String,
    pub ios_token: String,
    pub ios_user_id: String,
}

/// The SendGrid mail settings.
#[derive(Clone, Debug, PartialEq, Eq)]
pub struct SendGridConf {
    pub api_addr: String,
    pub api_key: String,
    pub send_mail_path: String,
    pub from_email: String,
}

/// The error-reporting sink settings.
#[derive(Clone, Debug, PartialEq, Eq)]
pub struct SentryConfig {
    pub dsn: String,
}

/// The remote log sink settings.
#[derive(Clone, Debug, PartialEq, Eq)]
pub struct GrayLogConfig {
    pub host: String,
    pub port: u16,
}

/// The file log settings.
#[derive(Clone, Debug, PartialEq, Eq)]
pub struct FileLogConfig {
    pub path: String,
}

/// The whole configuration.
#[derive(Clone, Debug, PartialEq, Eq)]
pub struct Config {
    pub server: Server,
    pub client: Client,
    pub rabbit: Rabbit,
    pub sentry: Option<SentryConfig>,
    pub graylog: Option<GrayLogConfig>,
    pub filelog: Option<FileLogConfig>,
    pub ios_credentials: IosCredentials,
    pub sendgrid: SendGridConf,
    /// Whether the push egress is active; when off, deliveries on the
    /// `pushes` queue complete at once.
    pub push_enabled: bool,
}

} // verus!
