//! Resolved application configuration and the URLs derived from it.
//!
//! A `Configuration` is immutable after load and shared read-only by every
//! handler.  Loading it from a file or the environment is left to the caller;
//! the library only consumes the resolved values.

use vstd::prelude::*;
use vstd::string::StringExecFns;

verus! {

/// TLS material for the server: paths to a certificate and its key.
#[derive(Debug, Clone)]
pub struct Tls {
    /// The TLS certificate
    pub cert: String,
    /// The TLS key
    pub key: String,
}

/// Where the server listens, and whether it serves TLS.
#[derive(Debug, Clone)]
pub struct Server {
    /// The server's address in the format `ip:port`.
    pub addr: String,
    /// Optional TLS configuration for secure connections.
    pub tls: Option<Tls>,
}

/// OAuth client configuration.
#[derive(Debug, Clone)]
pub struct Rso {
    /// Base URL for the OAuth provider.
    pub base_url: String,
    /// Host to which the OAuth provider will redirect after authentication.
    pub callback_host: String,
    /// Client ID for OAuth authentication.
    pub client_id: String,
    /// Client secret for OAuth authentication.
    pub client_secret: String,
}

/// URLs for the data API endpoints.
#[derive(Debug, Clone)]
pub struct Urls {
    /// Endpoint for retrieving account data.
    pub account_data: String,
    /// Endpoint for retrieving champion data.
    pub champion_data: String,
}

/// Configuration for the data API: the service's own credential and the
/// endpoints it reaches.
#[derive(Debug, Clone)]
pub struct Api {
    /// Token for API authentication.
    pub token: String,
    /// URLs for different API endpoints.
    pub urls: Urls,
}

/// Main configuration structure for the application.
#[derive(Debug, Clone)]
pub struct Configuration {
    /// Server configuration, including address and TLS settings.
    pub server: Server,
    /// OAuth client configuration.
    pub rso: Rso,
    /// API endpoint configurations.
    pub api: Api,
}

/// Command line arguments, resolved to plain values.
#[derive(Debug, Clone)]
pub struct Args {
    /// Path to the configuration file.
    pub config: String,
}

impl core::default::Default for Args {
    /// The configuration file read when no path is given.
    fn default() -> (r: Args)
        ensures
            r.config@ == "config.yml"@,
    {
        Args { config: "config.yml".to_owned() }
    }
}

/// The callback URL: the scheme follows the TLS setting, the host is the
/// configured callback host, and the path is `/oauth`.
pub open spec fn spec_callback_url(cfg: &Configuration) -> Seq<char> {
    (if cfg.server.tls is Some {
        "https://"@
    } else {
        "http://"@
    }) + cfg.rso.callback_host@ + "/oauth"@
}

/// The token endpoint of the OAuth provider.
pub open spec fn spec_token_url(cfg: &Configuration) -> Seq<char> {
    cfg.rso.base_url@ + "/token"@
}

/// The authorization endpoint of the OAuth provider.
pub open spec fn spec_authorize_url(cfg: &Configuration) -> Seq<char> {
    cfg.rso.base_url@ + "/authorize"@
}

/// The sign-in URL: the authorization endpoint with the redirect URI, the
/// client id, the response type and the scope as query parameters.
pub open spec fn spec_sign_in_url(cfg: &Configuration) -> Seq<char> {
    spec_authorize_url(cfg) + "?redirect_uri="@ + spec_callback_url(cfg) + "&client_id="@
        + cfg.rso.client_id@ + "&response_type=code&scope=openid"@
}

impl Configuration {
    /// Constructs the callback URL for OAuth provider redirection.
    pub fn callback_url(&self) -> (r: String)
        ensures
            r@ == spec_callback_url(self),
    {
        let scheme: &str = match &self.server.tls {
            Some(_) => "https://",
            None => "http://",
        };
        let mut url = scheme.to_owned();
        url.append(self.rso.callback_host.as_str());
        url.append("/oauth");
        url
    }

    /// Constructs the token endpoint URL.
    pub fn token_url(&self) -> (r: String)
        ensures
            r@ == spec_token_url(self),
    {
        let mut url = self.rso.base_url.clone();
        url.append("/token");
        url
    }

    /// Constructs the authorization endpoint URL.
    pub fn authorize_url(&self) -> (r: String)
        ensures
            r@ == spec_authorize_url(self),
    {
        let mut url = self.rso.base_url.clone();
        url.append("/authorize");
        url
    }

    /// Constructs the sign-in URL with query parameters for OAuth
    /// authentication.
    pub fn sign_in_url(&self) -> (r: String)
        ensures
            r@ == spec_sign_in_url(self),
    {
        let mut url = self.authorize_url();
        url.append("?redirect_uri=");
        url.append(self.callback_url().as_str());
        url.append("&client_id=");
        url.append(self.rso.client_id.as_str());
        url.append("&response_type=code&scope=openid");
        url
    }
}

/// The sign-in URL is a pure function of the configuration: any two results
/// computed from the same configuration are identical, character for
/// character.
pub proof fn lemma_sign_in_url_deterministic(
    cfg: &Configuration,
    first: Seq<char>,
    second: Seq<char>,
)
    requires
        first == spec_sign_in_url(cfg),
        second == spec_sign_in_url(cfg),
    ensures
        first == second,
{
}

} // verus!
