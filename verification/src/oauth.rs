//! The authorization-code-for-token exchange with the identity provider.
//!
//! `exchange_code` builds one POST to the provider's token endpoint with a
//! form-encoded body and a Basic authorization header, and decodes the JSON
//! answer into a `TokenSet`.  An empty code is rejected before any call.

use vstd::prelude::*;
use vstd::string::StringExecFns;

use crate::config::spec_callback_url;
use crate::config::spec_token_url;
use crate::config::Configuration;
use crate::http::base64_encode;
use crate::http::base64_of;
use crate::http::http_post_form;
use crate::http::HttpReply;
use crate::json::find_field;
use crate::json::get_field;
use crate::json::parse_json_object;
use crate::json::parse_object;
use crate::json::JsonValue;
use crate::json::JsonValueV;

verus! {

/// The tokens issued by the provider, decoded field by field from its
/// answer.  Never partially populated: the exchange returns either a whole
/// `TokenSet` or an error.
#[derive(Debug, Clone)]
pub struct TokenSet {
    /// The OAuth2 access token.
    pub access_token: String,
    /// The OAuth2 refresh token.
    pub refresh_token: String,
    /// The OAuth2 scope.
    pub scope: String,
    /// The OAuth2 ID token.
    pub id_token: String,
    /// The OAuth2 token type.
    pub token_type: String,
    /// The OAuth2 expiration time in seconds.
    pub expires_in: u32,
}

/// The view of a `TokenSet`.
pub struct TokenSetV {
    pub access_token: Seq<char>,
    pub refresh_token: Seq<char>,
    pub scope: Seq<char>,
    pub id_token: Seq<char>,
    pub token_type: Seq<char>,
    pub expires_in: u32,
}

impl View for TokenSet {
    type V = TokenSetV;

    open spec fn view(&self) -> TokenSetV {
        TokenSetV {
            access_token: self.access_token@,
            refresh_token: self.refresh_token@,
            scope: self.scope@,
            id_token: self.id_token@,
            token_type: self.token_type@,
            expires_in: self.expires_in,
        }
    }
}

/// Why a code exchange failed.
#[derive(Debug, Clone)]
pub enum ExchangeError {
    /// The caller supplied no authorization code; no call was made.
    MissingCode,
    /// The provider answered with a status outside the 2xx range, or was
    /// not reachable at all.  A transport failure carries status 0, since
    /// no HTTP status exists for it.
    UpstreamCallFailed { status: u16, body: String },
    /// The provider answered 2xx but the body did not decode as a token
    /// set.
    UpstreamProtocolError,
}

/// The view of an `ExchangeError`.
pub enum ExchangeErrorV {
    MissingCode,
    UpstreamCallFailed { status: u16, body: Seq<char> },
    UpstreamProtocolError,
}

impl View for ExchangeError {
    type V = ExchangeErrorV;

    open spec fn view(&self) -> ExchangeErrorV {
        match self {
            ExchangeError::MissingCode => ExchangeErrorV::MissingCode,
            ExchangeError::UpstreamCallFailed { status, body } => {
                ExchangeErrorV::UpstreamCallFailed { status: *status, body: body@ }
            },
            ExchangeError::UpstreamProtocolError => ExchangeErrorV::UpstreamProtocolError,
        }
    }
}

impl ExchangeError {
    /// A human-readable description of the failure, as rendered for the
    /// client.
    pub fn describe(&self) -> (r: String)
        ensures
            self is MissingCode ==> r@ == "missing authorization code"@,
            self is UpstreamProtocolError ==> r@ == "error parsing oauth response"@,
            self matches ExchangeError::UpstreamCallFailed { status: _, body } ==> r@
                == "error sending token request - "@ + body@,
    {
        match self {
            ExchangeError::MissingCode => "missing authorization code".to_owned(),
            ExchangeError::UpstreamCallFailed { status: _, body } => {
                let mut m = "error sending token request - ".to_owned();
                m.append(body.as_str());
                m
            },
            ExchangeError::UpstreamProtocolError => "error parsing oauth response".to_owned(),
        }
    }
}

/// The token set denoted by a provider answer, if the body is an object
/// carrying all six fields with the right kinds.
pub open spec fn spec_token_set_of(s: Seq<char>) -> Option<TokenSetV> {
    match parse_object(s) {
        Some(ms) => match (
            find_field(ms, "access_token"@),
            find_field(ms, "refresh_token"@),
            find_field(ms, "scope"@),
            find_field(ms, "id_token"@),
            find_field(ms, "token_type"@),
            find_field(ms, "expires_in"@),
        ) {
            (
                Some(JsonValueV::Text(access_token)),
                Some(JsonValueV::Text(refresh_token)),
                Some(JsonValueV::Text(scope)),
                Some(JsonValueV::Text(id_token)),
                Some(JsonValueV::Text(token_type)),
                Some(JsonValueV::Num(expires_in)),
            ) => if expires_in <= u32::MAX {
                Some(
                    TokenSetV {
                        access_token,
                        refresh_token,
                        scope,
                        id_token,
                        token_type,
                        expires_in: expires_in as u32,
                    },
                )
            } else {
                None
            },
            _ => None,
        },
        None => None,
    }
}

/// Decodes a provider answer into a `TokenSet`.
pub fn parse_token_set(body: &str) -> (r: Option<TokenSet>)
    ensures
        match r {
            Some(t) => spec_token_set_of(body@) == Some(t@),
            None => spec_token_set_of(body@) is None,
        },
{
    let ms = match parse_json_object(body) {
        Some(ms) => ms,
        None => {
            return None;
        },
    };
    let access_token = match get_field(&ms, "access_token") {
        Some(JsonValue::Text(t)) => t.clone(),
        _ => {
            return None;
        },
    };
    let refresh_token = match get_field(&ms, "refresh_token") {
        Some(JsonValue::Text(t)) => t.clone(),
        _ => {
            return None;
        },
    };
    let scope = match get_field(&ms, "scope") {
        Some(JsonValue::Text(t)) => t.clone(),
        _ => {
            return None;
        },
    };
    let id_token = match get_field(&ms, "id_token") {
        Some(JsonValue::Text(t)) => t.clone(),
        _ => {
            return None;
        },
    };
    let token_type = match get_field(&ms, "token_type") {
        Some(JsonValue::Text(t)) => t.clone(),
        _ => {
            return None;
        },
    };
    let expires_in = match get_field(&ms, "expires_in") {
        Some(JsonValue::Num(n)) => {
            if *n <= u32::MAX as u64 {
                *n as u32
            } else {
                return None;
            }
        },
        _ => {
            return None;
        },
    };
    Some(TokenSet { access_token, refresh_token, scope, id_token, token_type, expires_in })
}

/// The outcome owed for a provider answer: a non-2xx status or a transport
/// failure is passed through as `UpstreamCallFailed`, a 2xx body that does
/// not decode is an `UpstreamProtocolError`, and a 2xx body that decodes
/// is the token set.
pub open spec fn spec_token_outcome(status: u16, body: Seq<char>) -> Result<
    TokenSetV,
    ExchangeErrorV,
> {
    if !(200 <= status && status < 300) {
        Err(ExchangeErrorV::UpstreamCallFailed { status, body })
    } else {
        match spec_token_set_of(body) {
            Some(t) => Ok(t),
            None => Err(ExchangeErrorV::UpstreamProtocolError),
        }
    }
}

/// The view of an exchange result.
pub open spec fn view_exchange_result(r: Result<TokenSet, ExchangeError>) -> Result<
    TokenSetV,
    ExchangeErrorV,
> {
    match r {
        Ok(t) => Ok(t@),
        Err(e) => Err(e@),
    }
}

/// Turns a provider answer into the exchange outcome.  The whole decision
/// is a function of the status and the body alone.
pub fn token_from_response(status: u16, body: String) -> (r: Result<TokenSet, ExchangeError>)
    ensures
        view_exchange_result(r) == spec_token_outcome(status, body@),
{
    if !(200 <= status && status < 300) {
        return Err(ExchangeError::UpstreamCallFailed { status, body });
    }
    match parse_token_set(body.as_str()) {
        Some(t) => Ok(t),
        None => Err(ExchangeError::UpstreamProtocolError),
    }
}

/// One POST to the provider's token endpoint, ready to send.
pub struct TokenRequest {
    /// The token endpoint.
    pub url: String,
    /// The value of the `Authorization` header.
    pub authorization: String,
    /// The form pairs of the body.
    pub form: Vec<(String, String)>,
}

/// The Basic authorization header value: the base64 rendering of
/// `clientId:clientSecret`.
pub open spec fn spec_basic_auth(cfg: &Configuration) -> Seq<char> {
    "Basic "@ + base64_of(cfg.rso.client_id@ + ":"@ + cfg.rso.client_secret@)
}

/// The form pairs of the token request: the grant type, the code, and the
/// redirect URI.
pub open spec fn spec_token_form(cfg: &Configuration, code: Seq<char>) -> Seq<
    (Seq<char>, Seq<char>),
> {
    seq![
        ("grant_type"@, "authorization_code"@),
        ("code"@, code),
        ("redirect_uri"@, spec_callback_url(cfg)),
    ]
}

/// Builds the one POST that a code exchange issues: the token endpoint,
/// the Basic authorization header, and the three form pairs, the code
/// among them.
pub fn token_request(cfg: &Configuration, code: &str) -> (r: TokenRequest)
    ensures
        r.url@ == spec_token_url(cfg),
        r.authorization@ == spec_basic_auth(cfg),
        r.form.deep_view() == spec_token_form(cfg, code@),
{
    let url = cfg.token_url();
    let mut creds = cfg.rso.client_id.clone();
    creds.append(":");
    creds.append(cfg.rso.client_secret.as_str());
    let mut authorization = "Basic ".to_owned();
    authorization.append(base64_encode(creds.as_str()).as_str());
    let mut form: Vec<(String, String)> = Vec::new();
    form.push(("grant_type".to_owned(), "authorization_code".to_owned()));
    form.push(("code".to_owned(), code.to_owned()));
    form.push(("redirect_uri".to_owned(), cfg.callback_url()));
    proof {
        assert(form.deep_view() =~= spec_token_form(cfg, code@));
    }
    TokenRequest { url, authorization, form }
}

/// Exchanges an authorization code for a token set.
///
/// An empty code returns `MissingCode` at once, and only an empty code
/// does; no network call is made for it.  For a non-empty code exactly one
/// POST is issued, built by `token_request`, and the outcome is
/// `spec_token_outcome` of whatever the provider answered, a transport
/// failure standing as status 0 with its message as the body.
pub fn exchange_code(code: &str, cfg: &Configuration) -> (r: Result<TokenSet, ExchangeError>)
    ensures
        code@.len() == 0 <==> r == Err::<TokenSet, ExchangeError>(ExchangeError::MissingCode),
        code@.len() > 0 ==> (r matches Err(e) ==> (e is UpstreamCallFailed
            || e is UpstreamProtocolError)),
{
    if code.is_empty() {
        return Err(ExchangeError::MissingCode);
    }
    let req = token_request(cfg, code);
    match http_post_form(req.url.as_str(), "Authorization", req.authorization.as_str(), &req.form) {
        HttpReply::Response { status, body } => token_from_response(status, body),
        HttpReply::Transport { message } => Err(
            ExchangeError::UpstreamCallFailed { status: 0, body: message },
        ),
    }
}

} // verus!
