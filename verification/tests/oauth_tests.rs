use rso_sample::config::Api;
use rso_sample::config::Configuration;
use rso_sample::config::Rso;
use rso_sample::config::Server;
use rso_sample::config::Urls;
use rso_sample::oauth::exchange_code;
use rso_sample::oauth::parse_token_set;
use rso_sample::oauth::token_from_response;
use rso_sample::oauth::token_request;
use rso_sample::oauth::ExchangeError;
use rso_sample::router::status_for_exchange;

const TOKEN_BODY: &str = r#"{"access_token": "xyz", "refresh_token": "abc", "scope": "def", "id_token": "ghi", "token_type": "jkl", "expires_in": 3600}"#;

fn configuration(base_url: String) -> Configuration {
    Configuration {
        server: Server {
            addr: "0.0.0.0:443".to_string(),
            tls: None,
        },
        api: Api {
            token: "token".to_string(),
            urls: Urls {
                account_data: "account_data".to_string(),
                champion_data: "champion_data".to_string(),
            },
        },
        rso: Rso {
            base_url,
            callback_host: "local.example.com:8080".to_string(),
            client_id: "client_id".to_string(),
            client_secret: "client_secret".to_string(),
        },
    }
}

#[test]
fn exchange_code_with_empty_code_fails_before_any_call() {
    // the configured provider does not exist, so any attempted call would
    // surface as an upstream failure, not as MissingCode
    let cfg = configuration("http://127.0.0.1:1".to_string());

    let res = exchange_code("", &cfg);

    assert!(matches!(res, Err(ExchangeError::MissingCode)));
    assert_eq!(status_for_exchange(&res), 400);
}

#[test]
fn exchange_code_passes_transport_failure_through() {
    let cfg = configuration("http://127.0.0.1:1".to_string());

    let res = exchange_code("200", &cfg);

    match &res {
        Err(ExchangeError::UpstreamCallFailed { status, .. }) => {
            assert_eq!(*status, 0);
        }
        other => panic!("unexpected outcome: {other:?}"),
    }
    assert_eq!(status_for_exchange(&res), 502);
}

#[test]
fn successful_answer_decodes_into_a_token_set() {
    let res = token_from_response(200, TOKEN_BODY.to_string()).unwrap();
    assert_eq!(res.access_token, "xyz");
    assert_eq!(res.refresh_token, "abc");
    assert_eq!(res.scope, "def");
    assert_eq!(res.id_token, "ghi");
    assert_eq!(res.token_type, "jkl");
    assert_eq!(res.expires_in, 3600);
}

#[test]
fn non_success_answer_is_passed_through() {
    let res = token_from_response(401, "{}".to_string());
    match &res {
        Err(ExchangeError::UpstreamCallFailed { status, body }) => {
            assert_eq!(*status, 401);
            assert_eq!(body, "{}");
        }
        other => panic!("unexpected outcome: {other:?}"),
    }
    assert_eq!(status_for_exchange(&res), 502);
}

#[test]
fn malformed_answer_is_a_protocol_error() {
    let res = token_from_response(200, "not json".to_string());
    assert!(matches!(res, Err(ExchangeError::UpstreamProtocolError)));
    assert_eq!(status_for_exchange(&res), 502);

    // a token set missing a field is just as malformed
    let partial = token_from_response(200, r#"{"access_token": "xyz"}"#.to_string());
    assert!(matches!(partial, Err(ExchangeError::UpstreamProtocolError)));
}

#[test]
fn token_request_carries_url_auth_and_form() {
    let cfg = configuration("base_url".to_string());
    let req = token_request(&cfg, "my_code");
    assert_eq!(req.url, "base_url/token");
    assert_eq!(
        req.authorization,
        "Basic Y2xpZW50X2lkOmNsaWVudF9zZWNyZXQ="
    );
    assert_eq!(
        req.form,
        vec![
            ("grant_type".to_string(), "authorization_code".to_string()),
            ("code".to_string(), "my_code".to_string()),
            (
                "redirect_uri".to_string(),
                "http://local.example.com:8080/oauth".to_string()
            ),
        ]
    );
}

#[test]
fn token_set_decodes_field_by_field() {
    let t = parse_token_set(TOKEN_BODY).unwrap();
    assert_eq!(t.access_token, "xyz");
    assert_eq!(t.expires_in, 3600);
    assert!(parse_token_set(r#"{"access_token": "xyz"}"#).is_none());
    assert!(parse_token_set(
        r#"{"access_token": "xyz", "refresh_token": "abc", "scope": "def", "id_token": "ghi", "token_type": "jkl", "expires_in": 4294967296}"#
    )
    .is_none());
}
