use rso_sample::aggregate::account_data;
use rso_sample::aggregate::account_from_response;
use rso_sample::aggregate::account_request;
use rso_sample::aggregate::aggregate;
use rso_sample::aggregate::bearer_header;
use rso_sample::aggregate::champion_rotation_data;
use rso_sample::aggregate::parse_account_data;
use rso_sample::aggregate::parse_rotation_data;
use rso_sample::aggregate::rotation_from_response;
use rso_sample::aggregate::rotation_request;
use rso_sample::aggregate::AggregateError;
use rso_sample::config::Api;
use rso_sample::config::Configuration;
use rso_sample::config::Rso;
use rso_sample::config::Server;
use rso_sample::config::Urls;
use rso_sample::router::status_for_aggregate;

const ACCOUNT_BODY: &str = r#"{"puuid":"123","game_name":"user","tag_line":"tag"}"#;
const ROTATION_BODY: &str = r#"{"free_champion_ids":[1,2,3],"free_champion_ids_for_new_players":[100,101,102],"max_new_player_level":10}"#;

fn configuration() -> Configuration {
    Configuration {
        server: Server {
            addr: "0.0.0.0:443".to_string(),
            tls: None,
        },
        api: Api {
            token: "token".to_string(),
            urls: Urls {
                account_data: "http://127.0.0.1:1/riot/account/v1/accounts/me".to_string(),
                champion_data: "http://127.0.0.1:1/lol/platform/v3/champion-rotations".to_string(),
            },
        },
        rso: Rso {
            base_url: "base_url".to_string(),
            callback_host: "local.example.com:8080".to_string(),
            client_id: "client_id".to_string(),
            client_secret: "client_secret".to_string(),
        },
    }
}

#[test]
fn aggregate_with_empty_token_fails_before_any_call() {
    // the configured endpoints do not exist, so any attempted call would
    // surface as a fetch failure, not as Unauthorized
    let cfg = configuration();

    let res = aggregate("", &cfg);

    assert!(matches!(res, Err(AggregateError::Unauthorized)));
    assert_eq!(status_for_aggregate(&res), 401);
}

#[test]
fn unreachable_rotation_endpoint_fails_the_aggregation() {
    let cfg = configuration();

    let res = aggregate("token", &cfg);

    match &res {
        Err(AggregateError::RotationFetchFailed { status, .. }) => {
            assert_eq!(*status, 0);
        }
        other => panic!("unexpected outcome: {other:?}"),
    }
    assert_eq!(status_for_aggregate(&res), 500);
}

#[test]
fn transport_failure_counts_as_unreachable() {
    // a port nothing listens on: the GET cannot complete
    let res = champion_rotation_data("http://127.0.0.1:1/champion-rotations", "token");
    match &res {
        Err(AggregateError::RotationFetchFailed { status, .. }) => {
            assert_eq!(*status, 0);
        }
        other => panic!("unexpected outcome: {other:?}"),
    }
}

#[test]
fn account_data_handles_error() {
    // no server can run here; an unreachable endpoint fails the fetch too
    let cfg = configuration();
    let res = account_data(&cfg.api.urls.account_data, "");

    assert_eq!(true, res.is_err());
}

#[test]
fn champion_rotation_data_handles_error() {
    let cfg = configuration();
    let res = champion_rotation_data(&cfg.api.urls.champion_data, "");
    assert_eq!(true, res.is_err());
}

#[test]
fn successful_answers_compose_whole() {
    let rotation = rotation_from_response(200, ROTATION_BODY.to_string()).unwrap();
    let account = account_from_response(200, ACCOUNT_BODY.to_string()).unwrap();

    assert_eq!(account.puuid, "123");
    assert_eq!(account.game_name, "user");
    assert_eq!(account.tag_line, "tag");
    assert_eq!(rotation.free_champion_ids, vec![1, 2, 3]);
    assert_eq!(
        rotation.free_champion_ids_for_new_players,
        vec![100, 101, 102]
    );
    assert_eq!(rotation.max_new_player_level, 10);
}

#[test]
fn non_success_rotation_answer_fails_the_fetch() {
    let res = rotation_from_response(503, "busy".to_string());
    match res {
        Err(AggregateError::RotationFetchFailed { status, body }) => {
            assert_eq!(status, 503);
            assert_eq!(body, "busy");
        }
        other => panic!("unexpected outcome: {other:?}"),
    }
}

#[test]
fn non_success_account_answer_fails_the_fetch() {
    let res = account_from_response(401, "{}".to_string());
    match res {
        Err(AggregateError::AccountFetchFailed { status, body }) => {
            assert_eq!(status, 401);
            assert_eq!(body, "{}");
        }
        other => panic!("unexpected outcome: {other:?}"),
    }
}

#[test]
fn undecodable_rotation_answer_fails_the_fetch() {
    let res = rotation_from_response(200, "not json".to_string());
    match res {
        Err(AggregateError::RotationFetchFailed { status, body }) => {
            assert_eq!(status, 200);
            assert_eq!(body, "not json");
        }
        other => panic!("unexpected outcome: {other:?}"),
    }
}

#[test]
fn undecodable_account_answer_fails_the_fetch() {
    let res = account_from_response(200, "[]".to_string());
    match res {
        Err(AggregateError::AccountFetchFailed { status, .. }) => {
            assert_eq!(status, 200);
        }
        other => panic!("unexpected outcome: {other:?}"),
    }
}

#[test]
fn bearer_header_carries_the_token() {
    assert_eq!(bearer_header("tok"), "Bearer tok");
    assert_eq!(bearer_header(""), "Bearer ");
}

#[test]
fn request_builders_carry_the_right_headers() {
    let acct = account_request("http://u", "tok");
    assert_eq!(acct.url, "http://u");
    assert_eq!(acct.header_name, "Authorization");
    assert_eq!(acct.header_value, "Bearer tok");

    // the rotation call authenticates with the service credential alone
    let rot = rotation_request("http://v", "service");
    assert_eq!(rot.url, "http://v");
    assert_eq!(rot.header_name, "X-Riot-Token");
    assert_eq!(rot.header_value, "service");
}

#[test]
fn account_answer_accepts_camel_cased_names() {
    let a = parse_account_data(r#"{"puuid":"p","gameName":"g","tagLine":"t"}"#).unwrap();
    assert_eq!(a.game_name, "g");
    assert_eq!(a.tag_line, "t");
    assert!(parse_account_data(r#"{"puuid":"p","gameName":"g"}"#).is_none());
}

#[test]
fn rotation_answer_accepts_camel_cased_names() {
    let d = parse_rotation_data(
        r#"{"freeChampionIds":[7],"freeChampionIdsForNewPlayers":[],"maxNewPlayerLevel":5}"#,
    )
    .unwrap();
    assert_eq!(d.free_champion_ids, vec![7]);
    assert_eq!(d.free_champion_ids_for_new_players, Vec::<usize>::new());
    assert_eq!(d.max_new_player_level, 5);
    assert!(parse_rotation_data(r#"{"freeChampionIds":[7]}"#).is_none());
}

#[test]
fn snake_cased_names_win_over_aliases() {
    let a = parse_account_data(
        r#"{"puuid":"p","game_name":"snake","gameName":"camel","tag_line":"t"}"#,
    )
    .unwrap();
    assert_eq!(a.game_name, "snake");
}
