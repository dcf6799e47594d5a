use rso_sample::aggregate::AggregateError;
use rso_sample::oauth::ExchangeError;
use rso_sample::oauth::TokenSet;
use rso_sample::router::status_for_aggregate;
use rso_sample::router::status_for_exchange;

fn token_set() -> TokenSet {
    TokenSet {
        access_token: "a".to_string(),
        refresh_token: "r".to_string(),
        scope: "s".to_string(),
        id_token: "i".to_string(),
        token_type: "t".to_string(),
        expires_in: 60,
    }
}

#[test]
fn exchange_outcomes_map_to_fixed_statuses() {
    assert_eq!(status_for_exchange(&Ok(token_set())), 200);
    assert_eq!(status_for_exchange(&Err(ExchangeError::MissingCode)), 400);
    assert_eq!(
        status_for_exchange(&Err(ExchangeError::UpstreamCallFailed {
            status: 503,
            body: "busy".to_string(),
        })),
        502
    );
    assert_eq!(
        status_for_exchange(&Err(ExchangeError::UpstreamCallFailed {
            status: 0,
            body: "no route".to_string(),
        })),
        502
    );
    assert_eq!(
        status_for_exchange(&Err(ExchangeError::UpstreamProtocolError)),
        502
    );
}

#[test]
fn aggregate_outcomes_map_to_fixed_statuses() {
    assert_eq!(status_for_aggregate(&Err(AggregateError::Unauthorized)), 401);
    assert_eq!(
        status_for_aggregate(&Err(AggregateError::RotationFetchFailed {
            status: 404,
            body: "gone".to_string(),
        })),
        502
    );
    assert_eq!(
        status_for_aggregate(&Err(AggregateError::RotationFetchFailed {
            status: 0,
            body: "no route".to_string(),
        })),
        500
    );
    assert_eq!(
        status_for_aggregate(&Err(AggregateError::AccountFetchFailed {
            status: 0,
            body: "no route".to_string(),
        })),
        500
    );
    assert_eq!(
        status_for_aggregate(&Err(AggregateError::AccountFetchFailed {
            status: 418,
            body: "tea".to_string(),
        })),
        502
    );
}
