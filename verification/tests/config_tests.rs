use rso_sample::config::Api;
use rso_sample::config::Configuration;
use rso_sample::config::Rso;
use rso_sample::config::Server;
use rso_sample::config::Tls;
use rso_sample::config::Urls;

fn create_cfg() -> Configuration {
    Configuration {
        server: Server {
            addr: "0.0.0.0:443".to_string(),
            tls: None,
        },
        api: Api {
            token: "token".to_string(),
            urls: Urls {
                account_data: "account_data".to_string(),
                champion_data: "champion_data".to_string(),
            },
        },
        rso: Rso {
            base_url: "base_url".to_string(),
            callback_host: "local.example.com:8080".to_string(),
            client_id: "client_id".to_string(),
            client_secret: "client_secret".to_string(),
        },
    }
}

fn create_cfg_tls() -> Configuration {
    Configuration {
        server: Server {
            addr: "0.0.0.0:443".to_string(),
            tls: Some(Tls {
                cert: "cert".to_string(),
                key: "key".to_string(),
            }),
        },
        api: Api {
            token: "token".to_string(),
            urls: Urls {
                account_data: "account_data".to_string(),
                champion_data: "champion_data".to_string(),
            },
        },
        rso: Rso {
            base_url: "base_url".to_string(),
            callback_host: "local.example.com:8080".to_string(),
            client_id: "client_id".to_string(),
            client_secret: "client_secret".to_string(),
        },
    }
}

#[test]
fn test_sign_in_url() {
    let config = create_cfg();
    assert_eq!(
        config.sign_in_url(),
        "base_url/authorize?redirect_uri=http://local.example.com:8080/oauth&client_id=client_id&response_type=code&scope=openid",
    );
}

#[test]
fn test_sign_in_url_tls() {
    let config = create_cfg_tls();
    assert_eq!(
        config.sign_in_url(),
        "base_url/authorize?redirect_uri=https://local.example.com:8080/oauth&client_id=client_id&response_type=code&scope=openid",
    );
}

#[test]
fn test_callback_url() {
    let config = create_cfg();
    assert_eq!(config.callback_url(), "http://local.example.com:8080/oauth");
}

#[test]
fn test_callback_url_tls() {
    let config = create_cfg_tls();
    assert_eq!(
        config.callback_url(),
        "https://local.example.com:8080/oauth"
    );
}

#[test]
fn test_token_url() {
    let config = create_cfg();
    assert_eq!(config.token_url(), "base_url/token");
}

#[test]
fn test_authorize_url() {
    let config = create_cfg();
    assert_eq!(config.authorize_url(), "base_url/authorize");
}

#[test]
fn server_with_tls() {
    let server = Server {
        addr: "0.0.0.0:443".to_string(),
        tls: Some(Tls {
            cert: "cert".to_string(),
            key: "key".to_string(),
        }),
    };

    assert!(server.tls.is_some());
}

#[test]
fn server_without_tls() {
    let server = Server {
        addr: "0.0.0.0:443".to_string(),
        tls: None,
    };

    assert!(server.tls.is_none());
}

#[test]
fn tls_struct_holds_certificate_and_key() {
    let tls = Tls {
        cert: "certificate".to_string(),
        key: "key".to_string(),
    };

    assert_eq!(tls.cert, "certificate");
    assert_eq!(tls.key, "key");
}

#[test]
fn args_default_to_the_usual_config_path() {
    let args = rso_sample::config::Args::default();
    assert_eq!(args.config, "config.yml");
}

#[test]
fn sign_in_url_is_idempotent() {
    let config = create_cfg();
    let first = config.sign_in_url();
    let second = config.sign_in_url();
    assert_eq!(first.as_bytes(), second.as_bytes());
}
