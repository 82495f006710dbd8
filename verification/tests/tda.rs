use tda_broker::tda_broker::{Order, TdaBroker, STALENESS_SECONDS};
use tda_broker::tda_client::{
    accounts_url, auth_url, extract_code, qualified_client_id, token_url, AuthAction, Client,
    Config, TokenRequest, TokenResponse,
};
use tda_broker::{Rational, TdaError};

fn empty_config() -> Config {
    Config {
        authorization_code: None,
        refresh_token: None,
        access_token: None,
        client_id: None,
    }
}

fn response(access_token: &str, expires_in: i64) -> TokenResponse {
    TokenResponse {
        access_token: access_token.to_string(),
        expires_in,
        token_type: "Bearer".to_string(),
        scope: "PlaceTrades".to_string(),
        refresh_token: None,
        refresh_token_expires_in: None,
    }
}

#[test]
fn it_works() {
    assert_eq!(2 + 2, 4);
}

#[test]
fn test_extract_code() {
    let code = "https://127.0.0.1/?code=abc123\n";
    assert_eq!(&extract_code(code.into()), "abc123");
}

#[test]
fn test_extract_code_bare_is_kept() {
    assert_eq!(&extract_code("abc123".into()), "abc123");
}

#[test]
fn test_extract_code_idempotent() {
    let once = extract_code("https://127.0.0.1/?code=abc123\n".into());
    let twice = extract_code(once.clone());
    assert_eq!(once, twice);
}

#[test]
fn test_extract_code_trims_whitespace() {
    assert_eq!(&extract_code("  xyz \r\n".into()), "xyz");
    assert_eq!(&extract_code("https://127.0.0.1/?code=q7%2F \n".into()), "q7%2F");
}

#[test]
fn test_qualified_client_id() {
    assert_eq!(&qualified_client_id("ABCD"), "ABCD@AMER.OAUTHAP");
}

#[test]
fn test_endpoints() {
    assert_eq!(token_url(), "https://api.tdameritrade.com/v1/oauth2/token");
    assert_eq!(accounts_url(), "https://api.tdameritrade.com/v1/accounts");
}

#[test]
fn test_auth_url() {
    let url = auth_url("MYID");
    assert_eq!(
        &url,
        "https://auth.tdameritrade.com/auth?response_type=code&redirect_uri=http%3A%2F%2F127.0.0.1&client_id=MYID%40AMER.OAUTHAP"
    );
}

#[test]
fn test_client_new_seeds_from_config() {
    let config = Config {
        authorization_code: Some("CODE".to_string()),
        refresh_token: Some("REFRESH".to_string()),
        access_token: Some("ACCESS".to_string()),
        client_id: Some("ID".to_string()),
    };
    let client = Client::new_at(&config, 12345);
    assert_eq!(&client.authorization_code, "CODE");
    assert_eq!(&client.refresh_token, "REFRESH");
    assert_eq!(&client.access_token, "ACCESS");
    assert_eq!(client.refresh_token_expiration, 12345);
    assert_eq!(client.access_token_expiration, 12345);
}

#[test]
fn test_client_new_defaults_to_empty() {
    let client = Client::new_at(&empty_config(), 0);
    assert_eq!(&client.authorization_code, "");
    assert_eq!(&client.refresh_token, "");
    assert_eq!(&client.access_token, "");
}

#[test]
fn test_default_client_is_empty() {
    let client = Client::default();
    assert_eq!(&client.authorization_code, "");
    assert_eq!(&client.refresh_token, "");
    assert_eq!(&client.access_token, "");
    assert_eq!(client.refresh_token_expiration, client.access_token_expiration);
}

#[test]
fn test_auth_adopts_configured_code() {
    let mut client = Client::new_at(&empty_config(), 0);
    let config = Config {
        authorization_code: Some("FROMENV".to_string()),
        refresh_token: None,
        access_token: None,
        client_id: None,
    };
    let action = client.auth(&config);
    assert!(matches!(action, Ok(AuthAction::Adopted)));
    assert_eq!(&client.authorization_code, "FROMENV");
}

#[test]
fn test_auth_prompts_when_no_code() {
    let mut client = Client::new_at(&empty_config(), 0);
    let config = Config {
        authorization_code: None,
        refresh_token: None,
        access_token: None,
        client_id: Some("X".to_string()),
    };
    match client.auth(&config) {
        Ok(AuthAction::Prompt { url }) => assert_eq!(
            &url,
            "https://auth.tdameritrade.com/auth?response_type=code&redirect_uri=http%3A%2F%2F127.0.0.1&client_id=X%40AMER.OAUTHAP"
        ),
        other => panic!("expected a prompt, got {:?}", other),
    }
    assert_eq!(&client.authorization_code, "");
}

#[test]
fn test_auth_missing_client_id_is_configuration_error() {
    let mut client = Client::new_at(&empty_config(), 0);
    let action = client.auth(&empty_config());
    assert_eq!(action.unwrap_err(), TdaError::Configuration);
}

#[test]
fn test_manual_auth_stores_extracted_code() {
    let mut client = Client::new_at(&empty_config(), 0);
    let r = client.manual_auth("https://127.0.0.1/?code=abc123\n".to_string());
    assert!(r.is_ok());
    assert_eq!(&client.authorization_code, "abc123");
}

#[test]
fn test_manual_auth_url_decodes() {
    let mut client = Client::new_at(&empty_config(), 0);
    let r = client.manual_auth("https://127.0.0.1/?code=a%41%2Fb\n".to_string());
    assert!(r.is_ok());
    assert_eq!(&client.authorization_code, "aA/b");
}

#[test]
fn test_manual_auth_undecodable_line_is_input_error() {
    let mut client = Client::new_at(&empty_config(), 7);
    let r = client.manual_auth("%FF\n".to_string());
    assert_eq!(r.unwrap_err(), TdaError::Input);
    assert_eq!(&client.authorization_code, "");
    assert_eq!(client.access_token_expiration, 7);
}

#[test]
fn test_grant_selection_prefers_refresh_token() {
    let config = Config {
        authorization_code: Some("CODE".to_string()),
        refresh_token: Some("LONGLIVED".to_string()),
        access_token: None,
        client_id: None,
    };
    let client = Client::new_at(&config, 0);
    match client.update_access_token("ID") {
        TokenRequest::RefreshTokenGrant { refresh_token, client_id } => {
            assert_eq!(&refresh_token, "LONGLIVED");
            assert_eq!(&client_id, "ID@AMER.OAUTHAP");
        }
        other => panic!("expected the refresh-token grant, got {:?}", other),
    }
}

#[test]
fn test_grant_selection_falls_back_to_authorization_code() {
    let config = Config {
        authorization_code: Some("CODE".to_string()),
        refresh_token: None,
        access_token: None,
        client_id: None,
    };
    let client = Client::new_at(&config, 0);
    match client.update_access_token("ID") {
        TokenRequest::AuthorizationCodeGrant { code, client_id } => {
            assert_eq!(&code, "CODE");
            assert_eq!(&client_id, "ID@AMER.OAUTHAP");
        }
        other => panic!("expected the authorization-code grant, got {:?}", other),
    }
}

#[test]
fn test_refresh_grant_form_params() {
    let client = Client::new_at(
        &Config {
            authorization_code: None,
            refresh_token: Some("R".to_string()),
            access_token: None,
            client_id: None,
        },
        0,
    );
    let params = client.update_access_token("ID").form_params();
    let pairs: Vec<(&str, &str)> =
        params.iter().map(|p| (p.0.as_str(), p.1.as_str())).collect();
    assert_eq!(
        pairs,
        vec![
            ("grant_type", "refresh_token"),
            ("refresh_token", "R"),
            ("client_id", "ID@AMER.OAUTHAP"),
        ]
    );
}

#[test]
fn test_authorization_code_grant_form_params() {
    let client = Client::new_at(
        &Config {
            authorization_code: Some("C".to_string()),
            refresh_token: None,
            access_token: None,
            client_id: None,
        },
        0,
    );
    let params = client.update_access_token("ID").form_params();
    let pairs: Vec<(&str, &str)> =
        params.iter().map(|p| (p.0.as_str(), p.1.as_str())).collect();
    assert_eq!(
        pairs,
        vec![
            ("grant_type", "authorization_code"),
            ("code", "C"),
            ("client_id", "ID@AMER.OAUTHAP"),
            ("access_type", "offline"),
            ("redirect_uri", "http://127.0.0.1"),
        ]
    );
}

#[test]
fn test_expiration_arithmetic() {
    let mut client = Client::new_at(&empty_config(), 0);
    let now: i64 = 1_700_000_000;
    client.apply_token_response(response("TOKEN", 1800), now);
    assert_eq!(&client.access_token, "TOKEN");
    assert_eq!(client.access_token_expiration, now + 1800);
}

#[test]
fn test_apply_adopts_refresh_fields_only_when_both_present() {
    let now: i64 = 1_000_000;
    let mut client = Client::new_at(&empty_config(), 0);
    let mut reply = response("T1", 1800);
    reply.refresh_token = Some("NEWREFRESH".to_string());
    reply.refresh_token_expires_in = Some(7_776_000);
    client.apply_token_response(reply, now);
    assert_eq!(&client.refresh_token, "NEWREFRESH");
    assert_eq!(client.refresh_token_expiration, now + 7_776_000);

    let mut partial = response("T2", 600);
    partial.refresh_token = Some("IGNORED".to_string());
    client.apply_token_response(partial, now + 50);
    assert_eq!(&client.refresh_token, "NEWREFRESH");
    assert_eq!(client.refresh_token_expiration, now + 7_776_000);
    assert_eq!(&client.access_token, "T2");
    assert_eq!(client.access_token_expiration, now + 50 + 600);
}

#[test]
fn test_bearer_header() {
    let mut client = Client::new_at(&empty_config(), 0);
    client.apply_token_response(response("SECRET", 60), 0);
    assert_eq!(&client.bearer_header(), "Bearer SECRET");
}

#[test]
fn test_client_get_cash_placeholder() {
    let client = Client::new_at(&empty_config(), 0);
    assert_eq!(client.get_cash(), Rational::new(100, 100));
}

#[test]
fn test_staleness_fresh_within_threshold() {
    let now: i64 = 1_700_000_000;
    let mut broker = TdaBroker::new(Client::new_at(&empty_config(), 0));
    broker.complete_update(Ok(response("T", 3600)), now - 29 * 60).unwrap();
    assert!(!broker.needs_update(now));
    assert!(broker.maybe_update("ID", now).is_none());
    assert_eq!(broker.last_updated, Some(now - 29 * 60));
}

#[test]
fn test_staleness_refresh_past_threshold() {
    let now: i64 = 1_700_000_000;
    let mut broker = TdaBroker::new(Client::new_at(&empty_config(), 0));
    broker.complete_update(Ok(response("T", 3600)), now - 31 * 60).unwrap();
    assert!(broker.needs_update(now));
    assert!(broker.maybe_update("ID", now).is_some());
    let r = broker.complete_update(Ok(response("T2", 3600)), now);
    assert!(r.is_ok());
    assert_eq!(broker.last_updated, Some(now));
}

#[test]
fn test_staleness_threshold_is_thirty_minutes() {
    assert_eq!(STALENESS_SECONDS, 30 * 60);
    let now: i64 = 500_000;
    let mut broker = TdaBroker::new(Client::new_at(&empty_config(), 0));
    broker.complete_update(Ok(response("T", 60)), now - STALENESS_SECONDS).unwrap();
    // exactly at the threshold the credential is still fresh
    assert!(!broker.needs_update(now));
    assert!(broker.needs_update(now + 1));
}

#[test]
fn test_never_updated_broker_is_stale() {
    let broker = TdaBroker::new(Client::new_at(&empty_config(), 0));
    assert_eq!(broker.last_updated, None);
    assert!(broker.needs_update(i64::MIN));
    assert!(broker.needs_update(0));
    assert!(broker.maybe_update("ID", 0).is_some());
}

#[test]
fn test_complete_update_reports_failure_unchanged() {
    let now: i64 = 42;
    let mut broker = TdaBroker::new(Client::new_at(&empty_config(), 7));
    let r = broker.complete_update(Err(TdaError::Transport), now);
    assert_eq!(r.unwrap_err(), TdaError::Transport);
    assert_eq!(broker.last_updated, None);
    assert_eq!(&broker.client.access_token, "");
    let r = broker.complete_update(Err(TdaError::Decode), now);
    assert_eq!(r.unwrap_err(), TdaError::Decode);
    assert_eq!(broker.last_updated, None);
}

#[test]
fn test_unimplemented_capabilities() {
    let mut broker = TdaBroker::new(Client::new_at(&empty_config(), 0));
    assert_eq!(broker.get_positions().unwrap_err(), TdaError::Unimplemented);
    assert_eq!(broker.get_orders().unwrap_err(), TdaError::Unimplemented);
    assert_eq!(broker.new_order(Order {}).unwrap_err(), TdaError::Unimplemented);
    // regardless of credential state
    broker.complete_update(Ok(response("T", 3600)), 1000).unwrap();
    assert_eq!(broker.get_positions().unwrap_err(), TdaError::Unimplemented);
    assert_eq!(broker.get_orders().unwrap_err(), TdaError::Unimplemented);
    assert_eq!(broker.new_order(Order {}).unwrap_err(), TdaError::Unimplemented);
}

#[test]
fn test_broker_get_cash_placeholder() {
    let broker = TdaBroker::new(Client::new_at(&empty_config(), 0));
    assert_eq!(broker.get_cash(), Rational::new(100, 100));
}

#[test]
fn test_end_to_end_construction() {
    // configuration: CLIENT_ID present, no authorization code, no refresh token
    let config = Config {
        authorization_code: None,
        refresh_token: None,
        access_token: None,
        client_id: Some("X".to_string()),
    };
    let now: i64 = 1_700_000_000;
    let mut client = Client::new_at(&config, now);

    // construction runs the manual authorization flow
    match client.auth(&config) {
        Ok(AuthAction::Prompt { url }) => assert!(url.contains("client_id=X%40AMER.OAUTHAP")),
        other => panic!("expected a prompt, got {:?}", other),
    }
    client.manual_auth("https://127.0.0.1/?code=Z9\n".to_string()).unwrap();
    assert_eq!(&client.authorization_code, "Z9");

    // a fresh facade is stale, so it asks for an exchange at once
    let mut broker = TdaBroker::new(client);
    assert_eq!(broker.last_updated, None);
    let request = broker.maybe_update("X", now).expect("a new facade must refresh");
    match request {
        TokenRequest::AuthorizationCodeGrant { code, client_id } => {
            assert_eq!(&code, "Z9");
            assert_eq!(&client_id, "X@AMER.OAUTHAP");
        }
        other => panic!("expected the authorization-code grant, got {:?}", other),
    }

    // the mock exchange completes and primes the facade
    let r = broker.complete_update(Ok(response("T", 3600)), now);
    assert!(r.is_ok());
    assert_eq!(&broker.client.access_token, "T");
    assert_eq!(broker.client.access_token_expiration, now + 3600);
    assert!(broker.last_updated.is_some());
    assert_eq!(broker.last_updated, Some(now));
}

#[test]
fn test_rational_new() {
    let r = Rational::new(3, 4);
    assert_eq!(r.numer, 3);
    assert_eq!(r.denom, 4);
    assert_eq!(Rational::new(100, 100), Rational::new(100, 100));
}
