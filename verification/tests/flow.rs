use rust_requester::configuration::{ApiConfiguration, Configuration};
use rust_requester::error::Error;
use rust_requester::port::Port;
use rust_requester::request::{FlowState, GmailLabelRequest};

fn full_config(port: u16) -> Configuration {
    Configuration {
        api: ApiConfiguration {
            id: Some("my-client-id".to_string()),
            secret: Some("my-client-secret".to_string()),
            auth_url: Some("https://accounts.example.com/auth".to_string()),
            token_url: Some("https://accounts.example.com/token".to_string()),
        },
        local_port: Some(Port::from(port)),
    }
}

fn challenge_of(url: &str) -> &str {
    let after = url.split("code_challenge=").nth(1).expect("challenge param");
    after.split('&').next().expect("challenge value")
}

#[test]
fn two_flows_draw_different_secrets() {
    let config = full_config(8080);
    let mut first = GmailLabelRequest::new(&config).expect("first flow");
    let mut second = GmailLabelRequest::new(&config).expect("second flow");

    let challenge_one = challenge_of(&first.oauth_auth_url).to_string();
    let challenge_two = challenge_of(&second.oauth_auth_url).to_string();
    assert_ne!(challenge_one, challenge_two);
    assert_eq!(challenge_one.len(), 43);
    assert_eq!(challenge_two.len(), 43);

    first.oauth2_token_receiver();
    second.oauth2_token_receiver();
    first
        .on_listener_outcome(Ok("CODE1".to_string()))
        .expect("first code");
    second
        .on_listener_outcome(Ok("CODE2".to_string()))
        .expect("second code");
    let req_one = first.begin_token_exchange().expect("first exchange");
    let req_two = second.begin_token_exchange().expect("second exchange");
    assert_ne!(req_one.code_verifier, req_two.code_verifier);
    assert_eq!(req_one.code_verifier.len(), 43);
    assert_eq!(req_two.code_verifier.len(), 43);
    assert_ne!(req_one.code_verifier, challenge_one);
}

#[test]
fn end_to_end_authorization() {
    let config = full_config(9999);
    let mut flow = GmailLabelRequest::new(&config).expect("flow starts");
    assert!(matches!(flow.state(), FlowState::Created));
    assert!(flow
        .oauth_auth_url
        .contains("redirect_uri=http%3A%2F%2Flocalhost%3A9999"));
    assert!(flow.oauth_auth_url.contains("client_id=my-client-id"));
    assert!(flow.oauth_auth_url.contains("response_type=code"));
    assert!(flow.oauth_auth_url.contains("code_challenge_method=S256"));
    assert!(flow
        .oauth_auth_url
        .starts_with("https://accounts.example.com/auth?"));

    flow.oauth2_token_receiver();
    assert!(matches!(flow.state(), FlowState::AwaitingRedirect));

    flow.on_listener_outcome(Ok("TESTCODE".to_string()))
        .expect("code accepted");
    assert!(matches!(flow.state(), FlowState::ExchangingToken));

    let request = flow.begin_token_exchange().expect("exchange assembled");
    assert_eq!(request.token_url, "https://accounts.example.com/token");
    assert_eq!(request.code, "TESTCODE");
    assert_eq!(request.redirect_uri, "http://localhost:9999");
    assert_eq!(request.client_id, "my-client-id");
    assert_eq!(request.client_secret, Some("my-client-secret".to_string()));
    assert_eq!(request.code_verifier.len(), 43);

    flow.complete_token_exchange(Ok("FIXED_BEARER_TOKEN".to_string()))
        .expect("exchange succeeds");
    assert!(matches!(flow.state(), FlowState::Authorized));
    assert_eq!(flow.token, Some("FIXED_BEARER_TOKEN".to_string()));
    assert_eq!(flow.bearer_token().expect("token"), "FIXED_BEARER_TOKEN");
}

#[test]
fn cancellation_before_any_connection() {
    let config = full_config(8080);
    let mut flow = GmailLabelRequest::new(&config).expect("flow starts");
    flow.oauth2_token_receiver();
    flow.kill().expect("cancel is never an error");
    let outcome = flow.on_listener_outcome(Err(Error::AuthServerClosedEarly));
    assert!(matches!(outcome, Err(Error::AuthServerClosedEarly)));
    assert!(matches!(flow.state(), FlowState::Cancelled));
    assert!(flow.pkce_verifier.is_held(), "the verifier is discarded, not consumed");
    assert!(flow.token.is_none());
}

#[test]
fn listener_failure_without_cancellation_fails_the_flow() {
    let config = full_config(8080);
    let mut flow = GmailLabelRequest::new(&config).expect("flow starts");
    flow.oauth2_token_receiver();
    let outcome = flow.on_listener_outcome(Err(Error::AuthServerClosedEarly));
    assert!(matches!(outcome, Err(Error::AuthServerClosedEarly)));
    assert!(matches!(flow.state(), FlowState::Failed));
}

#[test]
fn verifier_consumed_once_per_flow() {
    let config = full_config(8080);
    let mut flow = GmailLabelRequest::new(&config).expect("flow starts");
    flow.oauth2_token_receiver();
    flow.on_listener_outcome(Ok("CODE".to_string())).expect("code");
    assert!(flow.pkce_verifier.is_held());
    let first = flow.begin_token_exchange();
    assert!(first.is_ok());
    assert!(!flow.pkce_verifier.is_held());
    let second = flow.begin_token_exchange();
    assert!(matches!(second, Err(Error::PkceCodeVerifierMissing)));
    assert!(matches!(flow.state(), FlowState::Failed));
}

#[test]
fn kill_is_idempotent_and_harmless() {
    let config = full_config(8080);
    let mut flow = GmailLabelRequest::new(&config).expect("flow starts");
    assert!(flow.kill().is_ok(), "cancel before the listener exists is a no-op");
    assert!(matches!(flow.state(), FlowState::Created));
    flow.oauth2_token_receiver();
    assert!(flow.kill().is_ok());
    assert!(flow.kill().is_ok(), "a second signal is a no-op");
    assert!(matches!(flow.state(), FlowState::AwaitingRedirect));
}

#[test]
fn missing_client_id_refuses_to_start() {
    let mut config = full_config(8080);
    config.api.id = None;
    match GmailLabelRequest::new(&config) {
        Err(Error::Unknown(m)) => assert_eq!(m, "Missing client id"),
        other => panic!("expected a missing-id error, got {:?}", other),
    }
}

#[test]
fn missing_auth_url_refuses_to_start() {
    let mut config = full_config(8080);
    config.api.auth_url = None;
    match GmailLabelRequest::new(&config) {
        Err(Error::Unknown(m)) => assert_eq!(m, "Missing auth url"),
        other => panic!("expected a missing-auth-url error, got {:?}", other),
    }
}

#[test]
fn missing_token_url_fails_the_exchange() {
    let mut config = full_config(8080);
    config.api.token_url = None;
    let mut flow = GmailLabelRequest::new(&config).expect("flow starts");
    flow.oauth2_token_receiver();
    flow.on_listener_outcome(Ok("CODE".to_string())).expect("code");
    match flow.begin_token_exchange() {
        Err(Error::Unknown(m)) => assert_eq!(m, "Missing token url"),
        other => panic!("expected a missing-token-url error, got {:?}", other),
    }
    assert!(matches!(flow.state(), FlowState::Failed));
    assert!(!flow.pkce_verifier.is_held(), "the verifier is spent either way");
}

#[test]
fn provider_rejection_fails_the_flow() {
    let config = full_config(8080);
    let mut flow = GmailLabelRequest::new(&config).expect("flow starts");
    flow.oauth2_token_receiver();
    flow.on_listener_outcome(Ok("CODE".to_string())).expect("code");
    flow.begin_token_exchange().expect("exchange assembled");
    let outcome =
        flow.complete_token_exchange(Err(Error::ProviderExchangeFailed("denied".to_string())));
    assert!(matches!(outcome, Err(Error::ProviderExchangeFailed(_))));
    assert!(matches!(flow.state(), FlowState::Failed));
    assert!(flow.token.is_none());
}

#[test]
fn default_port_is_8080() {
    let mut config = full_config(8080);
    config.local_port = None;
    let flow = GmailLabelRequest::new(&config).expect("flow starts");
    assert!(flow
        .oauth_auth_url
        .contains("redirect_uri=http%3A%2F%2Flocalhost%3A8080"));
}

#[test]
fn bearer_token_before_authorization_is_missing() {
    let config = full_config(8080);
    let flow = GmailLabelRequest::new(&config).expect("flow starts");
    assert!(matches!(flow.bearer_token(), Err(Error::MissingToken)));
}
