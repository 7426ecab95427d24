use rust_requester::configuration::{
    fill_config, has_length, ApiConfiguration, Configuration, EditableConfigFields,
};
use rust_requester::error::{BindErrorKind, Error};
use rust_requester::pkce::PkceVerifierCell;
use rust_requester::port::Port;

fn some(s: &str) -> Option<String> {
    Some(s.to_string())
}

#[test]
fn configuration_starts_empty_and_incomplete() {
    let config = Configuration::new();
    assert!(config.api.id.is_none());
    assert!(config.api.secret.is_none());
    assert!(config.api.auth_url.is_none());
    assert!(config.api.token_url.is_none());
    assert!(config.local_port.is_none());
    assert!(!config.is_complete());
}

#[test]
fn configuration_is_complete_with_every_field() {
    let config = Configuration {
        api: ApiConfiguration {
            id: some("i"),
            secret: some("s"),
            auth_url: some("a"),
            token_url: some("t"),
        },
        local_port: None,
    };
    assert!(config.is_complete());
    let mut partial = config;
    partial.api.secret = None;
    assert!(!partial.is_complete());
}

#[test]
fn selective_update_prefers_the_given_fields() {
    let config = Configuration {
        api: ApiConfiguration {
            id: some("old-id"),
            secret: None,
            auth_url: some("old-auth"),
            token_url: None,
        },
        local_port: Some(Port::from(8080)),
    };
    let updated = config.selective_immutable_update(
        some("new-id"),
        some("new-secret"),
        None,
        None,
        None,
    );
    assert_eq!(updated.api.id, some("new-id"));
    assert_eq!(updated.api.secret, some("new-secret"));
    assert_eq!(updated.api.auth_url, some("old-auth"));
    assert_eq!(updated.api.token_url, None);
    assert_eq!(updated.local_port.map(Port::as_u16), Some(8080));
}

#[test]
fn update_config_replaces_every_field() {
    let config = Configuration::new();
    let updated = config.update_config(some("i"), None, some("a"), None, Some(Port::from(99)));
    assert_eq!(updated.api.id, some("i"));
    assert_eq!(updated.api.secret, None);
    assert_eq!(updated.api.auth_url, some("a"));
    assert_eq!(updated.api.token_url, None);
    assert_eq!(updated.local_port.map(Port::as_u16), Some(99));
}

#[test]
fn update_api_keeps_the_port() {
    let config = Configuration {
        api: ApiConfiguration { id: None, secret: None, auth_url: None, token_url: None },
        local_port: Some(Port::from(1234)),
    };
    let updated = config.update_api(some("i"), some("s"), some("a"), some("t"));
    assert_eq!(updated.api.id, some("i"));
    assert_eq!(updated.local_port.map(Port::as_u16), Some(1234));
}

#[test]
fn reset_gives_an_empty_configuration() {
    let config = Configuration::reset();
    assert!(!config.is_complete());
    assert!(config.local_port.is_none());
}

#[test]
fn fill_prefers_stored_values_and_drops_empty_ones() {
    let api = ApiConfiguration {
        id: some("stored-id"),
        secret: None,
        auth_url: some(""),
        token_url: None,
    };
    let filled = api.fill(some("typed-id"), some("typed-secret"), some("typed-auth"), some(""));
    assert_eq!(filled.id, some("stored-id"), "a stored value wins over the prompt");
    assert_eq!(filled.secret, some("typed-secret"));
    assert_eq!(filled.auth_url, None, "an empty stored value is dropped");
    assert_eq!(filled.token_url, None, "an empty answer is dropped");
}

#[test]
fn fill_config_prompts_the_port_only_when_unset() {
    let config = Configuration {
        api: ApiConfiguration { id: None, secret: None, auth_url: None, token_url: None },
        local_port: Some(Port::from(4000)),
    };
    let filled = fill_config(config, None, None, None, None, Some(Port::from(5000)));
    assert_eq!(filled.local_port.map(Port::as_u16), Some(4000));

    let config = Configuration::new();
    let filled = fill_config(config, None, None, None, None, Some(Port::from(5000)));
    assert_eq!(filled.local_port.map(Port::as_u16), Some(5000));
}

#[test]
fn has_length_checks_for_text() {
    assert!(has_length(&"x".to_string()));
    assert!(!has_length(&"".to_string()));
    assert!(ApiConfiguration::has_length(&"abc".to_string()));
}

#[test]
fn duplicate_copies_every_field() {
    let config = Configuration {
        api: ApiConfiguration {
            id: some("i"),
            secret: some("s"),
            auth_url: some("a"),
            token_url: some("t"),
        },
        local_port: Some(Port::from(8080)),
    };
    let copy = config.duplicate();
    assert_eq!(copy.api.id, config.api.id);
    assert_eq!(copy.api.secret, config.api.secret);
    assert_eq!(copy.api.auth_url, config.api.auth_url);
    assert_eq!(copy.api.token_url, config.api.token_url);
    assert_eq!(copy.local_port.map(Port::as_u16), config.local_port.map(Port::as_u16));
}

#[test]
fn editable_fields_name_their_columns() {
    assert_eq!(EditableConfigFields::ApiId.column_name(), "api_id");
    assert_eq!(EditableConfigFields::ApiSecret.column_name(), "api_secret");
    assert_eq!(EditableConfigFields::AuthUrl.column_name(), "auth_url");
    assert_eq!(EditableConfigFields::TokenUrl.column_name(), "token_url");
    assert_eq!(EditableConfigFields::LocalPort.column_name(), "local_port");
}

#[test]
fn port_defaults_to_8080() {
    assert_eq!(Port::default().as_u16(), 8080);
    assert_eq!(Port::from(9999).as_u16(), 9999);
}

#[test]
fn bind_errors_map_to_their_kinds() {
    assert!(matches!(
        Error::from_bind_error(BindErrorKind::PermissionDenied),
        Error::PortPermissionDenied
    ));
    assert!(matches!(Error::from_bind_error(BindErrorKind::AddressInUse), Error::PortInUse));
    assert!(matches!(
        Error::from_bind_error(BindErrorKind::Other),
        Error::AuthServerClosedEarly
    ));
}

#[test]
fn error_messages_describe_each_kind() {
    assert_eq!(
        Error::PortPermissionDenied.message(),
        "Cannot access low port without admin privileges."
    );
    assert_eq!(Error::InvalidPort.message(), "Invalid port number.");
    assert_eq!(Error::PortInUse.message(), "Local port is already in use.");
    assert_eq!(
        Error::AuthServerClosedEarly.message(),
        "Auth server closed before receiving auth code."
    );
    assert_eq!(Error::PkceCodeVerifierLocked.message(), "Pkce code verifier is locked.");
    assert_eq!(Error::PkceCodeVerifierMissing.message(), "Pkce code verifier is missing.");
    assert_eq!(Error::KillSignalNotInitialized.message(), "Kill signal not initialized.");
    assert_eq!(Error::MissingToken.message(), "Missing token.");
    assert_eq!(
        Error::ProviderExchangeFailed("denied".to_string()).message(),
        "Token exchange rejected: denied"
    );
    assert_eq!(Error::Unknown("boom".to_string()).message(), "Unknown error: boom");
}

#[test]
fn config_input_keeps_its_parts() {
    let input = rust_requester::config_input::ConfigInput::new(
        "api_key".to_string(),
        "API Key".to_string(),
        "abc".to_string(),
    );
    assert_eq!(input.id, "api_key");
    assert_eq!(input.label, "API Key");
    assert_eq!(input.value, "abc");
}

#[test]
fn a_label_is_plain_data() {
    let label = rust_requester::label::Label {
        id: "Label_1".to_string(),
        name: "Receipts".to_string(),
        message_list_visibility: Some("show".to_string()),
        label_list_visibility: None,
        label_type: "user".to_string(),
        messages_total: Some(12),
        messages_unread: Some(3),
        threads_total: None,
        threads_unread: None,
        color: None,
    };
    assert_eq!(label.name, "Receipts");
    assert_eq!(label.messages_total, Some(12));
}

#[test]
fn verifier_cell_gives_the_verifier_once() {
    let mut cell = PkceVerifierCell::new("the-verifier".to_string());
    assert!(cell.is_held());
    assert_eq!(cell.take().expect("first take"), "the-verifier");
    assert!(!cell.is_held());
    assert!(matches!(cell.take(), Err(Error::PkceCodeVerifierMissing)));
    assert!(matches!(cell.take(), Err(Error::PkceCodeVerifierMissing)));
}
