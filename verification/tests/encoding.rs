use rust_requester::auth_url::{build_authorize_url, redirect_uri_text, scope_text};
use rust_requester::config_inputs::{ConfigInputs, ErrorStyle, Message};
use rust_requester::configuration::Configuration;
use rust_requester::encode::{dec_string_u16, parse_u16, percent_encode};
use rust_requester::port::Port;

#[test]
fn decimal_writing_of_ports() {
    assert_eq!(dec_string_u16(0), "0");
    assert_eq!(dec_string_u16(7), "7");
    assert_eq!(dec_string_u16(8080), "8080");
    assert_eq!(dec_string_u16(65535), "65535");
    assert_eq!(dec_string_u16(1000), "1000");
}

#[test]
fn parsing_accepts_ports() {
    assert_eq!(parse_u16("8080"), Some(8080));
    assert_eq!(parse_u16("0"), Some(0));
    assert_eq!(parse_u16("65535"), Some(65535));
    assert_eq!(parse_u16("+80"), Some(80));
    assert_eq!(parse_u16("007"), Some(7));
}

#[test]
fn parsing_rejects_everything_else() {
    assert_eq!(parse_u16(""), None);
    assert_eq!(parse_u16("+"), None);
    assert_eq!(parse_u16("-1"), None);
    assert_eq!(parse_u16("12a"), None);
    assert_eq!(parse_u16("port"), None);
    assert_eq!(parse_u16("65536"), None);
    assert_eq!(parse_u16("999999999999"), None);
    assert_eq!(parse_u16("1 2"), None);
}

#[test]
fn unreserved_text_is_kept() {
    assert_eq!(
        percent_encode("ABCXYZabcxyz0189-._~"),
        "ABCXYZabcxyz0189-._~"
    );
}

#[test]
fn reserved_ascii_is_percent_encoded() {
    assert_eq!(percent_encode("http://localhost:9999"), "http%3A%2F%2Flocalhost%3A9999");
    assert_eq!(percent_encode(" "), "%20");
    assert_eq!(percent_encode("a&b=c"), "a%26b%3Dc");
    assert_eq!(percent_encode("100%"), "100%25");
}

#[test]
fn other_characters_become_their_utf8_bytes() {
    assert_eq!(percent_encode("\u{e9}"), "%C3%A9");
    assert_eq!(percent_encode("\u{20ac}"), "%E2%82%AC");
    assert_eq!(percent_encode("\u{1f642}"), "%F0%9F%99%82");
}

#[test]
fn redirect_uri_carries_the_port() {
    assert_eq!(redirect_uri_text(9999), "http://localhost:9999");
    assert_eq!(redirect_uri_text(80), "http://localhost:80");
}

#[test]
fn the_scope_is_fixed() {
    assert_eq!(scope_text(), "https://www.googleapis.com/auth/gmail.labels");
}

#[test]
fn the_authorization_url_is_assembled_in_order() {
    let url = build_authorize_url(
        "https://auth.example.com/o",
        "my id",
        8080,
        "STATE22",
        "CHALLENGE43",
    );
    assert_eq!(
        url,
        "https://auth.example.com/o?client_id=my%20id&response_type=code\
         &redirect_uri=http%3A%2F%2Flocalhost%3A8080\
         &scope=https%3A%2F%2Fwww.googleapis.com%2Fauth%2Fgmail.labels\
         &state=STATE22&code_challenge=CHALLENGE43&code_challenge_method=S256"
    );
}

#[test]
fn the_form_starts_from_the_stored_port() {
    let inputs = ConfigInputs::new(Some(9999));
    assert_eq!(inputs.port_raw_string, "9999");
    assert!(inputs.port_error_text.is_none());
    assert!(matches!(inputs.port_error_style, ErrorStyle::Warning));

    let inputs = ConfigInputs::new(None);
    assert_eq!(inputs.port_raw_string, "");
    assert!(inputs.port_error_text.is_none());
}

#[test]
fn the_form_warns_about_privileged_ports() {
    let inputs = ConfigInputs::new(Some(443));
    assert_eq!(
        inputs.port_error_text,
        Some("Ports below 1024 require admin permissions.".to_string())
    );
    assert_eq!(ConfigInputs::check_for_low_port(1023).is_some(), true);
    assert_eq!(ConfigInputs::check_for_low_port(1024), None);
}

#[test]
fn a_field_edit_updates_that_field() {
    let mut inputs = ConfigInputs::new(None);
    let mut config = Configuration::new();
    let updated = inputs
        .update(Message::ClientIDChanged("the-id".to_string()), &mut config)
        .expect("edits never fail");
    assert_eq!(updated.api.id, Some("the-id".to_string()));
    assert_eq!(config.api.id, Some("the-id".to_string()));
    assert!(config.api.secret.is_none());

    inputs
        .update(Message::ClientSecretChanged("sec".to_string()), &mut config)
        .expect("edits never fail");
    inputs
        .update(Message::AuthURLChanged("https://a".to_string()), &mut config)
        .expect("edits never fail");
    inputs
        .update(Message::TokenURLChanged("https://t".to_string()), &mut config)
        .expect("edits never fail");
    assert!(config.is_complete());
}

#[test]
fn a_valid_port_edit_is_stored() {
    let mut inputs = ConfigInputs::new(None);
    let mut config = Configuration::new();
    inputs
        .update(Message::LocalPortChanged("9999".to_string()), &mut config)
        .expect("edits never fail");
    assert_eq!(config.local_port.map(Port::as_u16), Some(9999));
    assert_eq!(inputs.port_raw_string, "9999");
    assert!(inputs.port_error_text.is_none());
}

#[test]
fn a_privileged_port_edit_is_stored_with_a_warning() {
    let mut inputs = ConfigInputs::new(None);
    let mut config = Configuration::new();
    inputs
        .update(Message::LocalPortChanged("80".to_string()), &mut config)
        .expect("edits never fail");
    assert_eq!(config.local_port.map(Port::as_u16), Some(80));
    assert_eq!(
        inputs.port_error_text,
        Some("Ports below 1024 require admin permissions.".to_string())
    );
    assert!(matches!(inputs.port_error_style, ErrorStyle::Warning));
}

#[test]
fn an_invalid_port_edit_changes_nothing_but_the_form() {
    let mut inputs = ConfigInputs::new(None);
    let mut config = Configuration::new();
    config.local_port = Some(Port::from(8080));
    inputs
        .update(Message::LocalPortChanged("80x".to_string()), &mut config)
        .expect("edits never fail");
    assert_eq!(config.local_port.map(Port::as_u16), Some(8080));
    assert_eq!(inputs.port_raw_string, "80x");
    assert_eq!(inputs.port_error_text, Some("Invalid port number.".to_string()));
    assert!(matches!(inputs.port_error_style, ErrorStyle::Error));
}
