//! The configuration form's state: which field an edit changes, how the port
//! field is validated, and the warning or error text shown beside it.  The
//! widgets themselves and the storage of each change live with the caller.

use vstd::prelude::*;
use vstd::string::StringExecFns;

use crate::configuration::Configuration;
use crate::encode::dec_chars;
use crate::encode::dec_string_u16;
use crate::encode::parse_u16;
use crate::encode::spec_parse_u16;
use crate::error::Error;
use crate::port::Port;

verus! {

/// One edit of the configuration form, carrying the field's new text.
#[derive(Debug, Clone)]
pub enum Message {
    ClientIDChanged(String),
    ClientSecretChanged(String),
    AuthURLChanged(String),
    TokenURLChanged(String),
    LocalPortChanged(String),
}

/// How the text beside the port field is meant: a hard error or a warning.
#[derive(Debug)]
pub enum ErrorStyle {
    Error,
    Warning,
}

/// The warning shown for a privileged port.
pub open spec fn low_port_warning() -> Seq<char> {
    "Ports below 1024 require admin permissions."@
}

/// The error shown for text that is no port number.
pub open spec fn invalid_port_text() -> Seq<char> {
    "Invalid port number."@
}

/// The state of the configuration form.  Only the port gets validation: its
/// raw text is kept so a mistake can be typed out in full before it parses.
#[derive(Debug)]
pub struct ConfigInputs {
    pub port_raw_string: String,
    pub port_error_text: Option<String>,
    pub port_error_style: ErrorStyle,
}

impl ConfigInputs {
    /// The warning for a privileged port, or nothing.
    pub fn check_for_low_port(port: u16) -> (r: Option<String>)
        ensures
            port < 1024 ==> (r matches Some(m) && m@ == low_port_warning()),
            port >= 1024 ==> r is None,
    {
        if port < 1024 {
            Some(String::from_str("Ports below 1024 require admin permissions."))
        } else {
            None
        }
    }

    /// The form as it first appears: the stored port written out, and the
    /// privileged-port warning already shown when it applies.
    pub fn new(initial_port: Option<u16>) -> (c: Self)
        ensures
            initial_port matches Some(p) ==> c.port_raw_string@ == dec_chars(p as int),
            initial_port is None ==> c.port_raw_string@ == Seq::<char>::empty(),
            (match initial_port {
                Some(p) => if p < 1024 {
                    c.port_error_text matches Some(m) && m@ == low_port_warning()
                } else {
                    c.port_error_text is None
                },
                None => c.port_error_text is None,
            }),
            c.port_error_style is Warning,
    {
        let (initial_port_value, port_error_text): (String, Option<String>) = match initial_port {
            Some(p) => (dec_string_u16(p), Self::check_for_low_port(p)),
            None => (String::new(), None),
        };
        ConfigInputs {
            port_raw_string: initial_port_value,
            port_error_text,
            port_error_style: ErrorStyle::Warning,
        }
    }

    /// Applies one edit.  A credential or endpoint edit replaces that field
    /// of the configuration.  A port edit is parsed first: a port number is
    /// stored (with the privileged-port warning when it applies), anything
    /// else leaves the configuration alone and shows the error.  The caller
    /// persists the returned configuration.
    pub fn update(&mut self, incoming_message: Message, config: &mut Configuration) -> (r: Result<
        Configuration,
        Error,
    >)
        ensures
            r matches Ok(c) && c == *final (config),
            incoming_message matches Message::ClientIDChanged(value) ==> ({
                &&& final (config).api.id == Some(value)
                &&& final (config).api.secret == old(config).api.secret
                &&& final (config).api.auth_url == old(config).api.auth_url
                &&& final (config).api.token_url == old(config).api.token_url
                &&& final (config).local_port == old(config).local_port
                &&& *final (self) == *old(self)
            }),
            incoming_message matches Message::ClientSecretChanged(value) ==> ({
                &&& final (config).api.secret == Some(value)
                &&& final (config).api.id == old(config).api.id
                &&& final (config).api.auth_url == old(config).api.auth_url
                &&& final (config).api.token_url == old(config).api.token_url
                &&& final (config).local_port == old(config).local_port
                &&& *final (self) == *old(self)
            }),
            incoming_message matches Message::AuthURLChanged(value) ==> ({
                &&& final (config).api.auth_url == Some(value)
                &&& final (config).api.id == old(config).api.id
                &&& final (config).api.secret == old(config).api.secret
                &&& final (config).api.token_url == old(config).api.token_url
                &&& final (config).local_port == old(config).local_port
                &&& *final (self) == *old(self)
            }),
            incoming_message matches Message::TokenURLChanged(value) ==> ({
                &&& final (config).api.token_url == Some(value)
                &&& final (config).api.id == old(config).api.id
                &&& final (config).api.secret == old(config).api.secret
                &&& final (config).api.auth_url == old(config).api.auth_url
                &&& final (config).local_port == old(config).local_port
                &&& *final (self) == *old(self)
            }),
            incoming_message matches Message::LocalPortChanged(value) ==> ({
                &&& final (config).api == old(config).api
                &&& final (self).port_raw_string == value
                &&& match spec_parse_u16(value@) {
                    Some(p) => {
                        &&& final (config).local_port matches Some(q) && q.spec_u16() == p
                        &&& (p < 1024 ==> (final (self).port_error_text matches Some(m) && m@
                            == low_port_warning()) && final (self).port_error_style is Warning)
                        &&& (p >= 1024 ==> final (self).port_error_text is None
                            && final (self).port_error_style == old(self).port_error_style)
                    },
                    None => {
                        &&& final (config).local_port == old(config).local_port
                        &&& (final (self).port_error_text matches Some(m) && m@
                            == invalid_port_text())
                        &&& final (self).port_error_style is Error
                    },
                }
            }),
    {
        match incoming_message {
            Message::ClientIDChanged(value) => {
                config.api.id = Some(value);
                Ok(config.duplicate())
            },
            Message::ClientSecretChanged(value) => {
                config.api.secret = Some(value);
                Ok(config.duplicate())
            },
            Message::AuthURLChanged(value) => {
                config.api.auth_url = Some(value);
                Ok(config.duplicate())
            },
            Message::TokenURLChanged(value) => {
                config.api.token_url = Some(value);
                Ok(config.duplicate())
            },
            Message::LocalPortChanged(value) => {
                match parse_u16(value.as_str()) {
                    Some(port) => {
                        self.port_error_text = None;
                        self.port_raw_string = value;
                        if port < 1024 {
                            self.port_error_style = ErrorStyle::Warning;
                            self.port_error_text = Some(
                                String::from_str("Ports below 1024 require admin permissions."),
                            );
                        }
                        config.local_port = Some(Port::from(port));
                        Ok(config.duplicate())
                    },
                    None => {
                        self.port_error_style = ErrorStyle::Error;
                        self.port_error_text = Some(String::from_str("Invalid port number."));
                        self.port_raw_string = value;
                        Ok(config.duplicate())
                    },
                }
            },
        }
    }
}

} // verus!
