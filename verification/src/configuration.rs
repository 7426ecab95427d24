use vstd::prelude::*;
use vstd::string::StrSliceExecFns;
use vstd::string::StringExecFns;

use crate::port::Port;

verus! {

/// The credentials and endpoints the flow is run against.  A storage
/// collaborator loads and saves these; the flow only reads them.
#[derive(Debug, Clone)]
pub struct Configuration {
    pub api: ApiConfiguration,
    pub local_port: Option<Port>,
}

/// The provider-facing half of the configuration.
#[derive(Debug, Clone)]
pub struct ApiConfiguration {
    pub id: Option<String>,
    pub secret: Option<String>,
    pub auth_url: Option<String>,
    pub token_url: Option<String>,
}

/// The sanitized, whitelisted set of configuration fields that a storage
/// collaborator may address one at a time.
#[derive(Debug, Clone, Copy)]
pub enum EditableConfigFields {
    ApiId,
    ApiSecret,
    AuthUrl,
    TokenUrl,
    LocalPort,
}

impl EditableConfigFields {
    /// The column each field is stored under.
    pub open spec fn spec_column_name(&self) -> Seq<char> {
        match self {
            EditableConfigFields::ApiId => "api_id"@,
            EditableConfigFields::ApiSecret => "api_secret"@,
            EditableConfigFields::AuthUrl => "auth_url"@,
            EditableConfigFields::TokenUrl => "token_url"@,
            EditableConfigFields::LocalPort => "local_port"@,
        }
    }

    /// Names the column this field is stored under.
    pub fn column_name(&self) -> (n: String)
        ensures
            n@ == self.spec_column_name(),
    {
        match self {
            EditableConfigFields::ApiId => String::from_str("api_id"),
            EditableConfigFields::ApiSecret => String::from_str("api_secret"),
            EditableConfigFields::AuthUrl => String::from_str("auth_url"),
            EditableConfigFields::TokenUrl => String::from_str("token_url"),
            EditableConfigFields::LocalPort => String::from_str("local_port"),
        }
    }
}

/// True when the string has at least one character.
pub fn has_length(s: &String) -> (r: bool)
    ensures
        r == (s@.len() > 0),
{
    s.as_str().unicode_len() > 0
}

/// The first of `update` and `current` that is present, if any.
pub open spec fn chosen<T>(update: Option<T>, current: Option<T>) -> Option<T> {
    if update is Some {
        update
    } else {
        current
    }
}

/// What a prompted field ends up as: the stored value if one exists,
/// otherwise whatever was entered, and in either case dropped when empty.
pub open spec fn spec_fill_field(current: Option<String>, input: Option<String>) -> Option<
    String,
> {
    let c = if current is Some {
        current
    } else {
        input
    };
    match c {
        Some(s) => if s@.len() > 0 {
            Some(s)
        } else {
            None
        },
        None => None,
    }
}

/// Keeps `current` when present, falls back to `input`, and drops the result
/// when it is the empty string.
fn fill_field(current: Option<String>, input: Option<String>) -> (r: Option<String>)
    ensures
        r == spec_fill_field(current, input),
{
    let c = match current {
        Some(s) => Some(s),
        None => input,
    };
    match c {
        Some(s) => if has_length(&s) {
            Some(s)
        } else {
            None
        },
        None => None,
    }
}

/// A copy of the option with the string inside copied character for
/// character.
fn clone_field(o: &Option<String>) -> (r: Option<String>)
    ensures
        r == *o,
{
    match o {
        Some(s) => Some(s.clone()),
        None => None,
    }
}

impl Configuration {
    /// A field-for-field copy, stated as such.
    pub fn duplicate(&self) -> (c: Self)
        ensures
            c == *self,
    {
        let c = Configuration {
            api: ApiConfiguration {
                id: clone_field(&self.api.id),
                secret: clone_field(&self.api.secret),
                auth_url: clone_field(&self.api.auth_url),
                token_url: clone_field(&self.api.token_url),
            },
            local_port: self.local_port,
        };
        assert(c.api == self.api);
        c
    }

    /// A configuration with nothing filled in yet.
    pub fn new() -> (c: Self)
        ensures
            c.api.id is None,
            c.api.secret is None,
            c.api.auth_url is None,
            c.api.token_url is None,
            c.local_port is None,
    {
        Self { api: ApiConfiguration::new(), local_port: None }
    }

    /// True when every provider-facing field is present; the flow refuses to
    /// start on anything less.
    pub fn is_complete(&self) -> (r: bool)
        ensures
            r == (self.api.id is Some && self.api.secret is Some && self.api.auth_url is Some
                && self.api.token_url is Some),
    {
        self.api.is_complete()
    }

    /// The configuration after wiping the stored one: everything unset again.
    pub fn reset() -> (c: Self)
        ensures
            c.api.id is None,
            c.api.secret is None,
            c.api.auth_url is None,
            c.api.token_url is None,
            c.local_port is None,
    {
        Self::new()
    }

    /// A copy where each given field replaces the stored one and each absent
    /// field keeps it.
    pub fn selective_immutable_update(
        &self,
        id: Option<String>,
        secret: Option<String>,
        auth_url: Option<String>,
        token_url: Option<String>,
        local_port: Option<Port>,
    ) -> (r: Configuration)
        ensures
            r.api.id == chosen(id, self.api.id),
            r.api.secret == chosen(secret, self.api.secret),
            r.api.auth_url == chosen(auth_url, self.api.auth_url),
            r.api.token_url == chosen(token_url, self.api.token_url),
            r.local_port == chosen(local_port, self.local_port),
    {
        Configuration {
            api: ApiConfiguration {
                id: match id {
                    Some(v) => Some(v),
                    None => self.api.id.clone(),
                },
                secret: match secret {
                    Some(v) => Some(v),
                    None => self.api.secret.clone(),
                },
                auth_url: match auth_url {
                    Some(v) => Some(v),
                    None => self.api.auth_url.clone(),
                },
                token_url: match token_url {
                    Some(v) => Some(v),
                    None => self.api.token_url.clone(),
                },
            },
            local_port: match local_port {
                Some(p) => Some(p),
                None => self.local_port,
            },
        }
    }

    /// The configuration made of exactly the given fields; the caller
    /// persists it.
    pub fn update_config(
        &self,
        id: Option<String>,
        secret: Option<String>,
        auth_url: Option<String>,
        token_url: Option<String>,
        local_port: Option<Port>,
    ) -> (r: Configuration)
        ensures
            r.api.id == id,
            r.api.secret == secret,
            r.api.auth_url == auth_url,
            r.api.token_url == token_url,
            r.local_port == local_port,
    {
        Configuration {
            api: ApiConfiguration { id, secret, auth_url, token_url },
            local_port,
        }
    }

    /// A copy whose provider-facing fields are exactly the given ones; the
    /// local port is kept.
    pub fn update_api(
        &self,
        id: Option<String>,
        secret: Option<String>,
        auth_url: Option<String>,
        token_url: Option<String>,
    ) -> (r: Configuration)
        ensures
            r.api.id == id,
            r.api.secret == secret,
            r.api.auth_url == auth_url,
            r.api.token_url == token_url,
            r.local_port == self.local_port,
    {
        Configuration {
            api: ApiConfiguration { id, secret, auth_url, token_url },
            local_port: self.local_port,
        }
    }
}

impl ApiConfiguration {
    /// Provider-facing configuration with nothing filled in yet.
    pub fn new() -> (c: Self)
        ensures
            c.id is None,
            c.secret is None,
            c.auth_url is None,
            c.token_url is None,
    {
        Self { id: None, secret: None, auth_url: None, token_url: None }
    }

    /// True when every field is present.
    pub fn is_complete(&self) -> (r: bool)
        ensures
            r == (self.id is Some && self.secret is Some && self.auth_url is Some
                && self.token_url is Some),
    {
        self.id.is_some() && self.secret.is_some() && self.auth_url.is_some()
            && self.token_url.is_some()
    }

    /// True when the string has at least one character.
    pub fn has_length(s: &String) -> (r: bool)
        ensures
            r == (s@.len() > 0),
    {
        has_length(s)
    }

    /// Completes the stored fields from prompted answers: a stored value
    /// wins over an answer, and an empty result counts as absent.
    pub fn fill(
        self,
        id_input: Option<String>,
        secret_input: Option<String>,
        auth_url_input: Option<String>,
        token_url_input: Option<String>,
    ) -> (r: Self)
        ensures
            r.id == spec_fill_field(self.id, id_input),
            r.secret == spec_fill_field(self.secret, secret_input),
            r.auth_url == spec_fill_field(self.auth_url, auth_url_input),
            r.token_url == spec_fill_field(self.token_url, token_url_input),
    {
        Self {
            id: fill_field(self.id, id_input),
            secret: fill_field(self.secret, secret_input),
            auth_url: fill_field(self.auth_url, auth_url_input),
            token_url: fill_field(self.token_url, token_url_input),
        }
    }
}

/// Completes a configuration from prompted answers: stored fields win over
/// answers, empty text counts as absent, and the port is prompted only when
/// unset.
pub fn fill_config(
    configuration: Configuration,
    id_input: Option<String>,
    secret_input: Option<String>,
    auth_url_input: Option<String>,
    token_url_input: Option<String>,
    port_input: Option<Port>,
) -> (r: Configuration)
    ensures
        r.api.id == spec_fill_field(configuration.api.id, id_input),
        r.api.secret == spec_fill_field(configuration.api.secret, secret_input),
        r.api.auth_url == spec_fill_field(configuration.api.auth_url, auth_url_input),
        r.api.token_url == spec_fill_field(configuration.api.token_url, token_url_input),
        r.local_port == chosen(configuration.local_port, port_input),
{
    let local_port = match configuration.local_port {
        Some(p) => Some(p),
        None => port_input,
    };
    Configuration {
        api: configuration.api.fill(id_input, secret_input, auth_url_input, token_url_input),
        local_port,
    }
}

} // verus!
