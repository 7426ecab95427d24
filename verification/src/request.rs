//! The flow orchestrator: one OAuth attempt from the freshly built
//! authorization URL to an access token, a cancellation, or a failure.
//!
//! The orchestrator owns every decision of the lifecycle; the caller performs
//! the outside work around it — spawning the listener, sending the real
//! cancellation signal, and carrying the token request over the network — and
//! hands each outcome back in as a plain value.

use vstd::prelude::*;
use vstd::string::StringExecFns;

use crate::auth_url::authorize_url_chars;
use crate::auth_url::build_authorize_url;
use crate::auth_url::redirect_uri_chars;
use crate::auth_url::redirect_uri_text;
use crate::configuration::Configuration;
use crate::error::Error;
use crate::pkce::new_csrf_token;
use crate::pkce::new_pkce_pair;
use crate::pkce::pkce_challenge_of;
use crate::pkce::PkceVerifierCell;

verus! {

/// Where one flow attempt stands.  `Cancelled` and `Failed` are terminal:
/// a new attempt means a new flow with a fresh PKCE pair.
#[derive(Debug, Clone, Copy, PartialEq, Eq, Structural)]
pub enum FlowState {
    Created,
    AwaitingRedirect,
    ExchangingToken,
    Authorized,
    Cancelled,
    Failed,
}

/// The code-for-token exchange, assembled and ready for the transport:
/// a POST to `token_url` with grant type `authorization_code`, these
/// parameters, and client authentication.
#[derive(Debug)]
pub struct TokenExchangeRequest {
    pub token_url: String,
    pub code: String,
    pub code_verifier: String,
    pub redirect_uri: String,
    pub client_id: String,
    pub client_secret: Option<String>,
}

/// One flow attempt: the authorization URL it shows, the single-use verifier
/// it guards, and the state it moves through.
#[derive(Debug)]
pub struct GmailLabelRequest {
    /// The authorization URL the user is sent to.
    pub oauth_auth_url: String,
    /// The PKCE verifier, held until the exchange consumes it.
    pub pkce_verifier: PkceVerifierCell,
    /// The access token, present once the flow is authorized.
    pub token: Option<String>,
    state: FlowState,
    kill_signal_armed: bool,
    cancel_requested: bool,
    captured_code: Option<String>,
    csrf_state: String,
    client_id: String,
    client_secret: Option<String>,
    token_url: Option<String>,
    local_port: u16,
}

/// The local port a configuration amounts to: the configured one, or 8080
/// when unset.
pub open spec fn configured_port(config: &Configuration) -> u16 {
    match config.local_port {
        Some(p) => p.spec_u16(),
        None => 8080,
    }
}

/// True when the fields that identify the flow attempt — its URL, secrets,
/// endpoints and port — are the same in both.
pub open spec fn same_flow_identity(a: &GmailLabelRequest, b: &GmailLabelRequest) -> bool {
    &&& a.spec_auth_url() == b.spec_auth_url()
    &&& a.spec_csrf() == b.spec_csrf()
    &&& a.spec_client_id() == b.spec_client_id()
    &&& a.spec_client_secret() == b.spec_client_secret()
    &&& a.spec_token_url() == b.spec_token_url()
    &&& a.spec_port() == b.spec_port()
    &&& a.spec_kill_armed() == b.spec_kill_armed()
}

impl GmailLabelRequest {
    /// Where the flow stands.
    pub closed spec fn spec_state(&self) -> FlowState {
        self.state
    }

    /// The characters of the authorization URL.
    pub closed spec fn spec_auth_url(&self) -> Seq<char> {
        self.oauth_auth_url@
    }

    /// The access token, present once the flow is authorized.
    pub closed spec fn spec_token(&self) -> Option<String> {
        self.token
    }

    /// True while the PKCE verifier has not been consumed.
    pub closed spec fn spec_verifier_held(&self) -> bool {
        self.pkce_verifier.holds_verifier()
    }

    /// The PKCE verifier the flow was built with.
    pub closed spec fn spec_verifier_chars(&self) -> Seq<char> {
        self.pkce_verifier.verifier_chars()
    }

    /// True when a cancellation was requested while the listener ran.
    pub closed spec fn spec_cancel_requested(&self) -> bool {
        self.cancel_requested
    }

    /// True once the listener and its cancellation channel exist.
    pub closed spec fn spec_kill_armed(&self) -> bool {
        self.kill_signal_armed
    }

    /// The anti-forgery token carried in the authorization URL.
    pub closed spec fn spec_csrf(&self) -> Seq<char> {
        self.csrf_state@
    }

    /// The client identifier the flow runs under.
    pub closed spec fn spec_client_id(&self) -> Seq<char> {
        self.client_id@
    }

    /// The client secret, when the client is confidential.
    pub closed spec fn spec_client_secret(&self) -> Option<String> {
        self.client_secret
    }

    /// The token endpoint, when one is configured.
    pub closed spec fn spec_token_url(&self) -> Option<String> {
        self.token_url
    }

    /// The local redirect port.
    pub closed spec fn spec_port(&self) -> u16 {
        self.local_port
    }

    /// The captured authorization code, once the listener has delivered one.
    pub closed spec fn spec_captured_code(&self) -> Option<String> {
        self.captured_code
    }

    /// Where the flow stands.
    pub fn state(&self) -> (s: FlowState)
        ensures
            s == self.spec_state(),
    {
        self.state
    }

    /// Starts a flow attempt: checks the credentials, draws a fresh PKCE
    /// pair and anti-forgery token, and builds the authorization URL.  Every
    /// call draws fresh secrets; nothing is ever reused.
    pub fn new(config: &Configuration) -> (r: Result<GmailLabelRequest, Error>)
        ensures
            config.api.id is None ==> (r matches Err(e) && e matches Error::Unknown(m) && m@
                == "Missing client id"@),
            config.api.id is Some && config.api.auth_url is None ==> (r matches Err(e)
                && e matches Error::Unknown(m) && m@ == "Missing auth url"@),
            config.api.id is Some && config.api.auth_url is Some ==> (r matches Ok(g) && {
                &&& g.spec_state() is Created
                &&& g.spec_token() is None
                &&& !g.spec_cancel_requested()
                &&& !g.spec_kill_armed()
                &&& g.spec_captured_code() is None
                &&& g.spec_verifier_held()
                &&& g.spec_client_id() == config.api.id->0@
                &&& g.spec_client_secret() == config.api.secret
                &&& g.spec_token_url() == config.api.token_url
                &&& g.spec_port() == configured_port(config)
                &&& g.spec_auth_url() == authorize_url_chars(
                    config.api.auth_url->0@,
                    config.api.id->0@,
                    configured_port(config),
                    g.spec_csrf(),
                    pkce_challenge_of(g.spec_verifier_chars()),
                )
            }),
    {
        let id = match &config.api.id {
            Some(v) => v.clone(),
            None => {
                return Err(Error::Unknown(String::from_str("Missing client id")));
            },
        };
        let auth_url = match &config.api.auth_url {
            Some(v) => v.clone(),
            None => {
                return Err(Error::Unknown(String::from_str("Missing auth url")));
            },
        };
        let port = match config.local_port {
            Some(p) => p.as_u16(),
            None => 8080,
        };
        let (code_verifier, challenge) = new_pkce_pair();
        let csrf = new_csrf_token();
        let url = build_authorize_url(
            auth_url.as_str(),
            id.as_str(),
            port,
            csrf.as_str(),
            challenge.as_str(),
        );
        let secret = match &config.api.secret {
            Some(s) => Some(s.clone()),
            None => None,
        };
        let token_url = match &config.api.token_url {
            Some(s) => Some(s.clone()),
            None => None,
        };
        Ok(
            GmailLabelRequest {
                oauth_auth_url: url,
                pkce_verifier: PkceVerifierCell::new(code_verifier),
                token: None,
                state: FlowState::Created,
                kill_signal_armed: false,
                cancel_requested: false,
                captured_code: None,
                csrf_state: csrf,
                client_id: id,
                client_secret: secret,
                token_url,
                local_port: port,
            },
        )
    }

    /// Moves the flow to awaiting the redirect.  The caller spawns the real
    /// listener and its cancellation channel; this records that both exist.
    pub fn oauth2_token_receiver(&mut self)
        requires
            old(self).spec_state() is Created,
        ensures
            final (self).spec_state() is AwaitingRedirect,
            final (self).spec_kill_armed(),
            final (self).spec_auth_url() == old(self).spec_auth_url(),
            final (self).spec_verifier_held() == old(self).spec_verifier_held(),
            final (self).spec_verifier_chars() == old(self).spec_verifier_chars(),
            final (self).spec_token() == old(self).spec_token(),
            final (self).spec_cancel_requested() == old(self).spec_cancel_requested(),
            final (self).spec_captured_code() == old(self).spec_captured_code(),
            final (self).spec_csrf() == old(self).spec_csrf(),
            final (self).spec_client_id() == old(self).spec_client_id(),
            final (self).spec_client_secret() == old(self).spec_client_secret(),
            final (self).spec_token_url() == old(self).spec_token_url(),
            final (self).spec_port() == old(self).spec_port(),
    {
        self.state = FlowState::AwaitingRedirect;
        self.kill_signal_armed = true;
    }

    /// Requests cancellation.  While the listener runs it marks the pending
    /// signal the listener will see on its next empty poll; anywhere else it
    /// is a no-op.  Signalling twice, or after the listener is gone, is
    /// harmless and never an error.
    pub fn kill(&mut self) -> (r: Result<(), Error>)
        ensures
            r is Ok,
            same_flow_identity(old(self), final (self)),
            final (self).spec_state() == old(self).spec_state(),
            final (self).spec_token() == old(self).spec_token(),
            final (self).spec_verifier_held() == old(self).spec_verifier_held(),
            final (self).spec_verifier_chars() == old(self).spec_verifier_chars(),
            final (self).spec_captured_code() == old(self).spec_captured_code(),
            final (self).spec_cancel_requested() == (old(self).spec_cancel_requested()
                || (old(self).spec_state() is AwaitingRedirect && old(self).spec_kill_armed())),
    {
        if self.kill_signal_armed && self.state == FlowState::AwaitingRedirect {
            self.cancel_requested = true;
        }
        Ok(())
    }

    /// Consumes the listener's one outcome.  A code moves the flow to the
    /// exchange; a failure ends it — as `Cancelled` when cancellation had
    /// been requested, as `Failed` otherwise — and is passed back out.
    pub fn on_listener_outcome(&mut self, outcome: Result<String, Error>) -> (r: Result<
        (),
        Error,
    >)
        requires
            old(self).spec_state() is AwaitingRedirect,
        ensures
            same_flow_identity(old(self), final (self)),
            final (self).spec_verifier_held() == old(self).spec_verifier_held(),
            final (self).spec_verifier_chars() == old(self).spec_verifier_chars(),
            final (self).spec_token() == old(self).spec_token(),
            final (self).spec_cancel_requested() == old(self).spec_cancel_requested(),
            outcome matches Ok(code) ==> {
                &&& final (self).spec_state() is ExchangingToken
                &&& final (self).spec_captured_code() == Some(code)
                &&& r is Ok
            },
            outcome matches Err(e) ==> {
                &&& final (self).spec_captured_code() == old(self).spec_captured_code()
                &&& (old(self).spec_cancel_requested() ==> final (self).spec_state() is Cancelled)
                &&& (!old(self).spec_cancel_requested() ==> final (self).spec_state() is Failed)
                &&& r matches Err(e2) && e2 == e
            },
    {
        match outcome {
            Ok(code) => {
                self.captured_code = Some(code);
                self.state = FlowState::ExchangingToken;
                Ok(())
            },
            Err(e) => {
                if self.cancel_requested {
                    self.state = FlowState::Cancelled;
                } else {
                    self.state = FlowState::Failed;
                }
                Err(e)
            },
        }
    }

    /// Starts the exchange: moves the single-use verifier out and assembles
    /// the token request for the transport.  The verifier is consumed
    /// whatever happens; a missing verifier or token endpoint kills the flow
    /// on the spot.
    pub fn begin_token_exchange(&mut self) -> (r: Result<TokenExchangeRequest, Error>)
        requires
            old(self).spec_state() is ExchangingToken,
            old(self).spec_captured_code() is Some,
        ensures
            same_flow_identity(old(self), final (self)),
            !final (self).spec_verifier_held(),
            final (self).spec_token() == old(self).spec_token(),
            final (self).spec_captured_code() == old(self).spec_captured_code(),
            final (self).spec_cancel_requested() == old(self).spec_cancel_requested(),
            !old(self).spec_verifier_held() ==> (r matches Err(e)
                && e is PkceCodeVerifierMissing && final (self).spec_state() is Failed),
            old(self).spec_verifier_held() && old(self).spec_token_url() is None
                ==> (r matches Err(e) && e matches Error::Unknown(m) && m@ == "Missing token url"@
                && final (self).spec_state() is Failed),
            old(self).spec_verifier_held() && old(self).spec_token_url() is Some
                ==> (r matches Ok(req) && {
                &&& final (self).spec_state() is ExchangingToken
                &&& req.token_url@ == old(self).spec_token_url()->0@
                &&& req.code == old(self).spec_captured_code()->0
                &&& req.code_verifier@ == old(self).spec_verifier_chars()
                &&& req.redirect_uri@ == redirect_uri_chars(old(self).spec_port())
                &&& req.client_id@ == old(self).spec_client_id()
                &&& req.client_secret == old(self).spec_client_secret()
            }),
    {
        let taken_verifier = match self.pkce_verifier.take() {
            Ok(v) => v,
            Err(e) => {
                self.state = FlowState::Failed;
                return Err(e);
            },
        };
        let token_url = match &self.token_url {
            Some(u) => u.clone(),
            None => {
                self.state = FlowState::Failed;
                return Err(Error::Unknown(String::from_str("Missing token url")));
            },
        };
        let code = match &self.captured_code {
            Some(c) => c.clone(),
            None => {
                self.state = FlowState::Failed;
                return Err(Error::MissingToken);
            },
        };
        let secret = match &self.client_secret {
            Some(s) => Some(s.clone()),
            None => None,
        };
        Ok(
            TokenExchangeRequest {
                token_url,
                code,
                code_verifier: taken_verifier,
                redirect_uri: redirect_uri_text(self.local_port),
                client_id: self.client_id.clone(),
                client_secret: secret,
            },
        )
    }

    /// Finishes the exchange with the transport's outcome: a token
    /// authorizes the flow, a failure kills it and is passed back out.
    pub fn complete_token_exchange(&mut self, outcome: Result<String, Error>) -> (r: Result<
        (),
        Error,
    >)
        requires
            old(self).spec_state() is ExchangingToken,
        ensures
            same_flow_identity(old(self), final (self)),
            final (self).spec_verifier_held() == old(self).spec_verifier_held(),
            final (self).spec_verifier_chars() == old(self).spec_verifier_chars(),
            final (self).spec_captured_code() == old(self).spec_captured_code(),
            final (self).spec_cancel_requested() == old(self).spec_cancel_requested(),
            outcome matches Ok(token) ==> {
                &&& final (self).spec_state() is Authorized
                &&& final (self).spec_token() == Some(token)
                &&& r is Ok
            },
            outcome matches Err(e) ==> {
                &&& final (self).spec_state() is Failed
                &&& final (self).spec_token() == old(self).spec_token()
                &&& r matches Err(e2) && e2 == e
            },
    {
        match outcome {
            Ok(token) => {
                self.token = Some(token);
                self.state = FlowState::Authorized;
                Ok(())
            },
            Err(e) => {
                self.state = FlowState::Failed;
                Err(e)
            },
        }
    }

    /// The token the resource requests authenticate with; asking before the
    /// flow is authorized reports the token missing.
    pub fn bearer_token(&self) -> (r: Result<String, Error>)
        ensures
            self.spec_token() matches Some(t) ==> (r matches Ok(v) && v == t),
            self.spec_token() is None ==> (r matches Err(e) && e is MissingToken),
    {
        match &self.token {
            Some(t) => Ok(t.clone()),
            None => Err(Error::MissingToken),
        }
    }
}

} // verus!
