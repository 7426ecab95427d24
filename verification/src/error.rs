use vstd::prelude::*;
use vstd::string::StringExecFns;

verus! {

/// Every failure the flow can surface to its caller.  Listener-internal
/// trouble (an unreadable stream, a malformed request) is absorbed
/// per-connection and never appears here; everything else funnels into one of
/// these kinds and kills the flow instance that reported it.
#[derive(Debug, Clone)]
pub enum Error {
    /// Binding a privileged local port was refused by the operating system.
    PortPermissionDenied,
    /// A port field could not be read as a port number.
    InvalidPort,
    /// The requested local port is already bound by someone else.
    PortInUse,
    /// The listener stopped before an authorization code was captured,
    /// whether by cancellation, a socket error, or a torn-down stream.
    AuthServerClosedEarly,
    /// The PKCE verifier could not be taken because another exchange attempt
    /// holds it at this moment.
    PkceCodeVerifierLocked,
    /// The PKCE verifier was already consumed by an earlier exchange attempt.
    PkceCodeVerifierMissing,
    /// A cancellation was requested before the listener had a signal channel.
    KillSignalNotInitialized,
    /// An access token was needed before one was obtained.
    MissingToken,
    /// The token endpoint rejected the exchange; the provider's own words are
    /// kept only for display.
    ProviderExchangeFailed(String),
    /// Any other failure, kept as a message for display.
    Unknown(String),
}

/// What a failed socket bind amounts to, stripped down to the distinctions
/// the flow acts on.  The caller that owns the socket classifies the
/// operating-system error into one of these.
#[derive(Debug, Clone, Copy, PartialEq, Eq, Structural)]
pub enum BindErrorKind {
    PermissionDenied,
    AddressInUse,
    Other,
}

impl Error {
    /// The error that a failed bind of the redirect port surfaces as.
    pub fn from_bind_error(kind: BindErrorKind) -> (e: Error)
        ensures
            kind is PermissionDenied ==> e is PortPermissionDenied,
            kind is AddressInUse ==> e is PortInUse,
            kind is Other ==> e is AuthServerClosedEarly,
    {
        match kind {
            BindErrorKind::PermissionDenied => Error::PortPermissionDenied,
            BindErrorKind::AddressInUse => Error::PortInUse,
            BindErrorKind::Other => Error::AuthServerClosedEarly,
        }
    }

    /// The wording shown for each error kind.
    pub open spec fn spec_message(&self) -> Seq<char> {
        match self {
            Error::PortPermissionDenied => "Cannot access low port without admin privileges."@,
            Error::InvalidPort => "Invalid port number."@,
            Error::PortInUse => "Local port is already in use."@,
            Error::AuthServerClosedEarly => "Auth server closed before receiving auth code."@,
            Error::PkceCodeVerifierLocked => "Pkce code verifier is locked."@,
            Error::PkceCodeVerifierMissing => "Pkce code verifier is missing."@,
            Error::KillSignalNotInitialized => "Kill signal not initialized."@,
            Error::MissingToken => "Missing token."@,
            Error::ProviderExchangeFailed(detail) => "Token exchange rejected: "@ + detail@,
            Error::Unknown(detail) => "Unknown error: "@ + detail@,
        }
    }

    /// A displayable description of the error.
    pub fn message(&self) -> (m: String)
        ensures
            m@ == self.spec_message(),
    {
        match self {
            Error::PortPermissionDenied => String::from_str(
                "Cannot access low port without admin privileges.",
            ),
            Error::InvalidPort => String::from_str("Invalid port number."),
            Error::PortInUse => String::from_str("Local port is already in use."),
            Error::AuthServerClosedEarly => String::from_str(
                "Auth server closed before receiving auth code.",
            ),
            Error::PkceCodeVerifierLocked => String::from_str("Pkce code verifier is locked."),
            Error::PkceCodeVerifierMissing => String::from_str("Pkce code verifier is missing."),
            Error::KillSignalNotInitialized => String::from_str("Kill signal not initialized."),
            Error::MissingToken => String::from_str("Missing token."),
            Error::ProviderExchangeFailed(detail) => String::from_str(
                "Token exchange rejected: ",
            ).concat(detail.as_str()),
            Error::Unknown(detail) => String::from_str("Unknown error: ").concat(detail.as_str()),
        }
    }
}

} // verus!
