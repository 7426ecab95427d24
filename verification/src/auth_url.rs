//! The authorization URL: the configured endpoint with the flow's query
//! parameters, every value percent-encoded.

use vstd::prelude::*;
use vstd::string::StringExecFns;

use crate::encode::dec_chars;
use crate::encode::dec_string_u16;
use crate::encode::percent_encode;
use crate::encode::percent_encoded;

verus! {

/// The fixed scope the flow asks for.
pub open spec fn scope_chars() -> Seq<char> {
    "https://www.googleapis.com/auth/gmail.labels"@
}

/// The fixed scope the flow asks for.
pub fn scope_text() -> (r: String)
    ensures
        r@ == scope_chars(),
{
    String::from_str("https://www.googleapis.com/auth/gmail.labels")
}

/// The redirect URI the provider sends the browser back to.
pub open spec fn redirect_uri_chars(port: u16) -> Seq<char> {
    "http://localhost:"@ + dec_chars(port as int)
}

/// Writes the redirect URI for the given local port.
pub fn redirect_uri_text(port: u16) -> (r: String)
    ensures
        r@ == redirect_uri_chars(port),
{
    let mut r = String::from_str("http://localhost:");
    let digits = dec_string_u16(port);
    r.append(digits.as_str());
    r
}

/// The authorization URL, character by character: the endpoint, then the
/// client id, the response type `code`, the redirect URI, the scope, the
/// anti-forgery state, the PKCE challenge, and the challenge method `S256`.
pub open spec fn authorize_url_chars(
    auth_url: Seq<char>,
    client_id: Seq<char>,
    port: u16,
    state: Seq<char>,
    challenge: Seq<char>,
) -> Seq<char> {
    auth_url + "?client_id="@ + percent_encoded(client_id) + "&response_type=code"@
        + "&redirect_uri="@ + percent_encoded(redirect_uri_chars(port)) + "&scope="@
        + percent_encoded(scope_chars()) + "&state="@ + percent_encoded(state)
        + "&code_challenge="@ + percent_encoded(challenge) + "&code_challenge_method=S256"@
}

/// Builds the authorization URL from the endpoint and the parameters.
pub fn build_authorize_url(
    auth_url: &str,
    client_id: &str,
    port: u16,
    state: &str,
    challenge: &str,
) -> (r: String)
    ensures
        r@ == authorize_url_chars(auth_url@, client_id@, port, state@, challenge@),
{
    let mut r = String::from_str(auth_url);
    r.append("?client_id=");
    let piece = percent_encode(client_id);
    r.append(piece.as_str());
    r.append("&response_type=code");
    r.append("&redirect_uri=");
    let uri = redirect_uri_text(port);
    let piece = percent_encode(uri.as_str());
    r.append(piece.as_str());
    r.append("&scope=");
    let scope = scope_text();
    let piece = percent_encode(scope.as_str());
    r.append(piece.as_str());
    r.append("&state=");
    let piece = percent_encode(state);
    r.append(piece.as_str());
    r.append("&code_challenge=");
    let piece = percent_encode(challenge);
    r.append(piece.as_str());
    r.append("&code_challenge_method=S256");
    proof {
        assert(r@ =~= authorize_url_chars(auth_url@, client_id@, port, state@, challenge@));
    }
    r
}

} // verus!
