//! The PKCE secrets: the random verifier/challenge pair, the random
//! anti-forgery token, and the single-use container that guards the verifier
//! between building the authorization URL and exchanging the code.

use vstd::prelude::*;

use crate::error::Error;

verus! {

/// What the PKCE S256 transform (SHA-256, then base64url without padding)
/// makes of a verifier.  The library never recomputes it: it calls the
/// oauth2 crate and reasons through this name.
pub uninterp spec fn pkce_challenge_of(code_verifier: Seq<char>) -> Seq<char>;

/// Relies on `oauth2::PkceCodeChallenge::new_random_sha256`: the verifier is
/// the base64url writing of 32 fresh random bytes (43 characters), and the
/// challenge is the S256 transform of exactly that verifier (a 32-byte
/// digest, 43 characters once encoded).
#[verifier::external_body]
pub(crate) fn new_pkce_pair() -> (r: (String, String))
    ensures
        r.1@ == pkce_challenge_of(r.0@),
        r.0@.len() == 43,
        r.1@.len() == 43,
{
    let (challenge, code_verifier) = oauth2::PkceCodeChallenge::new_random_sha256();
    (code_verifier.secret().clone(), challenge.as_str().to_string())
}

/// Relies on `oauth2::CsrfToken::new_random`: a fresh random 128-bit token,
/// written as 22 base64url characters.  Nothing relates two draws.
#[verifier::external_body]
pub(crate) fn new_csrf_token() -> (r: String)
    ensures
        r@.len() == 22,
{
    oauth2::CsrfToken::new_random().secret().clone()
}

/// The take-once container for the PKCE verifier.  The verifier must survive
/// from URL-build time to exchange time and then be consumed exactly once: a
/// second take is a reportable error, never a silent reuse.
#[derive(Debug)]
pub struct PkceVerifierCell {
    value: Option<String>,
}

impl PkceVerifierCell {
    /// True while the verifier has not been consumed.
    pub closed spec fn holds_verifier(&self) -> bool {
        self.value is Some
    }

    /// The verifier the cell was filled with.
    pub closed spec fn verifier_chars(&self) -> Seq<char> {
        self.value->0@
    }

    /// A cell holding a fresh verifier.
    pub fn new(code_verifier: String) -> (c: Self)
        ensures
            c.holds_verifier(),
            c.verifier_chars() == code_verifier@,
    {
        PkceVerifierCell { value: Some(code_verifier) }
    }

    /// True while the verifier has not been consumed.
    pub fn is_held(&self) -> (b: bool)
        ensures
            b == self.holds_verifier(),
    {
        self.value.is_some()
    }

    /// Moves the verifier out.  The first take gets it and empties the cell;
    /// every later take reports the verifier missing.
    pub fn take(&mut self) -> (r: Result<String, Error>)
        ensures
            !final (self).holds_verifier(),
            old(self).holds_verifier() ==> (r matches Ok(v) && v@ == old(self).verifier_chars()),
            !old(self).holds_verifier() ==> (r matches Err(e) && e is PkceCodeVerifierMissing),
    {
        match self.value.take() {
            Some(v) => Ok(v),
            None => Err(Error::PkceCodeVerifierMissing),
        }
    }
}

/// Whether a take from a cell in the given state succeeds.
pub open spec fn take_succeeds(holds_verifier: bool) -> bool {
    holds_verifier
}

/// Whether the cell still holds the verifier after a take.
pub open spec fn holds_after_take(holds_verifier: bool) -> bool {
    false
}

/// The verifier is single-use: on a full cell the first take succeeds, and a
/// second take on the same cell must fail, because no take leaves the
/// verifier behind.
pub proof fn lemma_verifier_single_use(c: PkceVerifierCell)
    requires
        c.holds_verifier(),
    ensures
        take_succeeds(c.holds_verifier()),
        !take_succeeds(holds_after_take(c.holds_verifier())),
{
}

} // verus!
