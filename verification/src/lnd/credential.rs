//! The secret that authenticates the manager to its node.

use crate::lnd::hex::{buffer_as_hex, hex_encode, is_lower_hex_text};
use secrecy::{ExposeSecret, Secret};
use vstd::prelude::*;

verus! {

/// A text held in a `secrecy::Secret`, which wipes it when dropped, prints
/// it redacted, and hands it out only through `expose_secret`.
#[verifier::external_body]
#[derive(Debug)]
pub struct SecretText {
    secret: Secret<String>,
}

/// The text that a secret holds.
pub uninterp spec fn secret_text(secret: SecretText) -> Seq<char>;

impl SecretText {
    /// `Secret::from`: takes ownership of `text`; the secret then holds
    /// exactly that text.
    #[verifier::external_body]
    fn seal(text: String) -> (secret: SecretText)
        ensures
            secret_text(secret) == text@,
    {
        SecretText { secret: Secret::from(text) }
    }

    /// `ExposeSecret::expose_secret`: a reference to the text that the
    /// secret holds.
    #[verifier::external_body]
    fn expose_secret(&self) -> (text: &String)
        ensures
            text@ == secret_text(*self),
    {
        self.secret.expose_secret()
    }
}

/// The credential of one manager: the hex encoding of the bytes of its
/// credential file. It never changes after it is built, and its text is
/// reachable only through [`Credential::expose`].
#[derive(Debug)]
pub struct Credential {
    sealed: SecretText,
}

impl View for Credential {
    type V = Seq<char>;

    closed spec fn view(&self) -> Seq<char> {
        secret_text(self.sealed)
    }
}

impl Credential {
    #[verifier::type_invariant]
    spec fn holds_hex(self) -> bool {
        is_lower_hex_text(secret_text(self.sealed))
    }

    /// The text of the credential. The one place that needs it is the
    /// construction of the authentication header.
    pub fn expose(&self) -> (text: &String)
        ensures
            text@ == self@,
            is_lower_hex_text(self@),
    {
        proof {
            use_type_invariant(self);
        }
        self.sealed.expose_secret()
    }
}

/// Turns the raw contents of a credential file into the secret that goes
/// into the authentication header: the lowercase hex encoding of the bytes.
pub fn build_macaroon(contents: Vec<u8>) -> (macaroon: Credential)
    ensures
        macaroon@ == hex_encode(contents@),
{
    let hex_string = buffer_as_hex(contents);
    Credential { sealed: SecretText::seal(hex_string) }
}

} // verus!
