//! Plaintext secrets that cannot be printed, compared or serialised by accident.

use secrecy::ExposeSecret;
use secrecy::Secret;
use vstd::prelude::*;

verus! {

/// A plaintext secret, held only long enough to hash or verify it.
///
/// The text lives in a `secrecy::Secret`, which wipes it when the value is
/// dropped and keeps it out of `Debug` output. The type offers no conversion,
/// printing or serialisation.
#[verifier::external_body]
pub struct PendingSecret {
    inner: Secret<String>,
}

/// The text that a secret holds.
pub uninterp spec fn secret_text(s: PendingSecret) -> Seq<char>;

impl View for PendingSecret {
    type V = Seq<char>;

    open spec fn view(&self) -> Seq<char> {
        secret_text(*self)
    }
}

/// `Secret::new`: stores its argument unchanged.
#[verifier::external_body]
fn seal(text: String) -> (s: PendingSecret)
    ensures
        secret_text(s) == text@,
{
    PendingSecret { inner: Secret::new(text) }
}

/// `ExposeSecret::expose_secret`: a reference to what `Secret::new` stored.
#[verifier::external_body]
fn unseal(s: &PendingSecret) -> (text: &String)
    ensures
        text@ == secret_text(*s),
{
    s.inner.expose_secret()
}

impl PendingSecret {
    /// Takes ownership of a plaintext secret.
    pub fn new(text: String) -> (s: Self)
        ensures
            s@ == text@,
    {
        seal(text)
    }

    /// The plaintext, for the one purpose of hashing or verifying it.
    pub fn expose(&self) -> (text: &str)
        ensures
            text@ == self@,
    {
        unseal(self).as_str()
    }
}

} // verus!
