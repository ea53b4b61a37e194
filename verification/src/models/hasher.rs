//! Memory-hard hashing of secrets, and verification against a stored hash.

use crate::models::credentials::{AuthError, Fault};
use crate::models::secret::PendingSecret;
use argon2::password_hash::{PasswordHash, PasswordHasher, PasswordVerifier, SaltString};
use crate::text::{decimal, lemma_decimal_nonempty};
use argon2::{Algorithm, Argon2, Params, Version};
use vstd::prelude::*;
use vstd::string::StringExecFns;

verus! {

/// `password_hash::Error`: why hashing failed.
#[verifier::external_type_specification]
#[verifier::external_body]
pub struct ExHashError(argon2::password_hash::Error);

/// Smallest memory cost, in KiB, that the algorithm accepts.
pub const MIN_MEMORY_COST: u32 = 8;

/// Largest memory cost, in KiB, that the algorithm accepts.
pub const MAX_MEMORY_COST: u32 = 0x0FFF_FFFF;

/// Largest degree of parallelism that the algorithm accepts.
pub const MAX_PARALLELISM: u32 = 0x00FF_FFFF;

/// The longest secret, in characters, that is hashed whatever it holds: its
/// text is then at most the 0xFFFF_FFFF bytes that the algorithm takes.
pub const MAX_SECRET_CHARS: usize = 0x3FFF_FFFF;

/// The number of characters that name the salt of a hash: 16 bytes in
/// base64.
pub const SALT_CHARS: usize = 22;

/// The number of characters that name the digest of a hash: 32 bytes in
/// base64.
pub const DIGEST_CHARS: usize = 43;

/// The cost parameters that the algorithm accepts: each within its range, and
/// at least 8 KiB of memory for each lane.
pub open spec fn cost_params_valid(memory_cost: u32, time_cost: u32, parallelism: u32) -> bool {
    &&& MIN_MEMORY_COST <= memory_cost <= MAX_MEMORY_COST
    &&& 1 <= time_cost
    &&& 1 <= parallelism <= MAX_PARALLELISM
    &&& 8 * parallelism <= memory_cost
}

/// How a hash begins: the algorithm, its version, and the cost parameters in
/// decimal, each field led by a dollar sign, and the dollar sign that leads
/// the salt.
pub open spec fn phc_prefix(memory_cost: u32, time_cost: u32, parallelism: u32) -> Seq<char> {
    "$argon2id$v=19$m="@ + decimal(memory_cost as nat) + ",t="@ + decimal(time_cost as nat)
        + ",p="@ + decimal(parallelism as nat) + "$"@
}

/// Whether the character is one of the 64 that base64 writes bytes with.
pub open spec fn is_base64_char(c: char) -> bool {
    ||| 'A' <= c <= 'Z'
    ||| 'a' <= c <= 'z'
    ||| '0' <= c <= '9'
    ||| c == '+'
    ||| c == '/'
}

/// Whether the text has the form of a hash computed under the given cost
/// parameters: the prefix that names them, a salt, a dollar sign and a
/// digest, salt and digest in base64.
pub open spec fn has_phc_form(
    text: Seq<char>,
    memory_cost: u32,
    time_cost: u32,
    parallelism: u32,
) -> bool {
    let prefix = phc_prefix(memory_cost, time_cost, parallelism);
    &&& text.len() == prefix.len() + SALT_CHARS + 1 + DIGEST_CHARS
    &&& text.subrange(0, prefix.len() as int) == prefix
    &&& text[prefix.len() + SALT_CHARS] == '$'
    &&& forall|i: int|
        prefix.len() <= i < text.len() && i != prefix.len() + SALT_CHARS ==> is_base64_char(
            #[trigger] text[i],
        )
}

/// What verifying a candidate secret against a stored text comes to. There is
/// no verdict where the stored text does not parse as a PHC string. Where it
/// does, the verdict is whether recomputing the hash of the candidate with
/// the algorithm, version, cost parameters and salt that the text names gives
/// the digest that it holds.
pub uninterp spec fn phc_verdict(stored: Seq<char>, candidate: Seq<char>) -> Option<bool>;

/// Whether a stored hash accepts a candidate secret. A stored text that is no
/// hash accepts nothing.
pub open spec fn phc_matches(stored: Seq<char>, candidate: Seq<char>) -> bool {
    phc_verdict(stored, candidate) == Some(true)
}

/// `PasswordHasher::hash_password` of an Argon2id context, version 0x13, made
/// by `Argon2::new` from the `Params::new` of the three costs, with a salt
/// fresh from `SaltString::generate`; the hash is handed back as its text.
///
/// The call refuses nothing but a secret of more than 0xFFFF_FFFF bytes. The
/// salt is random, so of the text only its form is said: it names algorithm,
/// version and the three costs, then 16 bytes of salt and 32 bytes of digest.
/// Verifying reads all of those back out of the text, so the text accepts the
/// secret it was made from. The working memory is allocated at the call: of a
/// machine that cannot provide it, or has no source of randomness, no clause
/// speaks.
#[verifier::external_body]
fn argon2id_hash(secret: &str, memory_cost: u32, time_cost: u32, parallelism: u32) -> (r: Result<
    String,
    argon2::password_hash::Error,
>)
    requires
        cost_params_valid(memory_cost, time_cost, parallelism),
    ensures
        secret@.len() <= MAX_SECRET_CHARS ==> r is Ok,
        r matches Ok(phc) ==> phc_verdict(phc@, secret@) == Some(true) && has_phc_form(
            phc@,
            memory_cost,
            time_cost,
            parallelism,
        ),
{
    let params = Params::new(memory_cost, time_cost, parallelism, None)?;
    let salt = SaltString::generate(&mut rand::thread_rng());
    let context = Argon2::new(Algorithm::Argon2id, Version::V0x13, params);
    Ok(context.hash_password(secret.as_bytes(), &salt)?.to_string())
}

/// `PasswordHash::new` on the stored text, then
/// `PasswordVerifier::verify_password` of the default Argon2 context on what
/// it parsed: nothing where the text does not parse, else whether the
/// verification succeeded.
#[verifier::external_body]
fn argon2_verify(stored: &str, candidate: &str) -> (verdict: Option<bool>)
    ensures
        verdict == phc_verdict(stored@, candidate@),
{
    match PasswordHash::new(stored) {
        Ok(parsed) => Some(
            Argon2::default().verify_password(candidate.as_bytes(), &parsed).is_ok(),
        ),
        Err(_) => None,
    }
}

/// Cost parameters of the hashing function.
#[derive(Clone, Copy, Debug, PartialEq, Eq, Structural)]
pub struct HashParams {
    /// Memory, in KiB.
    pub memory_cost: u32,
    /// Number of passes.
    pub time_cost: u32,
    /// Number of lanes.
    pub parallelism: u32,
}

impl HashParams {
    /// Whether the algorithm accepts these parameters.
    pub open spec fn valid(&self) -> bool {
        cost_params_valid(self.memory_cost, self.time_cost, self.parallelism)
    }

    /// Whether the text is a hash of the secret under these parameters: it
    /// has the form of one, names these parameters, and accepts the secret.
    pub open spec fn hashed(&self, hash: Seq<char>, secret: Seq<char>) -> bool {
        &&& has_phc_form(hash, self.memory_cost, self.time_cost, self.parallelism)
        &&& phc_matches(hash, secret)
    }

    /// The parameters as given; `is_valid` tells whether they can be used.
    pub fn new(memory_cost: u32, time_cost: u32, parallelism: u32) -> (p: Self)
        ensures
            p == (HashParams { memory_cost, time_cost, parallelism }),
    {
        HashParams { memory_cost, time_cost, parallelism }
    }

    /// Whether the algorithm accepts these parameters.
    pub fn is_valid(&self) -> (b: bool)
        ensures
            b == self.valid(),
    {
        MIN_MEMORY_COST <= self.memory_cost && self.memory_cost <= MAX_MEMORY_COST
            && 1 <= self.time_cost && 1 <= self.parallelism && self.parallelism <= MAX_PARALLELISM
            && 8 * self.parallelism <= self.memory_cost
    }
}

impl Default for HashParams {
    /// 15000 KiB of memory, two passes, one lane.
    fn default() -> (p: Self)
        ensures
            p == (HashParams { memory_cost: 15000, time_cost: 2, parallelism: 1 }),
            p.valid(),
    {
        HashParams { memory_cost: 15000, time_cost: 2, parallelism: 1 }
    }
}

/// A stored hash: a self-describing string that names algorithm, version, cost
/// parameters, salt and digest. It is never the plaintext, and has no `Debug`.
pub struct HashString {
    phc: String,
}

impl View for HashString {
    type V = Seq<char>;

    closed spec fn view(&self) -> Seq<char> {
        self.phc@
    }
}

impl HashString {
    /// A hash read back from where it was stored.
    pub fn new(phc: String) -> (h: Self)
        ensures
            h@ == phc@,
    {
        HashString { phc }
    }

    /// A hash given as text.
    pub fn from_str(phc: &str) -> (h: Self)
        ensures
            h@ == phc@,
    {
        HashString { phc: String::from_str(phc) }
    }

    /// The text to store.
    pub fn as_str(&self) -> (phc: &str)
        ensures
            phc@ == self@,
    {
        self.phc.as_str()
    }

    /// A second copy of the hash.
    pub fn duplicate(&self) -> (h: Self)
        ensures
            h@ == self@,
    {
        HashString { phc: self.phc.clone() }
    }
}

/// Computes and verifies hashes with cost parameters fixed when it is made.
#[derive(Clone, Copy, Debug, PartialEq, Eq, Structural)]
pub struct SecretHasher {
    /// The cost parameters of every hash this hasher computes.
    pub params: HashParams,
}

impl SecretHasher {
    /// A hasher with the given cost parameters.
    pub fn new(params: HashParams) -> (h: Self)
        ensures
            h.params == params,
    {
        SecretHasher { params }
    }

    /// Hashes a secret with a fresh random salt.
    ///
    /// Parameters that the algorithm does not accept are a configuration
    /// fault. With accepted parameters every secret of at most
    /// `MAX_SECRET_CHARS` characters is hashed; a longer one is hashed or is
    /// a fault of the hashing. The hash names these parameters and accepts
    /// the secret.
    pub fn compute_password_hash(&self, password: &PendingSecret) -> (r: Result<
        HashString,
        AuthError,
    >)
        ensures
            !self.params.valid() ==> r == Err::<HashString, AuthError>(
                AuthError::UnexpectedError(Fault::Configuration),
            ),
            self.params.valid() && password@.len() <= MAX_SECRET_CHARS ==> r is Ok,
            self.params.valid() ==> match r {
                Ok(hash) => self.params.hashed(hash@, password@),
                Err(e) => e == AuthError::UnexpectedError(Fault::Hashing),
            },
    {
        if !self.params.is_valid() {
            return Err(AuthError::UnexpectedError(Fault::Configuration));
        }
        match argon2id_hash(
            password.expose(),
            self.params.memory_cost,
            self.params.time_cost,
            self.params.parallelism,
        ) {
            Ok(phc) => Ok(HashString::new(phc)),
            Err(_) => Err(AuthError::UnexpectedError(Fault::Hashing)),
        }
    }

    /// Whether the stored hash accepts the candidate. A stored text that is no
    /// hash at all accepts nothing: the caller cannot tell it from a wrong
    /// secret.
    pub fn verify_password_hash(
        expected_password_hash: &HashString,
        password_candidate: &PendingSecret,
    ) -> (ok: bool)
        ensures
            ok == phc_matches(expected_password_hash@, password_candidate@),
    {
        match argon2_verify(expected_password_hash.as_str(), password_candidate.expose()) {
            Some(verified) => verified,
            None => false,
        }
    }
}

/// A text of the form of a hash is at least 93 characters long and begins
/// with a dollar sign, so it differs from every secret that is shorter or
/// begins otherwise.
pub proof fn lemma_hash_differs_from_plaintext(
    hash: Seq<char>,
    memory_cost: u32,
    time_cost: u32,
    parallelism: u32,
    secret: Seq<char>,
)
    requires
        has_phc_form(hash, memory_cost, time_cost, parallelism),
        secret.len() < 93 || secret[0] != '$',
    ensures
        hash.len() >= 93,
        hash[0] == '$',
        hash != secret,
{
    reveal_strlit("$argon2id$v=19$m=");
    reveal_strlit(",t=");
    reveal_strlit(",p=");
    reveal_strlit("$");
    lemma_decimal_nonempty(memory_cost as nat);
    lemma_decimal_nonempty(time_cost as nat);
    lemma_decimal_nonempty(parallelism as nat);
    let prefix = phc_prefix(memory_cost, time_cost, parallelism);
    assert(prefix.len() >= 27);
    assert(prefix[0] == '$');
    assert(hash.subrange(0, prefix.len() as int)[0] == hash[0]);
}

/// Hashing a secret and then verifying the same secret against the hash
/// succeeds: whatever hash `compute_password_hash` hands out for a secret,
/// `verify_password_hash` accepts that secret against it.
pub proof fn lemma_hash_then_verify(
    hasher: SecretHasher,
    secret: PendingSecret,
    hash: HashString,
    verified: bool,
)
    requires
        call_ensures(
            SecretHasher::compute_password_hash,
            (&hasher, &secret),
            Ok::<HashString, AuthError>(hash),
        ),
        call_ensures(SecretHasher::verify_password_hash, (&hash, &secret), verified),
    ensures
        verified,
{
}

} // verus!