use argon2::password_hash::PasswordHash;
use shooting_star::models::hasher::{
    HashParams, HashString, SecretHasher, DIGEST_CHARS, MAX_MEMORY_COST, MAX_PARALLELISM,
    MAX_SECRET_CHARS, MIN_MEMORY_COST, SALT_CHARS,
};
use shooting_star::models::secret::PendingSecret;
use shooting_star::models::credentials::{AuthError, Fault};
use shooting_star::models::validator::DUMMY_HASH;

fn secret(text: &str) -> PendingSecret {
    PendingSecret::new(text.to_string())
}

fn cheap() -> SecretHasher {
    SecretHasher::new(HashParams::new(8, 1, 1))
}

#[test]
fn default_cost_parameters() {
    let params = HashParams::default();
    assert_eq!(params.memory_cost, 15000);
    assert_eq!(params.time_cost, 2);
    assert_eq!(params.parallelism, 1);
    assert!(params.is_valid());
}

#[test]
fn cost_parameters_at_the_edges() {
    assert!(HashParams::new(MIN_MEMORY_COST, 1, 1).is_valid());
    assert!(!HashParams::new(MIN_MEMORY_COST - 1, 1, 1).is_valid());
    assert!(HashParams::new(MAX_MEMORY_COST, 1, 1).is_valid());
    assert!(!HashParams::new(MAX_MEMORY_COST + 1, 1, 1).is_valid());
    assert!(!HashParams::new(15000, 0, 1).is_valid());
    assert!(HashParams::new(15000, u32::MAX, 1).is_valid());
    assert!(!HashParams::new(15000, 2, 0).is_valid());
    assert!(HashParams::new(16, 1, 2).is_valid());
    assert!(!HashParams::new(15, 1, 2).is_valid());
    assert!(!HashParams::new(MAX_MEMORY_COST, 1, MAX_PARALLELISM + 1).is_valid());
    assert!(HashParams::new(MAX_MEMORY_COST, 1, MAX_PARALLELISM).is_valid());
}

#[test]
fn is_valid_agrees_with_the_hashing_function() {
    let cases = [(8, 1, 1), (7, 1, 1), (15000, 0, 1), (15000, 2, 0), (15, 1, 2), (16, 1, 2)];
    for (m, t, p) in cases {
        let accepted = argon2::Params::new(m, t, p, None).is_ok();
        assert_eq!(HashParams::new(m, t, p).is_valid(), accepted);
    }
    assert_eq!(
        HashParams::new(MAX_MEMORY_COST + 1, 1, 1).is_valid(),
        argon2::Params::new(MAX_MEMORY_COST + 1, 1, 1, None).is_ok()
    );
    assert_eq!(
        HashParams::new(MAX_MEMORY_COST, 1, MAX_PARALLELISM + 1).is_valid(),
        argon2::Params::new(MAX_MEMORY_COST, 1, MAX_PARALLELISM + 1, None).is_ok()
    );
}

#[test]
fn hash_then_verify_accepts_the_same_secret() {
    let hasher = SecretHasher::new(HashParams::default());
    let hash = hasher.compute_password_hash(&secret("correct-horse")).ok().unwrap();
    assert!(SecretHasher::verify_password_hash(&hash, &secret("correct-horse")));
    assert!(!SecretHasher::verify_password_hash(&hash, &secret("correct-horsf")));
}

#[test]
fn hash_names_algorithm_version_and_costs() {
    let hasher = SecretHasher::new(HashParams::default());
    let hash = hasher.compute_password_hash(&secret("correct-horse")).ok().unwrap();
    assert!(hash.as_str().starts_with("$argon2id$v=19$m=15000,t=2,p=1$"));
    assert_ne!(hash.as_str(), "correct-horse");
    let cheap_hash = cheap().compute_password_hash(&secret("correct-horse")).ok().unwrap();
    assert!(cheap_hash.as_str().starts_with("$argon2id$v=19$m=8,t=1,p=1$"));
}

#[test]
fn each_hash_has_a_fresh_salt() {
    let first = cheap().compute_password_hash(&secret("secret")).ok().unwrap();
    let second = cheap().compute_password_hash(&secret("secret")).ok().unwrap();
    assert_ne!(first.as_str(), second.as_str());
    assert!(SecretHasher::verify_password_hash(&first, &secret("secret")));
    assert!(SecretHasher::verify_password_hash(&second, &secret("secret")));
}

#[test]
fn empty_secret_round_trips() {
    let hash = cheap().compute_password_hash(&secret("")).ok().unwrap();
    assert!(SecretHasher::verify_password_hash(&hash, &secret("")));
    assert!(!SecretHasher::verify_password_hash(&hash, &secret(" ")));
}

#[test]
fn unusable_cost_parameters_do_not_hash() {
    let hasher = SecretHasher::new(HashParams::new(15000, 0, 1));
    assert!(matches!(
        hasher.compute_password_hash(&secret("secret")),
        Err(AuthError::UnexpectedError(Fault::Configuration))
    ));
}

#[test]
fn malformed_stored_hash_accepts_nothing() {
    let garbage = HashString::from_str("not a hash");
    assert!(!SecretHasher::verify_password_hash(&garbage, &secret("not a hash")));
    let empty = HashString::new(String::new());
    assert!(!SecretHasher::verify_password_hash(&empty, &secret("")));
    let cut = HashString::from_str("$argon2id$v=19$m=15000,t=2,p=1$gZiV/M1gPc22ElAH/Jh1Hw$CWOrkoo7oJBQ/");
    assert!(!SecretHasher::verify_password_hash(&cut, &secret("anything")));
}

#[test]
fn dummy_hash_is_well_formed_with_the_default_costs() {
    let parsed = PasswordHash::new(DUMMY_HASH).unwrap();
    assert_eq!(parsed.algorithm.as_str(), "argon2id");
    assert_eq!(parsed.version, Some(19));
    assert_eq!(parsed.params.to_string(), "m=15000,t=2,p=1");
    assert!(parsed.salt.is_some());
    assert_eq!(parsed.hash.unwrap().len(), 32);
    assert!(!SecretHasher::verify_password_hash(
        &HashString::from_str(DUMMY_HASH),
        &secret("anything")
    ));
}

#[test]
fn hash_string_keeps_its_text() {
    let hash = HashString::new("$argon2id$v=19$".to_string());
    assert_eq!(hash.as_str(), "$argon2id$v=19$");
    assert_eq!(hash.duplicate().as_str(), "$argon2id$v=19$");
    assert_eq!(HashString::from_str("abc").as_str(), "abc");
}

fn is_base64(text: &str) -> bool {
    text.chars().all(|c| c.is_ascii_alphanumeric() || c == '+' || c == '/')
}

fn assert_form(hash: &HashString, prefix: &str) {
    let text = hash.as_str();
    assert!(text.starts_with(prefix));
    assert_eq!(text.chars().count(), prefix.len() + SALT_CHARS + 1 + DIGEST_CHARS);
    let rest = &text[prefix.len()..];
    let (salt, digest) = rest.split_at(SALT_CHARS);
    assert!(is_base64(salt));
    assert!(digest.starts_with('$'));
    assert_eq!(digest.len(), 1 + DIGEST_CHARS);
    assert!(is_base64(&digest[1..]));
}

#[test]
fn hash_has_the_form_that_its_cost_parameters_give() {
    let hash = cheap().compute_password_hash(&secret("correct-horse")).ok().unwrap();
    assert_form(&hash, "$argon2id$v=19$m=8,t=1,p=1$");
    let hasher = SecretHasher::new(HashParams::new(64, 3, 2));
    let hash = hasher.compute_password_hash(&secret("correct-horse")).ok().unwrap();
    assert_form(&hash, "$argon2id$v=19$m=64,t=3,p=2$");
    let hasher = SecretHasher::new(HashParams::default());
    let hash = hasher.compute_password_hash(&secret("")).ok().unwrap();
    assert_form(&hash, "$argon2id$v=19$m=15000,t=2,p=1$");
}

#[test]
fn hash_of_a_secret_that_looks_like_a_hash_is_another_text() {
    let look_alike = "$argon2id$v=19$m=8,t=1,p=1$AAAAAAAAAAAAAAAAAAAAAA$AAAAAAAAAAAAAAAAAAAAAAAAAAAAAAAAAAAAAAAAAAA";
    let hash = cheap().compute_password_hash(&secret(look_alike)).ok().unwrap();
    assert_ne!(hash.as_str(), look_alike);
    assert!(SecretHasher::verify_password_hash(&hash, &secret(look_alike)));
    assert!(!SecretHasher::verify_password_hash(&HashString::from_str(look_alike), &secret(look_alike)));
}

#[test]
fn secrets_of_every_usual_length_are_hashed() {
    assert_eq!(MAX_SECRET_CHARS, 0x3FFF_FFFF);
    for length in [0usize, 1, 72, 73, 1024, 100_000] {
        let text = "\u{10348}".repeat(length);
        let hash = cheap().compute_password_hash(&secret(&text));
        assert!(hash.is_ok());
        assert!(SecretHasher::verify_password_hash(&hash.ok().unwrap(), &secret(&text)));
    }
}
