use shooting_star::configuration::Environment;
use shooting_star::models::credentials::{AuthError, Fault};
use shooting_star::models::hasher::HashString;
use shooting_star::models::store::{
    classify_refusal, classify_update, CredentialStore, UNIQUE_VIOLATION,
};

fn hash(text: &str) -> HashString {
    HashString::from_str(text)
}

fn found(store: &CredentialStore, identifier: &str) -> Option<(i32, String)> {
    store.lookup(identifier).map(|(principal, hash)| (principal, hash.as_str().to_string()))
}

#[test]
fn a_new_store_is_empty() {
    let store = CredentialStore::new(Environment::Dev);
    assert_eq!(store.len(), 0);
    assert_eq!(store.environment(), Environment::Dev);
    assert!(store.lookup("alice@example.com").is_none());
    assert!(store.lookup("").is_none());
}

#[test]
fn create_issues_principals_in_order_from_one() {
    let mut store = CredentialStore::new(Environment::Dev);
    assert_eq!(store.create("alice@example.com", "Alice", hash("h1")), Ok(()));
    assert_eq!(store.create("bob@example.com", "Bob", hash("h2")), Ok(()));
    assert_eq!(store.create("", "Nobody", hash("h3")), Ok(()));
    assert_eq!(store.len(), 3);
    assert_eq!(found(&store, "alice@example.com"), Some((1, "h1".to_string())));
    assert_eq!(found(&store, "bob@example.com"), Some((2, "h2".to_string())));
    assert_eq!(found(&store, ""), Some((3, "h3".to_string())));
    assert_eq!(found(&store, "carol@example.com"), None);
    assert_eq!(store.get_name(2), Ok("Bob".to_string()));
}

#[test]
fn create_with_a_taken_identifier_is_a_conflict_and_changes_nothing() {
    let mut store = CredentialStore::new(Environment::Dev);
    assert_eq!(store.create("alice@example.com", "Alice", hash("h1")), Ok(()));
    assert_eq!(store.create("alice@example.com", "Mallory", hash("h2")), Err(AuthError::Conflict));
    assert_eq!(store.len(), 1);
    assert_eq!(found(&store, "alice@example.com"), Some((1, "h1".to_string())));
    assert_eq!(store.get_name(1), Ok("Alice".to_string()));
    assert_eq!(store.create("bob@example.com", "Bob", hash("h3")), Ok(()));
    assert_eq!(found(&store, "bob@example.com"), Some((2, "h3".to_string())));
}

#[test]
fn update_hash_replaces_one_hash_only() {
    let mut store = CredentialStore::new(Environment::Dev);
    assert_eq!(store.create("alice@example.com", "Alice", hash("h1")), Ok(()));
    assert_eq!(store.create("bob@example.com", "Bob", hash("h2")), Ok(()));
    assert_eq!(store.update_hash(2, hash("h3")), Ok(()));
    assert_eq!(found(&store, "alice@example.com"), Some((1, "h1".to_string())));
    assert_eq!(found(&store, "bob@example.com"), Some((2, "h3".to_string())));
    assert_eq!(store.get_name(2), Ok("Bob".to_string()));
    assert_eq!(store.len(), 2);
}

#[test]
fn update_hash_of_an_unknown_principal_is_a_fault() {
    let mut store = CredentialStore::new(Environment::Dev);
    assert_eq!(store.create("alice@example.com", "Alice", hash("h1")), Ok(()));
    for principal in [0, 2, -1, i32::MAX, i32::MIN] {
        assert_eq!(
            store.update_hash(principal, hash("h2")),
            Err(AuthError::UnexpectedError(Fault::UnknownPrincipal))
        );
    }
    assert_eq!(found(&store, "alice@example.com"), Some((1, "h1".to_string())));
}

#[test]
fn get_name_of_an_unknown_principal_names_nobody() {
    let store = CredentialStore::new(Environment::Dev);
    assert_eq!(store.get_name(1), Err(AuthError::UnexpectedError(Fault::UnknownPrincipal)));
}

#[test]
fn ephemeral_store_answers_and_forgets() {
    let mut store = CredentialStore::new(Environment::Test);
    assert_eq!(store.environment(), Environment::Test);
    assert_eq!(store.create("alice@example.com", "Alice", hash("h1")), Ok(()));
    assert_eq!(store.len(), 0);
    assert_eq!(found(&store, "alice@example.com"), None);
    assert_eq!(store.create("alice@example.com", "Alice", hash("h1")), Ok(()));
    assert_eq!(
        store.update_hash(1, hash("h2")),
        Err(AuthError::UnexpectedError(Fault::UnknownPrincipal))
    );
}

#[test]
fn taken_identifier_is_told_from_other_refusals() {
    assert_eq!(UNIQUE_VIOLATION, "23505");
    assert_eq!(classify_refusal(Some("23505")), AuthError::Conflict);
    assert_eq!(classify_refusal(Some("23503")), AuthError::UnexpectedError(Fault::Store));
    assert_eq!(classify_refusal(Some("")), AuthError::UnexpectedError(Fault::Store));
    assert_eq!(classify_refusal(Some("235050")), AuthError::UnexpectedError(Fault::Store));
    assert_eq!(classify_refusal(None), AuthError::UnexpectedError(Fault::Store));
}

#[test]
fn update_that_changed_nothing_names_an_unknown_principal() {
    assert_eq!(classify_update(0), Err(AuthError::UnexpectedError(Fault::UnknownPrincipal)));
    assert_eq!(classify_update(1), Ok(()));
    assert_eq!(classify_update(u64::MAX), Ok(()));
}
