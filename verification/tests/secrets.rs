use shooting_star::models::secret::PendingSecret;

#[test]
fn a_secret_gives_back_the_text_it_was_made_from() {
    let secret = PendingSecret::new("correct-horse".to_string());
    assert_eq!(secret.expose(), "correct-horse");
}
