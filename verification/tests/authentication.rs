use shooting_star::configuration::{AppData, DatabaseSettings, Environment, Settings};
use shooting_star::controllers::credentials_controller::login;
use shooting_star::controllers::LoginForm;
use shooting_star::models::hasher::{HashParams, SecretHasher};
use shooting_star::models::secret::PendingSecret;

fn spawn_app() -> AppData {
    let settings = Settings {
        database: DatabaseSettings {
            username: "postgres".to_string(),
            password: "password".to_string(),
            port: 5432,
            host: "localhost".to_string(),
            database_name: "diary".to_string(),
        },
        application_port: 8000,
        redis_uri: PendingSecret::new("redis://127.0.0.1:6379".to_string()),
        hmac_secret: PendingSecret::new("key".to_string()),
    };
    AppData::init(&settings, Environment::Dev)
}

/// Stores a user whose hash was computed with the parameters of the service.
fn create_test_user(app: &mut AppData) -> (String, String) {
    let username = "8d4a8b8e-1f0c-4a51-9d0e-6f3c2b7a9e10".to_string();
    let password = "password".to_string();
    let hasher = SecretHasher::new(HashParams::new(15000, 2, 1));
    let password_hash =
        hasher.compute_password_hash(&PendingSecret::new(password.clone())).ok().unwrap();
    assert_eq!(app.store.create(&username, "Test User", password_hash), Ok(()));
    (username, password)
}

#[test]
fn unknown_user_is_answered_with_401() {
    let app = spawn_app();
    let username = "3c9f2f0a-7b1d-4e55-8a67-0d6c1f2e4b90".to_string();
    let password = "b7e1a4c2-5d3f-4f6a-9c8b-2a1e0d9f8c7b".to_string();

    let response = login(LoginForm { email: username, password: PendingSecret::new(password) }, &app);
    assert_eq!(401, response.unwrap_err().status_code());
}

#[test]
fn user_with_a_stored_hash_logs_in() {
    let mut app = spawn_app();
    let (username, password) = create_test_user(&mut app);

    let response = login(LoginForm { email: username, password: PendingSecret::new(password) }, &app);
    assert_eq!(Ok(1), response);
}
