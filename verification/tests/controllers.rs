use shooting_star::configuration::{AppData, DatabaseSettings, Environment, Settings};
use shooting_star::controllers::credentials_controller::{
    login, logout, session_failure, session_name, signup, signup_reply, LoginError, SessionName,
    LOGIN_PATH,
};
use shooting_star::controllers::diary_entries_controller::{index, session_user, SessionRead};
use shooting_star::controllers::skills::SkillForm;
use shooting_star::controllers::{DiaryForm, LoginForm, SignupForm};
use shooting_star::models::credentials::{AuthError, Fault};
use shooting_star::models::diary_entries::{
    updated_entries, DateRangeRequest, DiaryEntry, DiaryEntryForm,
};
use shooting_star::models::hasher::{HashParams, SecretHasher};
use shooting_star::models::secret::PendingSecret;
use shooting_star::models::skills::Skill;

fn app(env: Environment) -> AppData {
    let settings = Settings {
        database: DatabaseSettings {
            username: "postgres".to_string(),
            password: "password".to_string(),
            port: 5432,
            host: "localhost".to_string(),
            database_name: "diary".to_string(),
        },
        application_port: 8000,
        redis_uri: PendingSecret::new("redis://127.0.0.1:6379".to_string()),
        hmac_secret: PendingSecret::new("key".to_string()),
    };
    let mut data = AppData::init(&settings, env);
    data.hasher = SecretHasher::new(HashParams::new(8, 1, 1));
    data
}

fn signup_form(email: &str, name: &str, password: &str) -> SignupForm {
    SignupForm {
        email: email.to_string(),
        name: name.to_string(),
        password: PendingSecret::new(password.to_string()),
    }
}

fn login_form(email: &str, password: &str) -> LoginForm {
    LoginForm { email: email.to_string(), password: PendingSecret::new(password.to_string()) }
}

fn entry(id: i32, created_at: i64, updated_at: i64) -> DiaryEntry {
    DiaryEntry {
        id,
        user_id: 1,
        entry_date: 738193,
        created_at,
        updated_at,
        notes: format!("entry {}", id),
    }
}

#[test]
fn login_error_statuses() {
    assert_eq!(LoginError::AuthError(AuthError::InvalidCredentials).status_code(), 401);
    assert_eq!(
        LoginError::UnexpectedError(AuthError::UnexpectedError(Fault::Store)).status_code(),
        500
    );
}

#[test]
fn login_error_messages_hide_the_cause() {
    let denied = LoginError::AuthError(AuthError::InvalidCredentials);
    assert_eq!(denied.message(), "Authentication failed");
    assert_eq!(denied.source(), AuthError::InvalidCredentials);
    assert_eq!(denied.source().message(), "Invalid credentials.");
    let failed = LoginError::UnexpectedError(AuthError::UnexpectedError(Fault::Offload));
    assert_eq!(failed.message(), "Something went wrong");
    assert_eq!(failed.source().message(), "Failed to spawn blocking task.");
}

#[test]
fn auth_error_messages() {
    assert_eq!(AuthError::InvalidCredentials.message(), "Invalid credentials.");
    assert_eq!(AuthError::Conflict.message(), "The identifier is already registered.");
    assert_eq!(AuthError::UnexpectedError(Fault::Hashing).message(), "Failed to hash password");
    assert_eq!(Fault::Hashing.message(), "Failed to hash password");
    assert_eq!(
        Fault::Configuration.message(),
        "Failed to construct the hashing parameters."
    );
    assert_eq!(Fault::Store.message(), "Failed to perform a query on the stored credentials.");
    assert_eq!(Fault::UnknownPrincipal.message(), "No credential is stored for the user.");
    assert_eq!(Fault::Session.message(), "Failed to store the user in the session.");
    assert_eq!(Fault::Protocol.message(), "A step was reported out of turn.");
}

#[test]
fn login_errors_are_classified() {
    assert_eq!(
        LoginError::from_auth(AuthError::InvalidCredentials),
        LoginError::AuthError(AuthError::InvalidCredentials)
    );
    assert_eq!(
        LoginError::from_auth(AuthError::UnexpectedError(Fault::Store)),
        LoginError::UnexpectedError(AuthError::UnexpectedError(Fault::Store))
    );
    assert_eq!(
        LoginError::from_auth(AuthError::Conflict),
        LoginError::UnexpectedError(AuthError::Conflict)
    );
    assert_eq!(
        session_failure(),
        LoginError::UnexpectedError(AuthError::UnexpectedError(Fault::Session))
    );
    assert_eq!(LOGIN_PATH, "/login");
}

#[test]
fn login_accepts_a_user_who_signed_up() {
    let mut data = app(Environment::Dev);
    assert_eq!(signup(signup_form("alice@example.com", "Alice", "correct-horse"), &mut data), 200);
    assert_eq!(login(login_form("alice@example.com", "correct-horse"), &data), Ok(1));
    assert_eq!(
        login(login_form("alice@example.com", "wrong"), &data),
        Err(LoginError::AuthError(AuthError::InvalidCredentials))
    );
    assert_eq!(
        login(login_form("bob@example.com", "anything"), &data),
        Err(LoginError::AuthError(AuthError::InvalidCredentials))
    );
}

#[test]
fn signup_rejects_what_is_no_email_address() {
    let mut data = app(Environment::Dev);
    assert_eq!(signup(signup_form("not-an-address", "Alice", "secret"), &mut data), 400);
    assert_eq!(signup(signup_form("", "Alice", "secret"), &mut data), 400);
    assert_eq!(signup(signup_form("alice@", "Alice", "secret"), &mut data), 400);
    assert_eq!(data.store.len(), 0);
}

#[test]
fn signup_statuses() {
    let mut data = app(Environment::Dev);
    assert_eq!(signup(signup_form("alice@example.com", "Alice", "secret"), &mut data), 200);
    assert_eq!(signup(signup_form("alice@example.com", "Mallory", "other"), &mut data), 409);
    data.hasher = SecretHasher::new(HashParams::new(0, 0, 0));
    assert_eq!(signup(signup_form("bob@example.com", "Bob", "secret"), &mut data), 500);
    assert_eq!(data.store.len(), 1);
}

#[test]
fn signup_reply_for_each_result() {
    assert_eq!(signup_reply(Ok(())), 200);
    assert_eq!(signup_reply(Err(AuthError::Conflict)), 409);
    assert_eq!(signup_reply(Err(AuthError::UnexpectedError(Fault::Store))), 500);
    assert_eq!(signup_reply(Err(AuthError::UnexpectedError(Fault::Hashing))), 500);
    assert_eq!(signup_reply(Err(AuthError::InvalidCredentials)), 500);
}

#[test]
fn logout_needs_a_user() {
    assert_eq!(logout(Some(1)), 200);
    assert_eq!(logout(None), 400);
}

#[test]
fn session_name_answers() {
    let mut data = app(Environment::Dev);
    assert_eq!(signup(signup_form("alice@example.com", "Alice", "secret"), &mut data), 200);
    match session_name(Some(1), &data) {
        SessionName::Name(name) => assert_eq!(name, "Alice"),
        _ => panic!("a name was expected"),
    }
    assert_eq!(session_name(Some(1), &data).status_code(), 200);
    assert!(matches!(session_name(None, &data), SessionName::Redirect));
    assert_eq!(session_name(None, &data).status_code(), 303);
    assert!(matches!(
        session_name(Some(2), &data),
        SessionName::Failed(AuthError::UnexpectedError(Fault::UnknownPrincipal))
    ));
    assert_eq!(session_name(Some(2), &data).status_code(), 500);
}

#[test]
fn session_user_or_500() {
    assert_eq!(session_user(SessionRead::User(5)), Ok(5));
    assert_eq!(session_user(SessionRead::Empty), Err(500));
    assert_eq!(session_user(SessionRead::Unreadable), Err(500));
}

#[test]
fn updated_entries_keeps_those_written_again_in_order() {
    let entries = vec![entry(1, 10, 10), entry(2, 10, 11), entry(3, 5, 4), entry(4, 0, 0), entry(5, -1, 1)];
    let kept = updated_entries(&entries);
    let ids: Vec<i32> = kept.iter().map(|e| e.id).collect();
    assert_eq!(ids, vec![2, 3, 5]);
    assert_eq!(kept[0].notes, "entry 2");
    assert_eq!(kept[0].user_id, 1);
    assert_eq!(kept[0].entry_date, 738193);
    assert_eq!(kept[0].created_at, 10);
    assert_eq!(kept[0].updated_at, 11);
    assert!(entries[1].was_updated());
    assert!(!entries[0].was_updated());
}

#[test]
fn updated_entries_of_nothing_and_of_untouched_entries() {
    assert!(updated_entries(&Vec::new()).is_empty());
    assert!(updated_entries(&vec![entry(1, 3, 3), entry(2, 4, 4)]).is_empty());
    assert!(index(&vec![entry(1, 3, 3)]).is_empty());
    let shown = index(&vec![entry(1, 3, 3), entry(2, 3, 4)]);
    assert_eq!(shown.len(), 1);
    assert_eq!(shown[0].id, 2);
}

fn range(start: Option<&str>, end: Option<&str>) -> DateRangeRequest {
    DateRangeRequest { start: start.map(str::to_string), end: end.map(str::to_string) }
}

#[test]
fn date_range_is_bounded_only_by_both_days() {
    assert!(range(Some("2022-02-01"), Some("2022-02-07")).is_bounded());
    assert!(!range(Some("2022-02-01"), None).is_bounded());
    assert!(!range(None, Some("2022-02-07")).is_bounded());
    assert!(!range(None, None).is_bounded());
}

#[test]
fn date_range_query_selects_between_the_days() {
    assert_eq!(
        range(Some("2022-02-01"), Some("2022-02-07")).find_by_date_range_query(),
        "SELECT id, user_id, entry_date, created_at, updated_at, notes FROM diary_entries WHERE entry_date BETWEEN '2022-02-01' AND '2022-02-07';"
    );
}

#[test]
fn date_range_query_without_both_days_selects_everything() {
    let all = "SELECT id, user_id, entry_date, created_at, updated_at, notes FROM diary_entries";
    assert_eq!(range(None, None).find_by_date_range_query(), all);
    assert_eq!(range(Some("2022-02-01"), None).find_by_date_range_query(), all);
    assert_eq!(range(None, Some("2022-02-07")).find_by_date_range_query(), all);
}

#[test]
fn date_range_user_query_names_the_user() {
    assert_eq!(
        range(Some("2022-02-01"), Some("2022-02-07")).find_by_date_range_user_query(12),
        "SELECT id, user_id, entry_date, created_at, updated_at, notes FROM diary_entries WHERE entry_date BETWEEN '2022-02-01' AND '2022-02-07' AND user_id = 12;"
    );
    assert_eq!(
        range(None, Some("2022-02-07")).find_by_date_range_user_query(12),
        "SELECT id, user_id, entry_date, created_at, updated_at, notes FROM diary_entries WHERE user_id = 12"
    );
    assert_eq!(
        range(None, None).find_by_date_range_user_query(-3),
        "SELECT id, user_id, entry_date, created_at, updated_at, notes FROM diary_entries WHERE user_id = -3"
    );
}

#[test]
fn find_by_ids_query_lists_the_ids_in_quotes() {
    assert_eq!(Skill::find_by_ids_query(&[1, 3, 5]), "SELECT * from skills WHERE id IN ('1', '3', '5');");
    assert_eq!(Skill::find_by_ids_query(&[42]), "SELECT * from skills WHERE id IN ('42');");
    assert_eq!(Skill::find_by_ids_query(&[]), "SELECT * from skills WHERE id IN ();");
    assert_eq!(
        Skill::find_by_ids_query(&[-7, 0, i32::MAX, i32::MIN]),
        "SELECT * from skills WHERE id IN ('-7', '0', '2147483647', '-2147483648');"
    );
}

#[test]
fn forms_hold_what_was_submitted() {
    let form = DiaryForm {
        entry_form: DiaryEntryForm { entry_date: 1644192000, notes: "a day".to_string() },
        skill_ids: vec![1, 3, 5],
    };
    assert_eq!(form.entry_form.entry_date, 1644192000);
    assert_eq!(form.entry_form.notes, "a day");
    assert_eq!(form.skill_ids, vec![1, 3, 5]);
    let skill = SkillForm { name: "mindfulness".to_string(), completed: true };
    assert_eq!(skill.name, "mindfulness");
    assert!(skill.completed);
    let skill = Skill { id: 1, name: "observe".to_string(), category: "mindfulness".to_string() };
    assert_eq!(skill.id, 1);
    assert_eq!(skill.category, "mindfulness");
}
