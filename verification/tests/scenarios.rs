use account_auth::auth::validate_jwt_at;
use account_auth::auth_middleware::check_auth_middleware_at;
use account_auth::handlers::completed;
use account_auth::handlers::create_user;
use account_auth::handlers::delete_user;
use account_auth::handlers::fetch_all_users;
use account_auth::handlers::login_at;
use account_auth::handlers::register;
use account_auth::handlers::update_user;
use account_auth::models::LoginRequest;
use account_auth::models::NewUser;
use account_auth::models::UpdateUser;
use account_auth::models::User;
use account_auth::service::Operation;
use account_auth::tauri_handlers::delete_user_tauri_at;
use account_auth::tauri_handlers::login_tauri_at;
use account_auth::tauri_handlers::register_tauri;

const SCENARIO_SECRET: &str = "scenario-secret";

const NOW: i64 = 1_750_000_000;

struct Directory {
    rows: Vec<User>,
}

impl Directory {
    fn insert(&mut self, row: NewUser) -> bool {
        if self.rows.iter().any(|u| u.email == row.email) {
            return false;
        }
        let id = self.rows.len() as i32 + 1;
        self.rows.push(User { id, name: row.name, email: row.email, role: row.role, password: row.password });
        true
    }

    fn by_email(&self, email: &str) -> Option<&User> {
        self.rows.iter().find(|u| u.email == email)
    }

    fn delete(&mut self, email: &str) {
        self.rows.retain(|u| u.email != email);
    }
}

fn alice_form() -> NewUser {
    NewUser {
        name: String::from("Alice"),
        email: String::from("alice@x.com"),
        role: String::from("user"),
        password: String::from("secret123"),
    }
}

fn credentials(email: &str, password: &str) -> LoginRequest {
    LoginRequest { email: String::from(email), password: String::from(password) }
}

#[test]
fn a_registered_user_logs_in_and_may_not_delete() {
    let mut directory = Directory { rows: Vec::new() };

    let row = register(&alice_form(), 4).unwrap();
    let reply = completed(Operation::Register, directory.insert(row));
    assert_eq!(reply.status_code, 201);
    assert_eq!(reply.body, "");
    assert_eq!(directory.rows.len(), 1);

    let form = credentials("alice@x.com", "secret123");
    let logged_in = login_at(&form, directory.by_email(&form.email), SCENARIO_SECRET, NOW).unwrap();
    assert!(!logged_in.token.is_empty());
    assert_eq!(logged_in.role, "user");
    assert_eq!(logged_in.name, "Alice");

    let header = format!("Bearer {}", logged_in.token);
    let claims = check_auth_middleware_at(Some(header.as_str()), SCENARIO_SECRET, NOW + 5).unwrap();
    let denied = delete_user(Some(&claims)).unwrap_err();
    assert_eq!(denied.status_code, 403);
    assert_eq!(denied.body, "Admins only");
    assert!(directory.by_email("alice@x.com").is_some());
}

#[test]
fn a_registered_user_logs_in_and_may_not_delete_on_the_desktop() {
    let mut directory = Directory { rows: Vec::new() };
    let row = register_tauri(&alice_form(), 4).unwrap();
    assert!(directory.insert(row));

    let form = credentials("alice@x.com", "secret123");
    let logged_in = login_tauri_at(&form, directory.by_email(&form.email), SCENARIO_SECRET, NOW).unwrap();
    assert_eq!(logged_in.role, "user");
    assert_eq!(
        delete_user_tauri_at(&logged_in.token, SCENARIO_SECRET, NOW + 5),
        Err(String::from("Access denied: only admins can delete users"))
    );
}

#[test]
fn a_second_registration_under_one_login_name_fails_without_detail() {
    let mut directory = Directory { rows: Vec::new() };
    assert!(directory.insert(register(&alice_form(), 4).unwrap()));
    let again = completed(Operation::Register, directory.insert(register(&alice_form(), 4).unwrap()));
    assert_eq!(again.status_code, 500);
    assert_eq!(again.body, "Failed to register user");
}

#[test]
fn a_wrong_password_and_an_unknown_name_get_the_same_reply() {
    let mut directory = Directory { rows: Vec::new() };
    assert!(directory.insert(register(&alice_form(), 4).unwrap()));

    let wrong_password = credentials("alice@x.com", "secret124");
    let first = login_at(&wrong_password, directory.by_email(&wrong_password.email), SCENARIO_SECRET, NOW).unwrap_err();
    let unknown = credentials("mallory@x.com", "secret123");
    let second = login_at(&unknown, directory.by_email(&unknown.email), SCENARIO_SECRET, NOW).unwrap_err();

    assert_eq!(first.status_code, 401);
    assert_eq!(first.body, "Invalid credentials");
    assert_eq!(second.status_code, first.status_code);
    assert_eq!(second.body, first.body);
}

#[test]
fn an_admin_only_operation_without_a_token_is_unauthenticated() {
    let rejected = check_auth_middleware_at(None, SCENARIO_SECRET, NOW).unwrap_err();
    assert_eq!(rejected.status_code, 401);

    let anyone = UpdateUser { id: 1, name: String::new(), email: String::new(), role: String::from("owner") };
    for reply in [
        create_user(None, &alice_form(), 0).unwrap_err(),
        fetch_all_users(None).unwrap_err(),
        update_user(None, &anyone).unwrap_err(),
        delete_user(None).unwrap_err(),
    ] {
        assert_eq!(reply.status_code, 401);
        assert_ne!(reply.status_code, 403);
    }
}

#[test]
fn a_token_outlives_its_account() {
    let mut directory = Directory { rows: Vec::new() };
    let mut admin = alice_form();
    admin.role = String::from("admin");
    assert!(directory.insert(register(&admin, 4).unwrap()));

    let form = credentials("alice@x.com", "secret123");
    let logged_in = login_at(&form, directory.by_email(&form.email), SCENARIO_SECRET, NOW).unwrap();

    directory.delete("alice@x.com");
    assert!(directory.by_email("alice@x.com").is_none());

    let claims = validate_jwt_at(&logged_in.token, SCENARIO_SECRET, NOW + 3599).unwrap();
    assert_eq!(claims.sub, "alice@x.com");
    assert_eq!(claims.role, "admin");
    let header = format!("Bearer {}", logged_in.token);
    let attached = check_auth_middleware_at(Some(header.as_str()), SCENARIO_SECRET, NOW + 3599).unwrap();
    assert!(delete_user(Some(&attached)).is_ok());
    assert!(validate_jwt_at(&logged_in.token, SCENARIO_SECRET, NOW + 3600).is_err());

    let retry = login_at(&form, directory.by_email(&form.email), SCENARIO_SECRET, NOW).unwrap_err();
    assert_eq!(retry.status_code, 401);
}
