use account_auth::auth::Claims;
use account_auth::policy::authorize;
use account_auth::policy::Decision;
use account_auth::policy::Role;

fn claim(role: &str) -> Claims {
    Claims { sub: String::from("someone@x.com"), role: String::from(role), exp: 10 }
}

#[test]
fn admin_only_operations_allow_admins_and_deny_users() {
    assert_eq!(authorize(&claim("admin"), Role::Admin), Decision::Allow);
    assert_eq!(authorize(&claim("user"), Role::Admin), Decision::Deny);
}

#[test]
fn the_policy_is_equality_of_roles() {
    assert_eq!(authorize(&claim("user"), Role::User), Decision::Allow);
    assert_eq!(authorize(&claim("admin"), Role::User), Decision::Deny);
}

#[test]
fn an_unknown_or_misspelt_role_is_denied() {
    for role in ["", "Admin", "ADMIN", " admin", "admin ", "root", "administrator"] {
        assert_eq!(authorize(&claim(role), Role::Admin), Decision::Deny, "{:?}", role);
        assert_eq!(authorize(&claim(role), Role::User), Decision::Deny, "{:?}", role);
    }
}

#[test]
fn role_names_round_trip() {
    assert_eq!(Role::Admin.as_str(), "admin");
    assert_eq!(Role::User.as_str(), "user");
    assert_eq!(Role::parse("admin"), Some(Role::Admin));
    assert_eq!(Role::parse("user"), Some(Role::User));
    assert_eq!(Role::parse(Role::Admin.as_str()), Some(Role::Admin));
    assert_eq!(Role::parse(Role::User.as_str()), Some(Role::User));
}

#[test]
fn other_names_name_no_role() {
    for name in ["", "Admin", "User", "admin ", " user", "guest"] {
        assert_eq!(Role::parse(name), None, "{:?}", name);
    }
}
