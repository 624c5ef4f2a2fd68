//! Authorization policy: a flat, two-role model in which an operation is
//! allowed exactly when the claim's role is the role the operation requires.

use crate::auth::{Claims, ClaimsView};
use crate::text::text_eq;
use vstd::prelude::*;

verus! {

/// The roles an account can have.
#[derive(Debug, Clone, Copy, PartialEq, Eq, Structural)]
pub enum Role {
    Admin,
    User,
}

/// The verdict of the policy.
#[derive(Debug, Clone, Copy, PartialEq, Eq, Structural)]
pub enum Decision {
    Allow,
    Deny,
}

/// The role that `name` names, if any.
pub open spec fn role_named(name: Seq<char>) -> Option<Role> {
    if name == "admin"@ {
        Some(Role::Admin)
    } else if name == "user"@ {
        Some(Role::User)
    } else {
        None
    }
}

/// What the policy decides for a claim and a required role.
pub open spec fn decision(claims: ClaimsView, required: Role) -> Decision {
    if claims.role == required.name() {
        Decision::Allow
    } else {
        Decision::Deny
    }
}

impl Role {
    /// The name under which the role is stored and carried in tokens.
    pub open spec fn name(self) -> Seq<char> {
        match self {
            Role::Admin => "admin"@,
            Role::User => "user"@,
        }
    }

    /// The name under which the role is stored and carried in tokens.
    pub fn as_str(self) -> (name: &'static str)
        ensures
            name@ == self.name(),
    {
        match self {
            Role::Admin => "admin",
            Role::User => "user",
        }
    }

    /// The role that `name` names: `admin` or `user`, in lower case.
    pub fn parse(name: &str) -> (role: Option<Role>)
        ensures
            role == role_named(name@),
    {
        if text_eq(name, "admin") {
            Some(Role::Admin)
        } else if text_eq(name, "user") {
            Some(Role::User)
        } else {
            None
        }
    }
}

/// Decides whether the holder of `claims` may run an operation that requires
/// the role `required`.
pub fn authorize(claims: &Claims, required: Role) -> (verdict: Decision)
    ensures
        verdict == decision(claims@, required),
{
    if text_eq(claims.role.as_str(), required.as_str()) {
        Decision::Allow
    } else {
        Decision::Deny
    }
}

/// The two role names differ.
pub proof fn lemma_role_names_differ()
    ensures
        Role::Admin.name() != Role::User.name(),
{
    reveal_strlit("admin");
    reveal_strlit("user");
    assert("admin"@.len() != "user"@.len());
}

/// A role's name names that role, and no other.
pub proof fn lemma_role_name_round_trip(role: Role)
    ensures
        role_named(role.name()) == Some(role),
{
    lemma_role_names_differ();
}

/// An operation that requires the role `admin` is denied to every claim with
/// the role `user` and allowed to every claim with the role `admin`.
pub proof fn lemma_admin_only(claims: ClaimsView)
    ensures
        claims.role == Role::User.name() ==> decision(claims, Role::Admin) == Decision::Deny,
        claims.role == Role::Admin.name() ==> decision(claims, Role::Admin) == Decision::Allow,
{
    lemma_role_names_differ();
}

} // verus!
