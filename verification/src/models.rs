//! The account records and the request and response payloads of the service.

use vstd::prelude::*;

verus! {

/// An account as the directory stores it.
#[derive(Debug)]
pub struct User {
    pub id: i32,
    pub name: String,
    pub email: String,
    pub role: String,
    /// The stored password digest, never the plaintext.
    pub password: String,
}

/// The mathematical value of a [`User`].
pub struct UserView {
    pub id: int,
    pub name: Seq<char>,
    pub email: Seq<char>,
    pub role: Seq<char>,
    pub password: Seq<char>,
}

impl View for User {
    type V = UserView;

    open spec fn view(&self) -> UserView {
        UserView {
            id: self.id as int,
            name: self.name@,
            email: self.email@,
            role: self.role@,
            password: self.password@,
        }
    }
}

/// The payload that asks for a new account.
#[derive(Debug)]
pub struct NewUser {
    pub name: String,
    pub email: String,
    pub role: String,
    /// The plaintext password in a request, its digest in a row to store.
    pub password: String,
}

/// The mathematical value of a [`NewUser`].
pub struct NewUserView {
    pub name: Seq<char>,
    pub email: Seq<char>,
    pub role: Seq<char>,
    pub password: Seq<char>,
}

impl View for NewUser {
    type V = NewUserView;

    open spec fn view(&self) -> NewUserView {
        NewUserView {
            name: self.name@,
            email: self.email@,
            role: self.role@,
            password: self.password@,
        }
    }
}

/// An account as it is shown to callers: without its password digest.
#[derive(Debug)]
pub struct PublicUser {
    pub id: i32,
    pub name: String,
    pub email: String,
    pub role: String,
}

/// The mathematical value of a [`PublicUser`].
pub struct PublicUserView {
    pub id: int,
    pub name: Seq<char>,
    pub email: Seq<char>,
    pub role: Seq<char>,
}

impl View for PublicUser {
    type V = PublicUserView;

    open spec fn view(&self) -> PublicUserView {
        PublicUserView {
            id: self.id as int,
            name: self.name@,
            email: self.email@,
            role: self.role@,
        }
    }
}

/// The payload that changes an account's name, login name and role.
#[derive(Debug)]
pub struct UpdateUser {
    pub id: i32,
    pub name: String,
    pub email: String,
    pub role: String,
}

/// The mathematical value of an [`UpdateUser`].
pub struct UpdateUserView {
    pub id: int,
    pub name: Seq<char>,
    pub email: Seq<char>,
    pub role: Seq<char>,
}

impl View for UpdateUser {
    type V = UpdateUserView;

    open spec fn view(&self) -> UpdateUserView {
        UpdateUserView {
            id: self.id as int,
            name: self.name@,
            email: self.email@,
            role: self.role@,
        }
    }
}

/// The credential pair of a login.
#[derive(Debug)]
pub struct LoginRequest {
    pub email: String,
    pub password: String,
}

/// The mathematical value of a [`LoginRequest`].
pub struct LoginRequestView {
    pub email: Seq<char>,
    pub password: Seq<char>,
}

impl View for LoginRequest {
    type V = LoginRequestView;

    open spec fn view(&self) -> LoginRequestView {
        LoginRequestView { email: self.email@, password: self.password@ }
    }
}

/// What a successful login hands back.
#[derive(Debug)]
pub struct LoginResponse {
    pub token: String,
    pub name: String,
    pub role: String,
}

/// The mathematical value of a [`LoginResponse`].
pub struct LoginResponseView {
    pub token: Seq<char>,
    pub name: Seq<char>,
    pub role: Seq<char>,
}

impl View for LoginResponse {
    type V = LoginResponseView;

    open spec fn view(&self) -> LoginResponseView {
        LoginResponseView { token: self.token@, name: self.name@, role: self.role@ }
    }
}

} // verus!
