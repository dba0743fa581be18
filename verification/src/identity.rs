//! Who is calling: derived from what the transport found of a session
//! token, before any dispatch.

use vstd::prelude::*;

verus! {

/// The caller on whose behalf an operation runs.
#[derive(Debug)]
pub enum User {
    /// A caller that presented no session token.
    Anonymous,
    /// The subject that a valid session token names.
    Id(String),
}

/// What a `User` holds.
pub enum UserView {
    Anonymous,
    Id(Seq<char>),
}

impl View for User {
    type V = UserView;

    open spec fn view(&self) -> UserView {
        match *self {
            User::Anonymous => UserView::Anonymous,
            User::Id(subject) => UserView::Id(subject@),
        }
    }
}

impl Clone for User {
    fn clone(&self) -> (r: Self)
        ensures
            r@ == self@,
    {
        match self {
            User::Anonymous => User::Anonymous,
            User::Id(subject) => User::Id(subject.clone()),
        }
    }
}

/// What the verification of the session made of the request's authorization header.
#[derive(Debug)]
pub enum Credentials {
    /// The request carries no bearer token.
    Absent,
    /// The token is valid and names this subject.
    Valid(String),
    /// The token is not valid.
    Invalid,
}

/// What `Credentials` hold.
pub enum CredentialsView {
    Absent,
    Valid(Seq<char>),
    Invalid,
}

impl View for Credentials {
    type V = CredentialsView;

    open spec fn view(&self) -> CredentialsView {
        match *self {
            Credentials::Absent => CredentialsView::Absent,
            Credentials::Valid(subject) => CredentialsView::Valid(subject@),
            Credentials::Invalid => CredentialsView::Invalid,
        }
    }
}

/// The caller was refused: the session token is not valid.
#[derive(Clone, Copy, Debug, PartialEq, Eq, Structural)]
pub struct Unauthorized;

/// The caller that credentials stand for, or nothing where they are refused.
pub open spec fn identified(credentials: CredentialsView) -> Option<UserView> {
    match credentials {
        CredentialsView::Absent => Some(UserView::Anonymous),
        CredentialsView::Valid(subject) => Some(UserView::Id(subject)),
        CredentialsView::Invalid => None,
    }
}

/// Derives the caller from the credentials. No token makes an anonymous
/// caller, a valid one the subject it names; an invalid one is refused.
pub fn extract(credentials: &Credentials) -> (r: Result<User, Unauthorized>)
    ensures
        match r {
            Ok(user) => identified(credentials@) == Some(user@),
            Err(_) => identified(credentials@) is None,
        },
{
    match credentials {
        Credentials::Absent => Ok(User::Anonymous),
        Credentials::Valid(subject) => Ok(User::Id(subject.clone())),
        Credentials::Invalid => Err(Unauthorized),
    }
}

} // verus!
