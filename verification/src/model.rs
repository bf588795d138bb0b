//! The user record and the payloads that create and change it.

use vstd::prelude::*;

verus! {

/// A user as the service shows it: the name alone. The stored id is never
/// part of it.
#[derive(Debug, Clone, PartialEq, Eq)]
pub struct User {
    pub name: String,
}

/// The payload that creates a user.
#[derive(Debug, Clone, PartialEq, Eq)]
pub struct CreateUser {
    pub name: String,
}

/// The payload that replaces a user's name.
#[derive(Debug, Clone, PartialEq, Eq)]
pub struct UpdateUser {
    pub name: String,
}

impl View for User {
    type V = Seq<char>;

    /// A user is its name.
    open spec fn view(&self) -> Seq<char> {
        self.name@
    }
}

impl View for CreateUser {
    type V = Seq<char>;

    open spec fn view(&self) -> Seq<char> {
        self.name@
    }
}

impl View for UpdateUser {
    type V = Seq<char>;

    open spec fn view(&self) -> Seq<char> {
        self.name@
    }
}

/// The names of a list of users, in order.
pub open spec fn names_of(users: Seq<User>) -> Seq<Seq<char>> {
    Seq::new(users.len(), |i: int| users[i]@)
}

} // verus!
