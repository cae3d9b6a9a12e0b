//! Registered participants.

use vstd::prelude::*;

verus! {

/// What a [`User`] is, as plain sequences of characters.
pub ghost struct UserView {
    pub id: Seq<char>,
    pub name: Seq<char>,
    pub token: Seq<char>,
}

/// One registered participant. A user never changes once made.
#[derive(Debug, Clone, PartialEq, Eq)]
pub struct User {
    id: String,
    name: String,
    token: String,
}

/// A text channel. Channels carry no data yet.
#[derive(Debug, Clone, PartialEq, Eq)]
pub struct Channel {}

impl View for User {
    type V = UserView;

    closed spec fn view(&self) -> UserView {
        UserView { id: self.id@, name: self.name@, token: self.token@ }
    }
}

impl User {
    /// Makes a user from a display name, a bearer token and an id.
    pub fn new(name: String, token: String, id: String) -> (user: User)
        ensures
            user@ == (UserView { id: id@, name: name@, token: token@ }),
    {
        User { name: name, token: token, id: id }
    }

    /// The id.
    pub fn id(&self) -> (id: &String)
        ensures
            id@ == self@.id,
    {
        &self.id
    }

    /// The display name.
    pub fn name(&self) -> (name: &String)
        ensures
            name@ == self@.name,
    {
        &self.name
    }

    /// The bearer token.
    pub fn token(&self) -> (token: &String)
        ensures
            token@ == self@.token,
    {
        &self.token
    }
}

} // verus!
