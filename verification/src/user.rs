//! The one entity of the service.

use vstd::prelude::*;

verus! {

/// A user as the database stores it and as clients receive it.
#[derive(Clone, Debug, PartialEq, Eq)]
pub struct User {
    /// Assigned by the database when the row is inserted.
    pub id: i32,
    pub name: String,
    pub email: String,
}

/// What a [`User`] is: an identifier and two texts.
pub struct UserView {
    pub id: int,
    pub name: Seq<char>,
    pub email: Seq<char>,
}

impl View for User {
    type V = UserView;

    open spec fn view(&self) -> UserView {
        UserView { id: self.id as int, name: self.name@, email: self.email@ }
    }
}

/// The users of a list, each as what it is.
pub open spec fn users_view(users: Seq<User>) -> Seq<UserView> {
    users.map_values(|u: User| u@)
}

impl User {
    /// Puts the identifier that the database returned together with the
    /// name and the address that were submitted.
    pub fn new(id: i32, name: String, email: String) -> (user: User)
        ensures
            user@ == (UserView { id: id as int, name: name@, email: email@ }),
    {
        User { id, name, email }
    }
}

} // verus!
