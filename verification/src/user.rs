//! A member of the team as the client knows them.

use vstd::prelude::*;

verus! {

/// One user of the team's chat.
#[derive(Debug, PartialEq, Eq)]
pub struct User {
    pub id: String,
    pub name: String,
}

/// A user as plain values.
pub ghost struct UserView {
    pub id: Seq<char>,
    pub name: Seq<char>,
}

impl View for User {
    type V = UserView;

    open spec fn view(&self) -> UserView {
        UserView { id: self.id@, name: self.name@ }
    }
}

impl Clone for User {
    /// A user with the same identifier and name.
    fn clone(&self) -> (copy: Self)
        ensures
            copy@ == self@,
    {
        User { id: self.id.clone(), name: self.name.clone() }
    }
}

} // verus!
