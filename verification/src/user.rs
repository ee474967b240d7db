use vstd::prelude::*;

verus! {

/// The mathematical value of a user: its two fields as character sequences.
pub struct UserView {
    pub email: Seq<char>,
    pub username: Seq<char>,
}

/// One account identity. The email is the logical key within a repository;
/// the username is a display label with no uniqueness constraint. Neither
/// field is validated: empty strings are accepted.
pub struct User {
    pub email: String,
    pub username: String,
}

impl View for User {
    type V = UserView;

    open spec fn view(&self) -> UserView {
        UserView { email: self.email@, username: self.username@ }
    }
}

impl User {
    /// Constructs a user from its two fields, with no validation.
    pub fn new(email: String, username: String) -> (u: User)
        ensures
            u@ == (UserView { email: email@, username: username@ }),
    {
        User { email, username }
    }
}

impl Clone for User {
    /// An independent, equal-by-value copy; the repository hands out such
    /// copies so that callers never alias its internal state.
    fn clone(&self) -> (r: Self)
        ensures
            r@ == self@,
    {
        User { email: self.email.clone(), username: self.username.clone() }
    }
}

/// Registration input for the service: the same two fields a user is made of.
pub struct UserData {
    pub email: String,
    pub username: String,
}

impl View for UserData {
    type V = UserView;

    open spec fn view(&self) -> UserView {
        UserView { email: self.email@, username: self.username@ }
    }
}

} // verus!
