use vstd::prelude::*;

use crate::repository::{contains_email, UserRepository};
use crate::user::{User, UserData};

verus! {

/// The "register a new user" use case. It holds the injected repository and
/// converts the repository's unchecked duplicate-save precondition into a
/// checked, recoverable outcome: it looks the email up first and only then
/// writes.
pub struct RegisterUserApplicatioService<R: UserRepository> {
    pub user_repo: R,
}

impl<R: UserRepository> RegisterUserApplicatioService<R> {
    /// Wraps the injected repository; the service holds no other state.
    pub fn new(user_repo: R) -> (s: Self)
        ensures
            s.user_repo == user_repo,
    {
        RegisterUserApplicatioService { user_repo }
    }

    /// Check-then-write. If the email is already stored, the call returns
    /// the recoverable "already exists" failure and leaves the repository
    /// unchanged; otherwise it appends the new user and reports success.
    pub fn execute(&mut self, data: UserData) -> (r: Result<bool, &'static str>)
        ensures
            contains_email(old(self).user_repo.users(), data@.email) ==> ({
                &&& r matches Err(m) && m@ == "User already exist"@
                &&& final(self).user_repo.users() == old(self).user_repo.users()
            }),
            !contains_email(old(self).user_repo.users(), data@.email) ==> ({
                &&& r == Ok::<bool, &'static str>(true)
                &&& final(self).user_repo.users() == old(self).user_repo.users().push(data@)
            }),
    {
        let possible_user = self.user_repo.find_by_email(data.email.clone());
        if possible_user.is_some() {
            return Err("User already exist");
        }
        self.user_repo.save(User::new(data.email, data.username));
        Ok(true)
    }
}

} // verus!
