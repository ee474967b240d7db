use vstd::prelude::*;

use crate::user::{User, UserView};

verus! {

/// Whether some stored user carries the given email.
pub open spec fn contains_email(users: Seq<UserView>, email: Seq<char>) -> bool {
    exists|i: int| 0 <= i < users.len() && users[i].email == email
}

/// The repository invariant: at most one stored user per distinct email.
pub open spec fn unique_emails(users: Seq<UserView>) -> bool {
    forall|i: int, j: int| 0 <= i < j < users.len() ==> users[i].email != users[j].email
}

/// The first stored user with the given email, if any.
pub open spec fn find_user(users: Seq<UserView>, email: Seq<char>) -> Option<UserView>
    decreases users.len(),
{
    if users.len() == 0 {
        None
    } else if users[0].email == email {
        Some(users[0])
    } else {
        find_user(users.drop_first(), email)
    }
}

/// The storage contract. `users` is the abstract state: the stored users in
/// insertion order. The store is append-only in this scope: there is no
/// update-in-place and no delete.
pub trait UserRepository: Sized {
    /// The stored users, in insertion order.
    spec fn users(&self) -> Seq<UserView>;

    /// Appends `user`. Saving an email that is already present is a contract
    /// breach, not a recoverable error, so the precondition excludes it;
    /// unverified callers must check first and treat a violation as fatal.
    fn save(&mut self, user: User)
        requires
            !contains_email(old(self).users(), user@.email),
        ensures
            final(self).users() == old(self).users().push(user@),
    ;

    /// A copy of the first (by the invariant, only) stored user with this
    /// email, or `None` if the email was never saved. Does not mutate the
    /// store.
    fn find_by_email(&self, email: String) -> (r: Option<User>)
        ensures
            r is Some <==> contains_email(self.users(), email@),
            r matches Some(u) ==> find_user(self.users(), email@) == Some(u@),
    ;

    /// Copies of every stored user, in insertion order; callers may freely
    /// mutate the returned copies without affecting the store.
    fn get_all(&self) -> (r: Vec<User>)
        ensures
            r@.map_values(|u: User| u@) == self.users(),
    ;
}

/// The process-local realization of the contract, backed by a growable
/// vector.
pub struct ConcreteUserRepository {
    users: Vec<User>,
}

impl ConcreteUserRepository {
    /// Starts empty; no configuration parameters.
    pub fn new() -> (r: ConcreteUserRepository)
        ensures
            r.users() == Seq::<UserView>::empty(),
    {
        ConcreteUserRepository { users: Vec::new() }
    }
}

impl UserRepository for ConcreteUserRepository {
    closed spec fn users(&self) -> Seq<UserView> {
        self.users@.map_values(|u: User| u@)
    }

    fn save(&mut self, user: User) {
        self.users.push(user);
        proof {
            assert(self.users() =~= old(self).users().push(user@));
        }
    }

    fn find_by_email(&self, email: String) -> (r: Option<User>) {
        let mut i: usize = 0;
        while i < self.users.len()
            invariant
                i <= self.users.len(),
                forall|j: int| 0 <= j < i ==> self.users()[j].email != email@,
            decreases self.users.len() - i,
        {
            if self.users[i].email == email {
                proof {
                    lemma_find_user_at_first_match(self.users(), email@, i as int);
                }
                return Some(self.users[i].clone());
            }
            i += 1;
        }
        None
    }

    fn get_all(&self) -> (r: Vec<User>) {
        let mut r: Vec<User> = Vec::new();
        let mut i: usize = 0;
        while i < self.users.len()
            invariant
                i <= self.users.len(),
                r@.len() == i,
                forall|j: int| 0 <= j < i ==> r@[j]@ == self.users()[j],
            decreases self.users.len() - i,
        {
            r.push(self.users[i].clone());
            i += 1;
        }
        proof {
            assert(r@.map_values(|u: User| u@) =~= self.users());
        }
        r
    }
}

/// Constructs a fresh, empty concrete repository, ready to be injected into
/// the service.
pub fn user_repo_factory() -> (r: ConcreteUserRepository)
    ensures
        r.users() == Seq::<UserView>::empty(),
{
    ConcreteUserRepository::new()
}

/// `find_user` picks the match at the first index whose email agrees.
pub proof fn lemma_find_user_at_first_match(users: Seq<UserView>, email: Seq<char>, i: int)
    requires
        0 <= i < users.len(),
        users[i].email == email,
        forall|j: int| 0 <= j < i ==> users[j].email != email,
    ensures
        find_user(users, email) == Some(users[i]),
    decreases i,
{
    if i > 0 {
        lemma_find_user_at_first_match(users.drop_first(), email, i - 1);
    }
}

/// The abstract state reached from `init` by a run of successful saves, one
/// per element of `us` in order; each save appends its user, as the
/// repository contract ensures.
pub open spec fn after_saves(init: Seq<UserView>, us: Seq<UserView>) -> Seq<UserView>
    decreases us.len(),
{
    if us.len() == 0 {
        init
    } else {
        after_saves(init.push(us[0]), us.drop_first())
    }
}

/// Listing is complete and ordered: a repository built from empty by
/// successful saves of `u1, u2, ..., un` holds exactly `[u1, u2, ..., un]` —
/// no omissions, no duplicates, insertion order kept — and `get_all` returns
/// precisely that sequence of users.
pub proof fn lemma_saves_build_the_list(us: Seq<UserView>)
    ensures
        after_saves(Seq::<UserView>::empty(), us) == us,
{
    lemma_after_saves_appends(Seq::<UserView>::empty(), us);
    assert(Seq::<UserView>::empty() + us =~= us);
}

/// A run of successful saves appends its users, in order, to whatever was
/// stored before it.
pub proof fn lemma_after_saves_appends(init: Seq<UserView>, us: Seq<UserView>)
    ensures
        after_saves(init, us) == init + us,
    decreases us.len(),
{
    if us.len() == 0 {
        assert(init + us =~= init);
    } else {
        lemma_after_saves_appends(init.push(us[0]), us.drop_first());
        assert(init.push(us[0]) + us.drop_first() =~= init + us);
    }
}

/// Uniqueness is preserved by every save the contract admits: appending a
/// user whose email is absent keeps all stored emails pairwise distinct.
pub proof fn lemma_save_preserves_uniqueness(users: Seq<UserView>, u: UserView)
    requires
        unique_emails(users),
        !contains_email(users, u.email),
    ensures
        unique_emails(users.push(u)),
{
}

/// In a repository with pairwise-distinct emails, looking up the email of a
/// stored user finds exactly that user.
pub proof fn lemma_find_saved_user(users: Seq<UserView>, u: UserView)
    requires
        unique_emails(users),
        users.contains(u),
    ensures
        find_user(users, u.email) == Some(u),
{
    let i = choose|i: int| 0 <= i < users.len() && users[i] == u;
    assert(forall|j: int| 0 <= j < i ==> users[j].email != u.email);
    lemma_find_user_at_first_match(users, u.email, i);
}

/// Looking up an email that was never saved finds nothing.
pub proof fn lemma_find_unsaved_email(users: Seq<UserView>, email: Seq<char>)
    requires
        !contains_email(users, email),
    ensures
        find_user(users, email) == None::<UserView>,
    decreases users.len(),
{
    if users.len() > 0 {
        assert(!contains_email(users.drop_first(), email)) by {
            assert(forall|i: int| 0 <= i < users.len() ==> users[i].email != email);
            assert(forall|i: int| 0 <= i < users.drop_first().len()
                ==> users.drop_first()[i] == users[i + 1]);
        }
        lemma_find_unsaved_email(users.drop_first(), email);
    }
}

} // verus!
