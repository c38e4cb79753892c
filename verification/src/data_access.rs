//! The storage interface, its in-memory backend, and the rules by which the
//! answers of a relational backend become results of the interface.

use crate::error::{ApplicationError, ApplicationErrorView};
use crate::user::{User, UserDetailsView, UserView};
use vstd::prelude::*;

verus! {

/// What a lookup found, as a mathematical value.
pub open spec fn found_view(found: Result<User, ApplicationError>) -> Result<
    UserView,
    ApplicationErrorView,
> {
    match found {
        Ok(user) => Ok(user@),
        Err(error) => Err(error@),
    }
}

/// How a step without a value ended, as a mathematical value.
pub open spec fn done_view(done: Result<(), ApplicationError>) -> Result<
    (),
    ApplicationErrorView,
> {
    match done {
        Ok(_) => Ok(()),
        Err(error) => Err(error@),
    }
}

/// What the rest of the system asks of a store of users.
///
/// The interface itself promises nothing about what a backend holds: a
/// backend may be shared with other writers, and a test double may store
/// nothing at all. Each backend says in [`DataAccess::finds`] and
/// [`DataAccess::stores`] what it does promise, and whoever runs on a
/// backend gets exactly that.
pub trait DataAccess {
    /// What this backend promises of a lookup of `email_address` that
    /// answers `found`. A backend that does not say so promises nothing.
    open spec fn finds(
        &self,
        email_address: Seq<char>,
        found: Result<UserView, ApplicationErrorView>,
    ) -> bool {
        true
    }

    /// What this backend promises of storing `user` where the store answers
    /// `stored` and the backend is `after` afterwards. A backend that does
    /// not say so promises nothing.
    open spec fn stores(
        &self,
        after: &Self,
        user: UserView,
        stored: Result<(), ApplicationErrorView>,
    ) -> bool {
        true
    }

    /// The user registered under `email_address`, or `UserDoesNotExist`.
    fn with_email_address(&self, email_address: &str) -> (found: Result<User, ApplicationError>)
        ensures
            self.finds(email_address@, found_view(found)),
    ;

    /// Persists the user's email address, name and hashed password.
    fn store(&mut self, user: User) -> (stored: Result<(), ApplicationError>)
        ensures
            old(self).stores(final(self), user@, done_view(stored)),
    ;
}

/// `users[i]` is the first user with the email address `email_address`.
pub open spec fn is_first_with_email(users: Seq<UserView>, email_address: Seq<char>, i: int) -> bool {
    &&& 0 <= i < users.len()
    &&& users[i].details().email_address == email_address
    &&& forall|j: int| 0 <= j < i ==> (#[trigger] users[j]).details().email_address != email_address
}

/// Some user has the email address `email_address`.
pub open spec fn holds_email(users: Seq<UserView>, email_address: Seq<char>) -> bool {
    exists|i: int| 0 <= i < users.len() && (#[trigger] users[i]).details().email_address == email_address
}

/// No two users share an email address.
pub open spec fn emails_are_distinct(users: Seq<UserView>) -> bool {
    forall|i: int, j: int|
        0 <= i < j < users.len() ==> (#[trigger] users[i]).details().email_address != (
        #[trigger] users[j]).details().email_address
}

/// A store that keeps its users in memory, in the order in which they were
/// stored. It does not reject a second user with the same email address; a
/// lookup then finds the one stored first.
pub struct InMemoryDataAccess {
    users: Vec<User>,
}

impl View for InMemoryDataAccess {
    type V = Seq<UserView>;

    closed spec fn view(&self) -> Seq<UserView> {
        self.users@.map_values(|user: User| user@)
    }
}

impl InMemoryDataAccess {
    /// An empty store.
    pub fn new() -> (store: InMemoryDataAccess)
        ensures
            store@ == Seq::<UserView>::empty(),
    {
        let store = InMemoryDataAccess { users: Vec::new() };
        assert(store@ =~= Seq::<UserView>::empty());
        store
    }

    /// The number of users stored.
    pub fn len(&self) -> (count: usize)
        ensures
            count == self@.len(),
    {
        self.users.len()
    }
}

impl DataAccess for InMemoryDataAccess {
    /// A lookup answers with the first user stored under the address, and
    /// with `UserDoesNotExist` where there is none.
    open spec fn finds(
        &self,
        email_address: Seq<char>,
        found: Result<UserView, ApplicationErrorView>,
    ) -> bool {
        match found {
            Ok(user) => exists|i: int|
                is_first_with_email(self@, email_address, i) && #[trigger] self@[i] == user,
            Err(error) => !holds_email(self@, email_address) && error
                == ApplicationErrorView::UserDoesNotExist,
        }
    }

    /// A store always succeeds and appends the user: nothing stored before
    /// is changed or lost.
    open spec fn stores(
        &self,
        after: &Self,
        user: UserView,
        stored: Result<(), ApplicationErrorView>,
    ) -> bool {
        stored is Ok && after@ == self@.push(user)
    }

    fn with_email_address(&self, email_address: &str) -> (found: Result<User, ApplicationError>) {
        let wanted = String::from_str(email_address);
        let mut i: usize = 0;
        while i < self.users.len()
            invariant
                i <= self.users.len(),
                wanted@ == email_address@,
                forall|j: int|
                    0 <= j < i ==> (#[trigger] self@[j]).details().email_address
                        != email_address@,
            decreases self.users.len() - i,
        {
            assert(self@[i as int] == self.users@[i as int]@);
            if self.users[i].has_email_address(&wanted) {
                let user = self.users[i].clone();
                assert(is_first_with_email(self@, email_address@, i as int));
                return Ok(user);
            }
            i += 1;
        }
        Err(ApplicationError::UserDoesNotExist)
    }

    fn store(&mut self, user: User) -> (stored: Result<(), ApplicationError>) {
        self.users.push(user);
        assert(self@ =~= old(self)@.push(user@));
        Ok(())
    }
}

/// Among users with distinct email addresses every one is found under its
/// own address: no write hides another.
pub proof fn lemma_distinct_users_are_found(users: Seq<UserView>, i: int)
    requires
        emails_are_distinct(users),
        0 <= i < users.len(),
    ensures
        is_first_with_email(users, users[i].details().email_address, i),
{
}

/// A user stored under an address that the store did not hold yet is the
/// one that a lookup of that address finds, and what was found before under
/// any other address is found still.
pub proof fn lemma_store_then_find(users: Seq<UserView>, user: UserView, other: Seq<char>, i: int)
    requires
        !holds_email(users, user.details().email_address),
    ensures
        is_first_with_email(
            users.push(user),
            user.details().email_address,
            users.len() as int,
        ),
        is_first_with_email(users, other, i) ==> is_first_with_email(users.push(user), other, i),
        other != user.details().email_address ==> (holds_email(users.push(user), other)
            <==> holds_email(users, other)),
{
    let after = users.push(user);
    assert forall|j: int| 0 <= j < users.len() implies (#[trigger] after[j]).details().email_address
        != user.details().email_address by {
        assert(after[j] == users[j]);
    }
    if is_first_with_email(users, other, i) {
        assert forall|j: int| 0 <= j < i implies (#[trigger] after[j]).details().email_address
            != other by {
            assert(after[j] == users[j]);
        }
    }
    if other != user.details().email_address {
        if holds_email(after, other) {
            let k = choose|k: int|
                0 <= k < after.len() && (#[trigger] after[k]).details().email_address == other;
            assert(k < users.len());
            assert(users[k] == after[k]);
        }
        if holds_email(users, other) {
            let k = choose|k: int|
                0 <= k < users.len() && (#[trigger] users[k]).details().email_address == other;
            assert(after[k] == users[k]);
        }
    }
}

/// A row of the `users` table.
#[derive(Debug)]
pub struct UserRecord {
    pub email_address: String,
    pub name: String,
    pub password: String,
}

/// Mathematical value of a [`UserRecord`].
pub struct UserRecordView {
    pub email_address: Seq<char>,
    pub name: Seq<char>,
    pub password: Seq<char>,
}

impl View for UserRecord {
    type V = UserRecordView;

    open spec fn view(&self) -> UserRecordView {
        UserRecordView {
            email_address: self.email_address@,
            name: self.name@,
            password: self.password@,
        }
    }
}

impl UserRecordView {
    /// The standard user that a row stands for. The stored password is taken
    /// as the hash; a row holds no age.
    pub open spec fn user(self) -> UserView {
        UserView::Standard {
            details: UserDetailsView {
                email_address: self.email_address,
                password: self.password,
                age: None,
                name: self.name,
            },
        }
    }
}

/// How an insert into the `users` table ended.
#[derive(Debug)]
pub enum InsertOutcome {
    /// The row was written.
    Inserted,
    /// The table already holds a row with this email address.
    DuplicateKey,
    /// The database could not be reached or refused the statement.
    Failed(String),
}

impl UserRecord {
    /// The row that persists `user`: its email address, name and hashed
    /// password.
    pub fn of(user: &User) -> (record: UserRecord)
        ensures
            record@ == (UserRecordView {
                email_address: user@.details().email_address,
                name: user@.details().name,
                password: user@.details().password,
            }),
    {
        UserRecord {
            email_address: user.email_address(),
            name: user.name(),
            password: user.password(),
        }
    }
}

/// Turns the answer to a select by email address into the result of a
/// lookup. A row becomes a user without any check, since it comes from the
/// system's own table. No row is `UserDoesNotExist`, and so is a failure of
/// the database: a lookup never reports anything else.
pub fn lookup_result(answer: Result<Option<UserRecord>, String>) -> (r: Result<
    User,
    ApplicationError,
>)
    ensures
        match r {
            Ok(user) => answer matches Ok(Some(record)) && user@ == record@.user(),
            Err(e) => !(answer matches Ok(Some(_))) && e@ == ApplicationErrorView::UserDoesNotExist,
        },
{
    match answer {
        Ok(Some(record)) => Ok(
            User::from(
                record.email_address.as_str(),
                record.name.as_str(),
                record.password.as_str(),
            ),
        ),
        Ok(None) => Err(ApplicationError::UserDoesNotExist),
        Err(_) => Err(ApplicationError::UserDoesNotExist),
    }
}

/// Turns the end of an insert into the result of a store: a violated
/// uniqueness constraint is `UserAlreadyExists`, any other failure is a
/// database error that carries the detail.
pub fn store_result(outcome: InsertOutcome) -> (r: Result<(), ApplicationError>)
    ensures
        match outcome {
            InsertOutcome::Inserted => r is Ok,
            InsertOutcome::DuplicateKey => r matches Err(e) && e@
                == ApplicationErrorView::UserAlreadyExists,
            InsertOutcome::Failed(detail) => r matches Err(e) && e@
                == ApplicationErrorView::DatabaseError(detail@),
        },
{
    match outcome {
        InsertOutcome::Inserted => Ok(()),
        InsertOutcome::DuplicateKey => Err(ApplicationError::UserAlreadyExists),
        InsertOutcome::Failed(detail) => Err(ApplicationError::DatabaseError(detail)),
    }
}

} // verus!
