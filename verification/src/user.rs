//! The user aggregate: identity fields, a membership tier, and the
//! operations that create, read and change a user.

use crate::error::{ApplicationError, ApplicationErrorView};
use crate::hashing::{
    hash, hash_failure_message, hashing_can_fail, is_hash_of, verification_outcome, verify,
};
use crate::text::{decimal, decimal_text, is_lowercase_form, lowercase_text, lowercased, lemma_lowercased_is_lowercase};
use crate::validation::{
    invalid_email_message, is_email_address, lemma_lowercased_email_is_an_email,
    password_rejection,
};
use vstd::prelude::*;

verus! {

/// What is known of a user. The password field holds the hashed form.
#[derive(Debug)]
pub struct UserDetails {
    email_address: String,
    password: String,
    age: Option<i32>,
    name: String,
}

/// Mathematical value of [`UserDetails`].
pub struct UserDetailsView {
    pub email_address: Seq<char>,
    pub password: Seq<char>,
    pub age: Option<i32>,
    pub name: Seq<char>,
}

impl View for UserDetails {
    type V = UserDetailsView;

    closed spec fn view(&self) -> UserDetailsView {
        UserDetailsView {
            email_address: self.email_address@,
            password: self.password@,
            age: self.age,
            name: self.name@,
        }
    }
}

impl UserDetails {
    pub fn email_address(&self) -> (text: &str)
        ensures
            text@ == self@.email_address,
    {
        self.email_address.as_str()
    }

    pub fn name(&self) -> (text: &str)
        ensures
            text@ == self@.name,
    {
        self.name.as_str()
    }

    /// The stored password, which is a hash wherever the user was made by
    /// [`User::new`].
    pub fn password(&self) -> (text: &str)
        ensures
            text@ == self@.password,
    {
        self.password.as_str()
    }

    pub fn age(&self) -> (age: Option<i32>)
        ensures
            age == self@.age,
    {
        self.age
    }
}

impl Clone for UserDetails {
    fn clone(&self) -> (copy: UserDetails)
        ensures
            copy == *self,
    {
        UserDetails {
            email_address: self.email_address.clone(),
            password: self.password.clone(),
            age: self.age,
            name: self.name.clone(),
        }
    }
}

impl Default for UserDetails {
    /// Details with empty texts and no age.
    fn default() -> (details: UserDetails)
        ensures
            details@ == (UserDetailsView {
                email_address: Seq::empty(),
                password: Seq::empty(),
                age: None,
                name: Seq::empty(),
            }),
    {
        UserDetails { email_address: String::new(), password: String::new(), age: None, name: String::new() }
    }
}

/// A user of one of two tiers. Both carry the same details; a premium user
/// also carries its flag.
#[derive(Debug)]
pub enum User {
    Standard { user_details: UserDetails },
    Premium { user_details: UserDetails, is_premium: bool },
}

/// Mathematical value of a [`User`].
pub enum UserView {
    Standard { details: UserDetailsView },
    Premium { details: UserDetailsView, is_premium: bool },
}

impl UserView {
    /// The details, whatever the tier.
    pub open spec fn details(self) -> UserDetailsView {
        match self {
            UserView::Standard { details } => details,
            UserView::Premium { details, .. } => details,
        }
    }

    /// The same user with other details.
    pub open spec fn with_details(self, details: UserDetailsView) -> UserView {
        match self {
            UserView::Standard { .. } => UserView::Standard { details },
            UserView::Premium { is_premium, .. } => UserView::Premium { details, is_premium },
        }
    }

    /// The user after an upgrade: a standard user becomes premium with the
    /// same details, a premium user stays as it is.
    pub open spec fn upgraded(self) -> UserView {
        match self {
            UserView::Standard { details } => UserView::Premium { details, is_premium: true },
            UserView::Premium { .. } => self,
        }
    }

    /// The words with which the user introduces itself.
    pub open spec fn greeting(self) -> Seq<char> {
        match self {
            UserView::Standard { details } => "Hello! I'm "@ + details.name
                + ". I'm a standard user."@,
            UserView::Premium { details, .. } => "Hello! I'm "@ + details.name
                + ". I'm a premium user."@,
        }
    }

    /// What the user says of its age.
    pub open spec fn age_line(self) -> Seq<char> {
        match self.details().age {
            Some(age) => "I'm "@ + decimal(age as int) + " years old."@,
            None => "I don't know my age."@,
        }
    }

    /// The line that names the tier and the email address.
    pub open spec fn display(self) -> Seq<char> {
        match self {
            UserView::Standard { details } => "Standard User: "@ + details.email_address,
            UserView::Premium { details, .. } => "Premium User: "@ + details.email_address,
        }
    }
}

impl View for User {
    type V = UserView;

    open spec fn view(&self) -> UserView {
        match *self {
            User::Standard { user_details } => UserView::Standard { details: user_details@ },
            User::Premium { user_details, is_premium } => UserView::Premium {
                details: user_details@,
                is_premium,
            },
        }
    }
}

/// What rejects a registration before any hashing: the message for a
/// malformed email address, else the message of the first password rule
/// that is broken, else nothing.
pub open spec fn registration_rejection(email_address: Seq<char>, password: Seq<char>) -> Option<
    Seq<char>,
> {
    if !is_email_address(email_address) {
        Some(invalid_email_message())
    } else {
        password_rejection(password)
    }
}

impl User {
    /// The details, whatever the tier.
    pub open spec fn spec_details(self) -> UserDetails {
        match self {
            User::Standard { user_details } => user_details,
            User::Premium { user_details, .. } => user_details,
        }
    }

    /// Registers a user: checks the email address, then the password, then
    /// hashes the password. The new user is of the standard tier and has no
    /// age; its email address is stored in lowercase, which is again an
    /// email address.
    ///
    /// A rejected input is reported before anything is hashed, and no user
    /// comes back with an error. Where both checks pass, the only failure is
    /// that of the hasher, which gives nothing under the salt that was drawn.
    pub fn new(email_address: &str, name: &str, password: &str) -> (r: Result<
        User,
        ApplicationError,
    >)
        ensures
            match r {
                Ok(user) => {
                    &&& registration_rejection(email_address@, password@) is None
                    &&& user@ matches UserView::Standard { details }
                    &&& details.email_address == lowercased(email_address@)
                    &&& is_email_address(details.email_address)
                    &&& is_lowercase_form(details.email_address)
                    &&& details.name == name@
                    &&& details.age is None
                    &&& is_hash_of(details.password, password@)
                },
                Err(e) => match registration_rejection(email_address@, password@) {
                    Some(message) => e@ == ApplicationErrorView::ApplicationError(message),
                    None => {
                        &&& hashing_can_fail(password@)
                        &&& e@ == ApplicationErrorView::ApplicationError(hash_failure_message())
                    },
                },
            },
    {
        match User::email_is_valid(email_address) {
            Ok(_) => {},
            Err(e) => {
                return Err(e);
            },
        }
        match User::password_is_valid(password) {
            Ok(_) => {},
            Err(e) => {
                return Err(e);
            },
        }
        proof {
            lemma_lowercased_email_is_an_email(email_address@);
            lemma_lowercased_is_lowercase(email_address@);
        }
        match hash(password) {
            Ok(hashed) => Ok(
                User::Standard {
                    user_details: UserDetails {
                        email_address: lowercase_text(email_address),
                        name: String::from_str(name),
                        age: None,
                        password: hashed,
                    },
                },
            ),
            Err(e) => Err(e),
        }
    }

    /// Rebuilds a user from what storage holds. Nothing is checked and
    /// nothing is hashed: `hashed_password` is taken as the stored hash.
    pub fn from(email_address: &str, name: &str, hashed_password: &str) -> (user: User)
        ensures
            user@ == (UserView::Standard {
                details: UserDetailsView {
                    email_address: email_address@,
                    password: hashed_password@,
                    age: None,
                    name: name@,
                },
            }),
    {
        User::Standard {
            user_details: UserDetails {
                email_address: String::from_str(email_address),
                name: String::from_str(name),
                age: None,
                password: String::from_str(hashed_password),
            },
        }
    }

    pub fn details(&self) -> (details: &UserDetails)
        ensures
            *details == self.spec_details(),
            details@ == self@.details(),
    {
        match self {
            User::Standard { user_details } => user_details,
            User::Premium { user_details, is_premium: _ } => user_details,
        }
    }

    pub fn email_address(&self) -> (text: String)
        ensures
            text@ == self@.details().email_address,
    {
        self.details().email_address.clone()
    }

    pub fn name(&self) -> (text: String)
        ensures
            text@ == self@.details().name,
    {
        self.details().name.clone()
    }

    /// The stored password, which is a hash wherever the user was made by
    /// [`User::new`].
    pub fn password(&self) -> (text: String)
        ensures
            text@ == self@.details().password,
    {
        self.details().password.clone()
    }

    pub fn age(&self) -> (age: Option<i32>)
        ensures
            age == self@.details().age,
    {
        self.details().age
    }

    /// Whether this user's email address is `email_address`.
    pub fn has_email_address(&self, email_address: &String) -> (same: bool)
        ensures
            same == (self@.details().email_address == email_address@),
    {
        self.details().email_address == *email_address
    }

    /// Whether the user is of the premium tier.
    pub fn is_premium(&self) -> (premium: bool)
        ensures
            premium == (self@ is Premium),
    {
        match self {
            User::Standard { .. } => false,
            User::Premium { .. } => true,
        }
    }

    /// Replaces the name and nothing else.
    pub fn update_name(&mut self, new_name: &str)
        ensures
            final(self)@ == old(self)@.with_details(
                UserDetailsView { name: new_name@, ..old(self)@.details() },
            ),
    {
        let user_details = match self {
            User::Standard { user_details } => user_details,
            User::Premium { user_details, is_premium: _ } => user_details,
        };
        user_details.name = String::from_str(new_name);
    }

    /// Sets the age and nothing else.
    pub fn update_age(&mut self, new_age: i32)
        ensures
            final(self)@ == old(self)@.with_details(
                UserDetailsView { age: Some(new_age), ..old(self)@.details() },
            ),
    {
        let user_details = match self {
            User::Standard { user_details } => user_details,
            User::Premium { user_details, is_premium: _ } => user_details,
        };
        user_details.age = Some(new_age);
    }

    /// Moves a standard user to the premium tier with the details it has;
    /// a premium user comes back unchanged.
    pub fn update_to_premium(self) -> (user: User)
        ensures
            user@ == self@.upgraded(),
            self is Premium ==> user == self,
    {
        match self {
            User::Standard { user_details } => User::Premium { user_details, is_premium: true },
            User::Premium { .. } => self,
        }
    }

    /// Verifies `password` against the stored hash.
    pub fn verify_password(&self, password: &str) -> (r: Result<(), ApplicationError>)
        ensures
            match r {
                Ok(_) => verification_outcome(self@.details().password, password@) is Ok,
                Err(e) => verification_outcome(self@.details().password, password@) == Err::<
                    (),
                    ApplicationErrorView,
                >(e@),
            },
    {
        verify(self.details().password.as_str(), password)
    }

    /// The words with which the user introduces itself: its name and its
    /// tier.
    pub fn greeting(&self) -> (line: String)
        ensures
            line@ == self@.greeting(),
    {
        match self {
            User::Standard { user_details } => String::from_str("Hello! I'm ").concat(
                user_details.name.as_str(),
            ).concat(". I'm a standard user."),
            User::Premium { user_details, is_premium: _ } => String::from_str(
                "Hello! I'm ",
            ).concat(user_details.name.as_str()).concat(". I'm a premium user."),
        }
    }

    /// What the user says of its age: the age in decimal digits where it is
    /// known.
    pub fn age_line(&self) -> (line: String)
        ensures
            line@ == self@.age_line(),
    {
        match self.details().age {
            Some(age) => String::from_str("I'm ").concat(decimal_text(age).as_str()).concat(
                " years old.",
            ),
            None => String::from_str("I don't know my age."),
        }
    }

    /// The line that names the tier and the email address.
    pub fn display(&self) -> (line: String)
        ensures
            line@ == self@.display(),
    {
        match self {
            User::Standard { user_details } => String::from_str("Standard User: ").concat(
                user_details.email_address.as_str(),
            ),
            User::Premium { user_details, is_premium: _ } => String::from_str(
                "Premium User: ",
            ).concat(user_details.email_address.as_str()),
        }
    }
}

impl Clone for User {
    fn clone(&self) -> (copy: User)
        ensures
            copy == *self,
    {
        match self {
            User::Standard { user_details } => User::Standard {
                user_details: user_details.clone(),
            },
            User::Premium { user_details, is_premium } => User::Premium {
                user_details: user_details.clone(),
                is_premium: *is_premium,
            },
        }
    }
}

impl Default for User {
    /// A standard user with empty details.
    fn default() -> (user: User)
        ensures
            user@ == (UserView::Standard {
                details: UserDetailsView {
                    email_address: Seq::empty(),
                    password: Seq::empty(),
                    age: None,
                    name: Seq::empty(),
                },
            }),
    {
        User::Standard { user_details: UserDetails::default() }
    }
}

impl PartialEq for User {
    /// Two users are the same user when their email addresses are equal,
    /// whatever their tiers and their other details.
    fn eq(&self, other: &User) -> (same: bool) {
        self.details().email_address == other.details().email_address
    }
}

impl vstd::std_specs::cmp::PartialEqSpecImpl for User {
    open spec fn obeys_eq_spec() -> bool {
        true
    }

    open spec fn eq_spec(&self, other: &User) -> bool {
        self@.details().email_address == other@.details().email_address
    }
}

/// What of a user is shown to the outside: everything but the password.
#[derive(Debug)]
pub struct UserDto {
    pub email_address: String,
    pub name: String,
    pub age: Option<i32>,
    pub is_premium: bool,
}

/// Mathematical value of a [`UserDto`].
pub struct UserDtoView {
    pub email_address: Seq<char>,
    pub name: Seq<char>,
    pub age: Option<i32>,
    pub is_premium: bool,
}

impl View for UserDto {
    type V = UserDtoView;

    open spec fn view(&self) -> UserDtoView {
        UserDtoView {
            email_address: self.email_address@,
            name: self.name@,
            age: self.age,
            is_premium: self.is_premium,
        }
    }
}

impl UserView {
    /// What of this user is shown to the outside. The flag tells the tier.
    pub open spec fn public_details(self) -> UserDtoView {
        UserDtoView {
            email_address: self.details().email_address,
            name: self.details().name,
            age: self.details().age,
            is_premium: self is Premium,
        }
    }
}

impl From<User> for UserDto {
    fn from(user: User) -> (dto: UserDto)
        ensures
            dto@ == user@.public_details(),
    {
        match user {
            User::Standard { user_details } => UserDto {
                email_address: user_details.email_address,
                name: user_details.name,
                age: user_details.age,
                is_premium: false,
            },
            User::Premium { user_details, is_premium: _ } => UserDto {
                email_address: user_details.email_address,
                name: user_details.name,
                age: user_details.age,
                is_premium: true,
            },
        }
    }
}

impl vstd::std_specs::convert::FromSpecImpl<User> for UserDto {
    open spec fn obeys_from_spec() -> bool {
        true
    }

    closed spec fn from_spec(user: User) -> UserDto {
        UserDto {
            email_address: user.spec_details().email_address,
            name: user.spec_details().name,
            age: user.spec_details().age,
            is_premium: user is Premium,
        }
    }
}

/// Upgrading twice is upgrading once: the second upgrade changes neither the
/// tier nor the details.
pub proof fn lemma_upgrade_is_idempotent(user: UserView)
    ensures
        user.upgraded().upgraded() == user.upgraded(),
        user.upgraded() is Premium,
        user.upgraded().details() == user.details(),
{
}

} // verus!
