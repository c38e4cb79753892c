//! The three requests: register, login, and get a user by email address.
//!
//! Each request is a fixed sequence of steps. What a step decides from the
//! result of the step before is a function of its own here, so that a caller
//! that must wait for its storage between the steps can take them one by
//! one; the functions that take a [`DataAccess`] run the whole sequence.

use crate::data_access::{
    done_view, found_view, holds_email, is_first_with_email, DataAccess, InMemoryDataAccess,
};
use crate::error::{ApplicationError, ApplicationErrorView};
use crate::hashing::{argon2_accepts, hashing_can_fail, is_hash_of, verification_outcome};
use crate::text::{lowercase_text, lowercased};
use crate::user::{registration_rejection, User, UserDto, UserDtoView, UserView};
use vstd::prelude::*;

verus! {

/// The body of a registration request.
#[derive(Debug)]
pub struct RegisterUserRequest {
    pub email_address: String,
    pub password: String,
    pub name: String,
}

/// The body of a login request.
#[derive(Debug)]
pub struct LoginRequest {
    pub email_address: String,
    pub password: String,
}

/// What the handlers share: the storage backend.
pub struct AppState<TDataAccess: DataAccess> {
    pub data_access: TDataAccess,
}

/// The outward signal of a reply.
#[derive(Debug, Clone, Copy, PartialEq, Eq, Structural)]
pub enum Status {
    Success,
    Created,
    Unauthorized,
    NotFound,
    InternalServerError,
}

impl Status {
    /// The HTTP status code of this signal.
    pub open spec fn spec_code(self) -> u16 {
        match self {
            Status::Success => 200,
            Status::Created => 201,
            Status::Unauthorized => 401,
            Status::NotFound => 404,
            Status::InternalServerError => 500,
        }
    }

    /// The HTTP status code of this signal.
    pub fn code(&self) -> (code: u16)
        ensures
            code == self.spec_code(),
    {
        match self {
            Status::Success => 200,
            Status::Created => 201,
            Status::Unauthorized => 401,
            Status::NotFound => 404,
            Status::InternalServerError => 500,
        }
    }
}

/// The answer to a request: a status and, on success, the public details of
/// the user. The password, hashed or not, is never part of it, and neither
/// is the detail of an error.
#[derive(Debug)]
pub struct Reply {
    pub status: Status,
    pub body: Option<UserDto>,
}

/// Mathematical value of a [`Reply`].
pub struct ReplyView {
    pub status: Status,
    pub body: Option<UserDtoView>,
}

impl View for Reply {
    type V = ReplyView;

    open spec fn view(&self) -> ReplyView {
        ReplyView {
            status: self.status,
            body: match self.body {
                Some(dto) => Some(dto@),
                None => None,
            },
        }
    }
}

/// The signal for an error: a missing user is not found, a wrong password
/// is unauthorized, and everything else is an internal error.
pub open spec fn status_of_error(error: ApplicationErrorView) -> Status {
    match error {
        ApplicationErrorView::UserDoesNotExist => Status::NotFound,
        ApplicationErrorView::IncorrectPassword => Status::Unauthorized,
        _ => Status::InternalServerError,
    }
}

/// The reply that reports `error`: its signal and no body.
pub open spec fn failure(error: ApplicationErrorView) -> ReplyView {
    ReplyView { status: status_of_error(error), body: None }
}

/// The reply that shows `user` under `status`.
pub open spec fn success(status: Status, user: UserView) -> ReplyView {
    ReplyView { status, body: Some(user.public_details()) }
}

/// The reply to a registration whose user was built, given how storing it
/// ended.
pub open spec fn registration_reply(user: UserView, stored: Result<(), ApplicationErrorView>) -> ReplyView {
    match stored {
        Ok(_) => success(Status::Created, user),
        Err(error) => failure(error),
    }
}

/// The reply to a login, given what the lookup found and, for a user that
/// was found, how verifying the password ended.
pub open spec fn login_reply(
    found: Result<UserView, ApplicationErrorView>,
    verified: Result<(), ApplicationErrorView>,
) -> ReplyView {
    match found {
        Ok(user) => match verified {
            Ok(_) => success(Status::Success, user),
            Err(error) => failure(error),
        },
        Err(error) => failure(error),
    }
}

/// The reply to a request for a user's details, given what the lookup
/// found.
pub open spec fn details_reply(found: Result<UserView, ApplicationErrorView>) -> ReplyView {
    match found {
        Ok(user) => success(Status::Success, user),
        Err(error) => failure(error),
    }
}

/// The signal for an error.
pub fn status_for(error: &ApplicationError) -> (status: Status)
    ensures
        status == status_of_error(error@),
{
    match error {
        ApplicationError::UserDoesNotExist => Status::NotFound,
        ApplicationError::IncorrectPassword => Status::Unauthorized,
        _ => Status::InternalServerError,
    }
}

/// The reply that reports `error`.
pub fn reply_to_error(error: &ApplicationError) -> (reply: Reply)
    ensures
        reply@ == failure(error@),
{
    Reply { status: status_for(error), body: None }
}

/// The reply that shows `user` under `status`.
pub fn reply_with_user(status: Status, user: User) -> (reply: Reply)
    ensures
        reply@ == success(status, user@),
{
    Reply { status, body: Some(UserDto::from(user)) }
}

/// The last step of a registration: the reply for a user that was built,
/// given how storing it ended.
pub fn register_stored(user: User, stored: Result<(), ApplicationError>) -> (reply: Reply)
    ensures
        reply@ == registration_reply(user@, done_view(stored)),
{
    match stored {
        Ok(_) => reply_with_user(Status::Created, user),
        Err(error) => reply_to_error(&error),
    }
}

/// The last step of a login for a user that was found: the reply, given how
/// verifying the password ended.
pub fn login_verified(user: User, verified: Result<(), ApplicationError>) -> (reply: Reply)
    ensures
        reply@ == login_reply(Ok(user@), done_view(verified)),
{
    match verified {
        Ok(_) => reply_with_user(Status::Success, user),
        Err(error) => reply_to_error(&error),
    }
}

/// The reply to a login whose lookup found `found`: a user that was not
/// found is reported as the lookup reported it; for one that was found the
/// password decides.
pub open spec fn login_reply_for(found: Result<UserView, ApplicationErrorView>, password: Seq<char>) -> ReplyView {
    match found {
        Ok(user) => login_reply(
            Ok(user),
            verification_outcome(user.details().password, password),
        ),
        Err(error) => failure(error),
    }
}

/// `user` is what a registration of `payload` builds: a standard user with
/// the payload's email address in lowercase, the payload's name, no age, and
/// a hash of the payload's password.
pub open spec fn is_registered_from(user: UserView, payload: RegisterUserRequest) -> bool {
    &&& user matches UserView::Standard { details }
    &&& details.email_address == lowercased(payload.email_address@)
    &&& details.name == payload.name@
    &&& details.age is None
    &&& is_hash_of(details.password, payload.password@)
}

/// The steps of a login after the lookup: a user that was not found is
/// reported as the lookup reported it; for one that was found the password
/// is verified against the stored hash.
pub fn login_found(found: Result<User, ApplicationError>, password: &str) -> (reply: Reply)
    ensures
        reply@ == login_reply_for(found_view(found), password@),
{
    match found {
        Ok(user) => {
            let verified = user.verify_password(password);
            login_verified(user, verified)
        },
        Err(error) => reply_to_error(&error),
    }
}

/// The reply to a request for a user's details, given what the lookup
/// found.
pub fn details_found(found: Result<User, ApplicationError>) -> (reply: Reply)
    ensures
        reply@ == details_reply(found_view(found)),
{
    match found {
        Ok(user) => reply_with_user(Status::Success, user),
        Err(error) => reply_to_error(&error),
    }
}

/// Registers a user: builds it from the request, stores it, and replies
/// with the created status and the user's public details.
///
/// A request that is rejected never reaches the store and is answered with
/// an internal error. A request that passes fails before the store only
/// where the hasher gives nothing under the salt that was drawn. Else the
/// user is stored as the backend promises, and the reply follows from the
/// result of the store.
pub fn register_user<TDataAccess: DataAccess>(
    state: &mut AppState<TDataAccess>,
    payload: &RegisterUserRequest,
) -> (reply: Reply)
    ensures
        reply@.body is Some <==> reply@.status == Status::Created,
        match registration_rejection(payload.email_address@, payload.password@) {
            Some(_) => {
                &&& reply@ == (ReplyView { status: Status::InternalServerError, body: None })
                &&& *final(state) == *old(state)
            },
            None => {
                ||| {
                    &&& hashing_can_fail(payload.password@)
                    &&& reply@ == (ReplyView { status: Status::InternalServerError, body: None })
                    &&& *final(state) == *old(state)
                }
                ||| exists|user: UserView, stored: Result<(), ApplicationErrorView>|
                    {
                        &&& is_registered_from(user, *payload)
                        &&& #[trigger] old(state).data_access.stores(
                            &final(state).data_access,
                            user,
                            stored,
                        )
                        &&& reply@ == registration_reply(user, stored)
                    }
            },
        },
{
    let built = User::new(
        payload.email_address.as_str(),
        payload.name.as_str(),
        payload.password.as_str(),
    );
    match built {
        Ok(user) => {
            let stored = state.data_access.store(user.clone());
            let ghost outcome = done_view(stored);
            let reply = register_stored(user, stored);
            assert(old(state).data_access.stores(&state.data_access, user@, outcome));
            reply
        },
        Err(error) => reply_to_error(&error),
    }
}

/// Logs a user in: looks the user up by email address and verifies the
/// password against the stored hash.
///
/// The address is looked up in lowercase, the form in which a registration
/// stores it. The lookup answers as the backend promises, and the reply
/// follows from its answer: details are shown only of a user that the
/// backend found and whose stored hash the password verified against.
pub fn login<TDataAccess: DataAccess>(state: &AppState<TDataAccess>, payload: &LoginRequest) -> (reply:
    Reply)
    ensures
        reply@.body is Some <==> reply@.status == Status::Success,
        exists|found: Result<UserView, ApplicationErrorView>|
            {
                &&& #[trigger] state.data_access.finds(
                    lowercased(payload.email_address@),
                    found,
                )
                &&& reply@ == login_reply_for(found, payload.password@)
            },
{
    let wanted = lowercase_text(payload.email_address.as_str());
    let found = state.data_access.with_email_address(wanted.as_str());
    let ghost seen = found_view(found);
    let reply = login_found(found, payload.password.as_str());
    assert(state.data_access.finds(lowercased(payload.email_address@), seen));
    reply
}

/// Shows the user registered under `email_address`.
///
/// The address is looked up in lowercase, the form in which a registration
/// stores it. The lookup answers as the backend promises, and the reply
/// follows from its answer.
pub fn get_user_details<TDataAccess: DataAccess>(
    state: &AppState<TDataAccess>,
    email_address: &str,
) -> (reply: Reply)
    ensures
        reply@.body is Some <==> reply@.status == Status::Success,
        exists|found: Result<UserView, ApplicationErrorView>|
            {
                &&& #[trigger] state.data_access.finds(lowercased(email_address@), found)
                &&& reply@ == details_reply(found)
            },
{
    let wanted = lowercase_text(email_address);
    let found = state.data_access.with_email_address(wanted.as_str());
    let ghost seen = found_view(found);
    let reply = details_found(found);
    assert(state.data_access.finds(lowercased(email_address@), seen));
    reply
}

/// On the in-memory backend, whoever asks for an email address that was
/// never stored is answered not-found and shown nothing, whether the request
/// is for the details or a login.
pub proof fn lemma_unknown_user_is_not_found(
    store: InMemoryDataAccess,
    email_address: Seq<char>,
    password: Seq<char>,
    found: Result<UserView, ApplicationErrorView>,
)
    requires
        !holds_email(store@, email_address),
        store.finds(email_address, found),
    ensures
        details_reply(found) == (ReplyView { status: Status::NotFound, body: None }),
        login_reply_for(found, password) == (ReplyView { status: Status::NotFound, body: None }),
{
}

/// On the in-memory backend, a user that was stored first under its email
/// address with a hash of its password logs in with that password and is
/// shown its public details; with a candidate that Argon2 does not accept
/// it is answered unauthorized and shown nothing.
pub proof fn lemma_login_follows_the_password(
    store: InMemoryDataAccess,
    i: int,
    email_address: Seq<char>,
    password: Seq<char>,
    candidate: Seq<char>,
    found: Result<UserView, ApplicationErrorView>,
)
    requires
        is_first_with_email(store@, email_address, i),
        is_hash_of(store@[i].details().password, password),
        store.finds(email_address, found),
    ensures
        found == Ok::<UserView, ApplicationErrorView>(store@[i]),
        details_reply(found) == success(Status::Success, store@[i]),
        login_reply_for(found, password) == success(Status::Success, store@[i]),
        !argon2_accepts(store@[i].details().password, candidate) ==> login_reply_for(
            found,
            candidate,
        ) == (ReplyView { status: Status::Unauthorized, body: None }),
{
    assert(holds_email(store@, email_address));
    let user = found->Ok_0;
    let j = choose|j: int| is_first_with_email(store@, email_address, j) && store@[j] == user;
    assert(j == i) by {
        if j < i {
            assert(store@[j].details().email_address != email_address);
        } else if i < j {
            assert(store@[i].details().email_address != email_address);
        }
    }
}

/// On the in-memory backend, a registration that stored its user under an
/// email address that the store did not hold is followed by lookups that
/// find exactly that user under the address.
pub proof fn lemma_registered_user_is_found(
    before: InMemoryDataAccess,
    after: InMemoryDataAccess,
    user: UserView,
    stored: Result<(), ApplicationErrorView>,
    found: Result<UserView, ApplicationErrorView>,
)
    requires
        before.stores(&after, user, stored),
        !holds_email(before@, user.details().email_address),
        after.finds(user.details().email_address, found),
    ensures
        registration_reply(user, stored) == success(Status::Created, user),
        found == Ok::<UserView, ApplicationErrorView>(user),
        details_reply(found) == success(Status::Success, user),
{
    let email_address = user.details().email_address;
    let last = before@.len() as int;
    assert(after@[last] == user);
    assert(holds_email(after@, email_address));
    let shown = found->Ok_0;
    let j = choose|j: int| is_first_with_email(after@, email_address, j) && after@[j] == shown;
    assert(j == last) by {
        if j < last {
            assert(before@[j] == after@[j]);
            assert(before@[j].details().email_address == email_address);
        }
    }
}

} // verus!
