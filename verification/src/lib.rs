//! A small identity subsystem: users with validated credentials and hashed
//! passwords, a storage interface with an in-memory backend, and the request
//! logic that turns storage results into outward statuses.

pub mod configuration;
pub mod data_access;
pub mod error;
pub mod handlers;
pub mod hashing;
pub mod text;
pub mod unicode;
pub mod user;
pub mod validation;

pub use crate::configuration::{Config, DatabaseConfiguration, KafkaConfiguration};
pub use crate::data_access::{DataAccess, InMemoryDataAccess, InsertOutcome, UserRecord};
pub use crate::error::{ApplicationError, ApplicationErrorView};
pub use crate::handlers::{
    get_user_details, login, register_user, AppState, LoginRequest, RegisterUserRequest, Reply,
    Status,
};
pub use crate::user::{User, UserDetails, UserDetailsView, UserDto, UserDtoView, UserView};
