//! User accounts, password login and session claims for a small HTTP backend.
//!
//! The library keeps the user store, the credential and permission rules and
//! the login state machine; every operation here is verified. Hashing,
//! identifier generation and the clock are reached through the trusted items
//! of `platform`.

pub mod auth;
pub mod platform;
pub mod store;
pub mod user;
pub mod users;

pub use auth::{google_auth, login, ApiError, Claims, GoogleAuthRequest, LoginGrant, LoginRequest, LoginResponse};
pub use store::{Database, StoreError, StoredUser};
pub use user::{CreateUserRequest, UpdateUserRequest, User, UserResponse};
pub use users::{create_user, get_user, list_users, set_superadmin, update_user};
