//! The values that the API hands out, and how each is read from what the
//! authorization server sent.

pub mod access_token;
pub mod credential;
pub mod organization;

pub use access_token::AccessToken;
pub use credential::Credential;
pub use organization::Organization;
