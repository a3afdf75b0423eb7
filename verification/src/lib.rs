//! Credential lifecycle for machine-to-machine API clients of an organization.
//!
//! The authorization server is the system of record. This crate holds the
//! decisions around it: how a remote client record becomes a credential, how
//! a token exchange becomes an access token, and in which order the remote
//! calls and the lifecycle events of each operation follow one another.

pub mod error;
pub mod graphql;
pub mod id;
pub mod ory_client;
pub mod proto;
pub mod scope;
pub mod time;

use error::OperationError;
use id::Uuid;
use vstd::prelude::*;

verus! {

/// The header in which a request states the identity of its caller.
pub const USER_ID_HEADER: &'static str = "X-USER-ID";

/// The identity of the caller as the request states it, if it states one.
#[derive(Debug, Clone, Copy, PartialEq, Eq, Structural)]
pub struct UserID(pub Option<Uuid>);

impl UserID {
    /// The identity that a header value denotes.
    pub open spec fn spec_try_from(value: Seq<char>) -> Result<UserID, OperationError> {
        match Uuid::spec_parse(value) {
            Some(id) => Ok(UserID(Some(id))),
            None => Err(OperationError::InvalidIdentity),
        }
    }

    /// The identity of a request whose identity header holds `value`, if it
    /// has that header at all.
    pub open spec fn spec_from_header(value: Option<Seq<char>>) -> Result<UserID, OperationError> {
        match value {
            Some(value) => Self::spec_try_from(value),
            None => Ok(UserID(None)),
        }
    }

    /// Reads the identity that a header value denotes. A value that is no
    /// identifier is refused.
    pub fn try_from(value: &str) -> (r: Result<UserID, OperationError>)
        ensures
            r == Self::spec_try_from(value@),
    {
        match Uuid::parse_str(value) {
            Some(id) => Ok(UserID(Some(id))),
            None => Err(OperationError::InvalidIdentity),
        }
    }

    /// Reads the identity of a request from its identity header. A request
    /// without the header has no identity, which is no error here: the
    /// operations that need one refuse it.
    pub fn from_header(value: Option<&str>) -> (r: Result<UserID, OperationError>)
        ensures
            r == Self::spec_from_header(value.deep_view()),
    {
        match value {
            Some(value) => Self::try_from(value),
            None => Ok(UserID(None)),
        }
    }
}

/// What an operation knows of the request it serves.
#[derive(Debug, Clone, Copy, PartialEq, Eq, Structural)]
pub struct AppContext {
    pub user_id: Option<Uuid>,
}

impl AppContext {
    /// The context of a request made by `user_id`.
    #[must_use]
    pub fn new(user_id: Option<Uuid>) -> (r: Self)
        ensures
            r.user_id == user_id,
    {
        Self { user_id }
    }
}

} // verus!

