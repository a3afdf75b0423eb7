//! What can go wrong in an operation. Every error ends the operation it
//! occurred in; nothing is retried and nothing is rolled back.

use vstd::prelude::*;
use vstd::string::StringExecFns;

verus! {

/// A field of a response of the authorization server.
#[derive(Clone, Copy, Debug, PartialEq, Eq, Structural)]
pub enum Field {
    ClientId,
    ClientName,
    ClientSecret,
    Contacts,
    Contact,
    Owner,
    CreatedAt,
    AccessToken,
    TokenType,
    ExpiresIn,
}

impl Field {
    /// How the field is called in messages.
    pub open spec fn name_text(self) -> Seq<char> {
        match self {
            Field::ClientId => "client id"@,
            Field::ClientName => "client name"@,
            Field::ClientSecret => "client secret"@,
            Field::Contacts => "contact list"@,
            Field::Contact => "contact"@,
            Field::Owner => "owner"@,
            Field::CreatedAt => "created_at"@,
            Field::AccessToken => "access token"@,
            Field::TokenType => "token type"@,
            Field::ExpiresIn => "expires in"@,
        }
    }

    /// How the field is called in messages.
    pub fn name(&self) -> (r: &'static str)
        ensures
            r@ == self.name_text(),
    {
        match self {
            Field::ClientId => "client id",
            Field::ClientName => "client name",
            Field::ClientSecret => "client secret",
            Field::Contacts => "contact list",
            Field::Contact => "contact",
            Field::Owner => "owner",
            Field::CreatedAt => "created_at",
            Field::AccessToken => "access token",
            Field::TokenType => "token type",
            Field::ExpiresIn => "expires in",
        }
    }
}

/// Why a response of the authorization server could not be turned into a
/// value of this crate.
#[derive(Clone, Copy, Debug, PartialEq, Eq, Structural)]
pub enum MappingError {
    /// A required field is absent.
    Missing(Field),
    /// A field is present and cannot be read, or its value is out of range.
    Malformed(Field),
    /// The expiry lies past the dates that can be represented.
    Overflow,
}

impl MappingError {
    /// Whether the error names a field of the response.
    pub open spec fn names_field(self) -> bool {
        self is Missing || self is Malformed
    }

    /// The message of the error.
    pub open spec fn message_text(self) -> Seq<char> {
        match self {
            MappingError::Missing(field) => "no "@ + field.name_text(),
            MappingError::Malformed(field) => "invalid "@ + field.name_text(),
            MappingError::Overflow => "issue converting expires in to expires at"@,
        }
    }

    /// The message of the error, for the caller to read.
    pub fn message(&self) -> (r: String)
        ensures
            r@ == self.message_text(),
    {
        match self {
            MappingError::Missing(field) => "no ".to_owned().concat(field.name()),
            MappingError::Malformed(field) => "invalid ".to_owned().concat(field.name()),
            MappingError::Overflow => "issue converting expires in to expires at".to_owned(),
        }
    }
}

/// What a mapping hands back, with the value on success taken by its view.
pub open spec fn mapped<T: DeepView>(r: Result<T, MappingError>) -> Result<T::V, MappingError> {
    match r {
        Ok(value) => Ok(value.deep_view()),
        Err(e) => Err(e),
    }
}

/// Why an operation was abandoned.
#[derive(Clone, Debug, PartialEq, Eq)]
pub enum OperationError {
    /// The request carries no caller identity.
    MissingIdentity,
    /// The caller identity of the request is not an identifier.
    InvalidIdentity,
    /// The authorization server could not be reached or refused the call.
    RemoteCall(String),
    /// A response of the authorization server could not be read.
    Mapping(MappingError),
    /// The event channel refused a lifecycle event.
    EventPublish(String),
    /// The response handed in does not answer the call that is pending.
    UnexpectedResponse,
}

/// The mathematical content of an [`OperationError`].
pub enum OperationErrorView {
    MissingIdentity,
    InvalidIdentity,
    RemoteCall(Seq<char>),
    Mapping(MappingError),
    EventPublish(Seq<char>),
    UnexpectedResponse,
}

impl View for OperationError {
    type V = OperationErrorView;

    open spec fn view(&self) -> OperationErrorView {
        match self {
            OperationError::MissingIdentity => OperationErrorView::MissingIdentity,
            OperationError::InvalidIdentity => OperationErrorView::InvalidIdentity,
            OperationError::RemoteCall(message) => OperationErrorView::RemoteCall(message@),
            OperationError::Mapping(e) => OperationErrorView::Mapping(*e),
            OperationError::EventPublish(message) => OperationErrorView::EventPublish(message@),
            OperationError::UnexpectedResponse => OperationErrorView::UnexpectedResponse,
        }
    }
}

impl OperationErrorView {
    /// The message of the error. What a remote call or the event channel
    /// gave as its reason is passed on as it is.
    pub open spec fn message_text(self) -> Seq<char> {
        match self {
            OperationErrorView::MissingIdentity => "X-USER-ID header not found"@,
            OperationErrorView::InvalidIdentity => "X-USER-ID header is not an identifier"@,
            OperationErrorView::RemoteCall(message) => message,
            OperationErrorView::Mapping(e) => e.message_text(),
            OperationErrorView::EventPublish(message) => message,
            OperationErrorView::UnexpectedResponse => "response does not answer the pending action"@,
        }
    }
}

impl OperationError {
    /// The message of the error, for the caller to read.
    pub fn message(&self) -> (r: String)
        ensures
            r@ == self@.message_text(),
    {
        match self {
            OperationError::MissingIdentity => "X-USER-ID header not found".to_owned(),
            OperationError::InvalidIdentity => "X-USER-ID header is not an identifier".to_owned(),
            OperationError::RemoteCall(message) => message.clone(),
            OperationError::Mapping(e) => e.message(),
            OperationError::EventPublish(message) => message.clone(),
            OperationError::UnexpectedResponse => {
                "response does not answer the pending action".to_owned()
            },
        }
    }
}

} // verus!
