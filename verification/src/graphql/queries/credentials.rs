//! Looking a credential up by its identifier.

use crate::error::{OperationError, OperationErrorView};
use crate::graphql::objects::credential::{
    map_credential, to_credential, Credential, CredentialView,
};
use crate::graphql::step::{Action, ActionView, Response, ResponseView};
use crate::ory_client::{Client, ClientView};
use vstd::prelude::*;

verus! {

/// How far a lookup has come.
#[derive(Debug, Clone, PartialEq, Eq)]
pub enum FindCredentialState {
    /// Nothing has been asked of anyone yet.
    Start { client_id: String },
    /// The client is being fetched.
    Fetching,
    /// The operation has returned or failed.
    Finished,
}

/// The mathematical content of a [`FindCredentialState`].
pub enum FindCredentialStateView {
    Start { client_id: Seq<char> },
    Fetching,
    Finished,
}

impl View for FindCredentialState {
    type V = FindCredentialStateView;

    open spec fn view(&self) -> FindCredentialStateView {
        match self {
            FindCredentialState::Start { client_id } => FindCredentialStateView::Start {
                client_id: client_id@,
            },
            FindCredentialState::Fetching => FindCredentialStateView::Fetching,
            FindCredentialState::Finished => FindCredentialStateView::Finished,
        }
    }
}

/// A lookup that ends with an error.
pub open spec fn find_fail(e: OperationErrorView) -> (
    FindCredentialStateView,
    ActionView<CredentialView>,
) {
    (FindCredentialStateView::Finished, ActionView::Fail(e))
}

/// The next step of a lookup: the client is fetched, and the credential
/// that the record describes is returned. Nothing is changed and no event
/// is published.
pub open spec fn find_next(
    ory: ClientView,
    state: FindCredentialStateView,
    response: Option<ResponseView>,
) -> (FindCredentialStateView, ActionView<CredentialView>) {
    match (state, response) {
        (FindCredentialStateView::Start { client_id }, None) => (
            FindCredentialStateView::Fetching,
            ActionView::Call(ory.get_client(client_id)),
        ),
        (
            FindCredentialStateView::Fetching,
            Some(ResponseView::Client(client)),
        ) => match map_credential(client) {
            Err(e) => find_fail(OperationErrorView::Mapping(e)),
            Ok(credential) => (FindCredentialStateView::Finished, ActionView::Return(credential)),
        },
        (FindCredentialStateView::Fetching, Some(ResponseView::Failed(message))) => find_fail(
            OperationErrorView::RemoteCall(message),
        ),
        _ => find_fail(OperationErrorView::UnexpectedResponse),
    }
}

/// Takes the next step of a lookup.
pub fn find_credential(ory: &Client, state: FindCredentialState, response: Option<Response>) -> (r:
    (FindCredentialState, Action<Credential>))
    ensures
        (r.0@, r.1@) == find_next(ory@, state@, response.deep_view()),
{
    match (state, response) {
        (FindCredentialState::Start { client_id }, None) => {
            (FindCredentialState::Fetching, Action::Call(ory.get_client(client_id.as_str())))
        },
        (FindCredentialState::Fetching, Some(Response::Client(client))) => {
            match to_credential(&client) {
                Ok(credential) => (FindCredentialState::Finished, Action::Return(credential)),
                Err(e) => (FindCredentialState::Finished, Action::Fail(OperationError::Mapping(e))),
            }
        },
        (FindCredentialState::Fetching, Some(Response::Failed(message))) => {
            (FindCredentialState::Finished, Action::Fail(OperationError::RemoteCall(message)))
        },
        _ => (FindCredentialState::Finished, Action::Fail(OperationError::UnexpectedResponse)),
    }
}

/// The read operations on credentials.
#[derive(Default)]
pub struct Query;

impl Query {
    /// Takes the next step of the lookup of a credential by its identifier.
    pub fn find_credential_by_client_id(
        &self,
        ory: &Client,
        state: FindCredentialState,
        response: Option<Response>,
    ) -> (r: (FindCredentialState, Action<Credential>))
        ensures
            (r.0@, r.1@) == find_next(ory@, state@, response.deep_view()),
    {
        find_credential(ory, state, response)
    }
}

} // verus!
