//! Organizations and the credentials they own.

use crate::error::{OperationError, OperationErrorView};
use crate::graphql::objects::credential::{
    map_credentials, to_credentials, Credential, CredentialView,
};
use crate::graphql::queries::credentials::{
    find_credential, find_next, FindCredentialState,
};
use crate::graphql::step::{Action, ActionView, Response, ResponseView};
use crate::id::Uuid;
use crate::ory_client::{Client, ClientView};
use vstd::prelude::*;

verus! {

/// An organization, known by its identifier alone.
#[derive(Debug, Clone, Copy, PartialEq, Eq, Structural)]
pub struct Organization {
    pub id: Uuid,
}

/// How far a listing has come.
#[derive(Debug, Clone, PartialEq, Eq)]
pub enum ListCredentialsState {
    /// Nothing has been asked of anyone yet. `limit` is the size of the
    /// page and `offset` the token of the page, where the request gives
    /// them.
    Start { limit: Option<i64>, offset: Option<String> },
    /// The page is being fetched.
    Listing,
    /// The operation has returned or failed.
    Finished,
}

/// The mathematical content of a [`ListCredentialsState`].
pub enum ListCredentialsStateView {
    Start { limit: Option<i64>, offset: Option<Seq<char>> },
    Listing,
    Finished,
}

impl View for ListCredentialsState {
    type V = ListCredentialsStateView;

    open spec fn view(&self) -> ListCredentialsStateView {
        match self {
            ListCredentialsState::Start { limit, offset } => ListCredentialsStateView::Start {
                limit: *limit,
                offset: offset.deep_view(),
            },
            ListCredentialsState::Listing => ListCredentialsStateView::Listing,
            ListCredentialsState::Finished => ListCredentialsStateView::Finished,
        }
    }
}

/// A listing that ends with an error.
pub open spec fn list_fail(e: OperationErrorView) -> (
    ListCredentialsStateView,
    ActionView<Seq<CredentialView>>,
) {
    (ListCredentialsStateView::Finished, ActionView::Fail(e))
}

/// The next step of the listing of the credentials of an organization: one
/// page of the clients that the organization owns is fetched, the page size
/// and the page token going out as they came in, and the credentials that
/// the records describe are returned in the order of the records. One
/// record that cannot be read fails the listing.
pub open spec fn list_next(
    organization: Organization,
    ory: ClientView,
    state: ListCredentialsStateView,
    response: Option<ResponseView>,
) -> (ListCredentialsStateView, ActionView<Seq<CredentialView>>) {
    match (state, response) {
        (ListCredentialsStateView::Start { limit, offset }, None) => (
            ListCredentialsStateView::Listing,
            ActionView::Call(ory.list_clients(organization.id.text(), limit, offset)),
        ),
        (
            ListCredentialsStateView::Listing,
            Some(ResponseView::Clients(clients)),
        ) => match map_credentials(clients) {
            Err(e) => list_fail(OperationErrorView::Mapping(e)),
            Ok(credentials) => (
                ListCredentialsStateView::Finished,
                ActionView::Return(credentials),
            ),
        },
        (ListCredentialsStateView::Listing, Some(ResponseView::Failed(message))) => list_fail(
            OperationErrorView::RemoteCall(message),
        ),
        _ => list_fail(OperationErrorView::UnexpectedResponse),
    }
}

impl Organization {
    /// Takes the next step of the lookup of one credential by its
    /// identifier.
    pub fn credential(
        &self,
        ory: &Client,
        state: FindCredentialState,
        response: Option<Response>,
    ) -> (r: (FindCredentialState, Action<Credential>))
        ensures
            (r.0@, r.1@) == find_next(ory@, state@, response.deep_view()),
    {
        find_credential(ory, state, response)
    }

    /// Takes the next step of the listing of the credentials of this
    /// organization.
    pub fn credentials(
        &self,
        ory: &Client,
        state: ListCredentialsState,
        response: Option<Response>,
    ) -> (r: (ListCredentialsState, Action<Vec<Credential>>))
        ensures
            (r.0@, r.1@) == list_next(*self, ory@, state@, response.deep_view()),
    {
        match (state, response) {
            (ListCredentialsState::Start { limit, offset }, None) => {
                let owner = self.id.to_string();
                let page_token = match &offset {
                    Some(token) => Some(token.as_str()),
                    None => None,
                };
                let call = ory.list_clients(owner.as_str(), limit, page_token);
                (ListCredentialsState::Listing, Action::Call(call))
            },
            (ListCredentialsState::Listing, Some(Response::Clients(clients))) => {
                match to_credentials(&clients) {
                    Ok(credentials) => (
                        ListCredentialsState::Finished,
                        Action::Return(credentials),
                    ),
                    Err(e) => (
                        ListCredentialsState::Finished,
                        Action::Fail(OperationError::Mapping(e)),
                    ),
                }
            },
            (ListCredentialsState::Listing, Some(Response::Failed(message))) => {
                (ListCredentialsState::Finished, Action::Fail(OperationError::RemoteCall(message)))
            },
            _ => (
                ListCredentialsState::Finished,
                Action::Fail(OperationError::UnexpectedResponse),
            ),
        }
    }
}

} // verus!
