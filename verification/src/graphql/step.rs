//! How an operation and its caller take turns.
//!
//! An operation performs no remote call and publishes no event itself. It is
//! stepped: each step takes what the last action brought back and answers
//! with the next [`Action`], until the operation returns or fails. An
//! operation that has answered with a call or an event waits for exactly
//! that answer; nothing is retried, and what was done remotely before a
//! failure stays done.

use crate::error::{OperationError, OperationErrorView};
use crate::ory_client::models::{
    OAuth2Client, OAuth2ClientView, OAuth2TokenExchange, OAuth2TokenExchangeView,
};
use crate::ory_client::{Call, CallView};
use crate::proto::{
    CredentialEventKey, CredentialEventKeyView, CredentialEvents, CredentialEventsView,
};
use vstd::prelude::*;

verus! {

/// What came back from the action that an operation asked for.
#[derive(Clone, Debug, PartialEq, Eq)]
pub enum Response {
    /// The authorization server sent a client record.
    Client(OAuth2Client),
    /// The authorization server sent a page of client records.
    Clients(Vec<OAuth2Client>),
    /// The authorization server granted a token.
    Token(OAuth2TokenExchange),
    /// The authorization server deleted the client.
    Deleted,
    /// The event channel took the event.
    Sent,
    /// The action failed, for the reason given.
    Failed(String),
}

/// The mathematical content of a [`Response`].
pub enum ResponseView {
    Client(OAuth2ClientView),
    Clients(Seq<OAuth2ClientView>),
    Token(OAuth2TokenExchangeView),
    Deleted,
    Sent,
    Failed(Seq<char>),
}

impl View for Response {
    type V = ResponseView;

    open spec fn view(&self) -> ResponseView {
        match self {
            Response::Client(client) => ResponseView::Client(client@),
            Response::Clients(clients) => ResponseView::Clients(clients.deep_view()),
            Response::Token(exchange) => ResponseView::Token(exchange@),
            Response::Deleted => ResponseView::Deleted,
            Response::Sent => ResponseView::Sent,
            Response::Failed(message) => ResponseView::Failed(message@),
        }
    }
}

impl DeepView for Response {
    type V = ResponseView;

    open spec fn deep_view(&self) -> ResponseView {
        self.view()
    }
}

/// What an operation asks of its caller next.
#[derive(Clone, Debug, PartialEq, Eq)]
pub enum Action<T> {
    /// Send this request to the authorization server and step the operation
    /// with what it answers.
    Call(Call),
    /// Publish this event under this key and step the operation with the
    /// outcome.
    Send { event: CredentialEvents, key: CredentialEventKey },
    /// The operation is complete and this is its result.
    Return(T),
    /// The operation is abandoned for this reason.
    Fail(OperationError),
}

/// The mathematical content of an [`Action`].
pub enum ActionView<V> {
    Call(CallView),
    Send { event: CredentialEventsView, key: CredentialEventKeyView },
    Return(V),
    Fail(OperationErrorView),
}

impl<T: DeepView> View for Action<T> {
    type V = ActionView<T::V>;

    open spec fn view(&self) -> ActionView<T::V> {
        match self {
            Action::Call(call) => ActionView::Call(call@),
            Action::Send { event, key } => ActionView::Send { event: event@, key: key@ },
            Action::Return(value) => ActionView::Return(value.deep_view()),
            Action::Fail(e) => ActionView::Fail(e@),
        }
    }
}

} // verus!
