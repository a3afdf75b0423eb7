//! The lifecycle events that this service publishes, and the key under which
//! each is published.

pub mod credential_events;

use credential_events::{Event, EventView};
use vstd::prelude::*;

verus! {

/// What a lifecycle event tells of the client it is about.
#[derive(Clone, Debug, PartialEq, Eq)]
pub struct OAuth2Client {
    /// The user who asked for the change.
    pub user_id: String,
    /// The name of the client.
    pub client_name: String,
    /// The organization that owns the client.
    pub organization: String,
}

/// The mathematical content of an [`OAuth2Client`].
pub struct OAuth2ClientView {
    pub user_id: Seq<char>,
    pub client_name: Seq<char>,
    pub organization: Seq<char>,
}

impl View for OAuth2Client {
    type V = OAuth2ClientView;

    open spec fn view(&self) -> OAuth2ClientView {
        OAuth2ClientView {
            user_id: self.user_id@,
            client_name: self.client_name@,
            organization: self.organization@,
        }
    }
}

/// The key of a lifecycle event: the credential it is about and the user who
/// asked for the change.
#[derive(Clone, Debug, PartialEq, Eq)]
pub struct CredentialEventKey {
    pub id: String,
    pub user_id: String,
}

/// The mathematical content of a [`CredentialEventKey`].
pub struct CredentialEventKeyView {
    pub id: Seq<char>,
    pub user_id: Seq<char>,
}

impl View for CredentialEventKey {
    type V = CredentialEventKeyView;

    open spec fn view(&self) -> CredentialEventKeyView {
        CredentialEventKeyView { id: self.id@, user_id: self.user_id@ }
    }
}

/// A message on the event channel.
#[derive(Clone, Debug, PartialEq, Eq)]
pub struct CredentialEvents {
    pub event: Option<Event>,
}

/// The mathematical content of a [`CredentialEvents`].
pub struct CredentialEventsView {
    pub event: Option<EventView>,
}

impl View for CredentialEvents {
    type V = CredentialEventsView;

    open spec fn view(&self) -> CredentialEventsView {
        CredentialEventsView {
            event: match self.event {
                Some(event) => Some(event@),
                None => None,
            },
        }
    }
}

} // verus!
