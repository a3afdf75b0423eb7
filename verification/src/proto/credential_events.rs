//! The kinds of lifecycle event.

use crate::proto::{OAuth2Client, OAuth2ClientView};
use vstd::prelude::*;

verus! {

/// A change in the life of a credential that other services hear of. An
/// edit is none.
#[derive(Clone, Debug, PartialEq, Eq)]
pub enum Event {
    /// A credential was created and a token was issued for it.
    Oauth2ClientCreated(OAuth2Client),
    /// A credential was deleted.
    Oauth2ClientDeleted(OAuth2Client),
}

/// The mathematical content of an [`Event`].
pub enum EventView {
    Oauth2ClientCreated(OAuth2ClientView),
    Oauth2ClientDeleted(OAuth2ClientView),
}

impl View for Event {
    type V = EventView;

    open spec fn view(&self) -> EventView {
        match self {
            Event::Oauth2ClientCreated(client) => EventView::Oauth2ClientCreated(client@),
            Event::Oauth2ClientDeleted(client) => EventView::Oauth2ClientDeleted(client@),
        }
    }
}

} // verus!
