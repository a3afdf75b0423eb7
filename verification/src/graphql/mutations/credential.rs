//! Creating, editing and deleting a credential.
//!
//! Each operation is stepped as [`crate::graphql::step`] describes. A
//! creation calls the authorization server twice, to create the client and
//! to exchange its secret for a token, and then publishes one event. An edit
//! fetches the client before it replaces it, to resubmit its owner. A
//! deletion fetches the client before it deletes it, to know what the event
//! has to say, and publishes the event once the deletion is acknowledged.

use crate::error::{Field, MappingError, OperationError, OperationErrorView};
use crate::graphql::objects::access_token::{
    map_access_token, to_access_token_at, AccessToken, AccessTokenView,
};
use crate::graphql::objects::credential::{
    map_credential, to_credential, Credential, CredentialView,
};
use crate::graphql::step::{Action, ActionView, Response, ResponseView};
use crate::id::Uuid;
use crate::ory_client::models::{OAuth2Client, OAuth2ClientView};
use crate::ory_client::{Client, ClientView, OperationView, CLIENT_CREDENTIALS};
use crate::proto::credential_events::{Event, EventView};
use crate::proto::{
    CredentialEventKey, CredentialEventKeyView, CredentialEvents, CredentialEventsView,
};
use crate::scope::{join, joined};
use crate::time::{utc_now, Timestamp};
use crate::AppContext;
use vstd::prelude::*;

verus! {

/// How long an access token of a credential lives: one year.
pub const ACCESS_TOKEN_LIFESPAN: &'static str = "8760h";

/// What is needed to create a credential.
#[derive(Clone, Debug, PartialEq, Eq)]
pub struct CreateCredentialInput {
    /// The organization that the new credential will belong to.
    pub organization: Uuid,
    /// The friendly name of the new credential.
    pub name: String,
    /// The projects that the credential may ask tokens for, if it is to be
    /// held to some.
    pub projects: Option<Vec<Uuid>>,
    /// The scopes granted to the credential, if it is to be held to some.
    pub scopes: Option<Vec<String>>,
}

/// The mathematical content of a [`CreateCredentialInput`].
pub struct CreateCredentialInputView {
    pub organization: Uuid,
    pub name: Seq<char>,
    pub projects: Option<Seq<Uuid>>,
    pub scopes: Option<Seq<Seq<char>>>,
}

impl View for CreateCredentialInput {
    type V = CreateCredentialInputView;

    open spec fn view(&self) -> CreateCredentialInputView {
        CreateCredentialInputView {
            organization: self.organization,
            name: self.name@,
            projects: match self.projects {
                Some(list) => Some(list@),
                None => None,
            },
            scopes: self.scopes.deep_view(),
        }
    }
}

/// What a creation returns: the new credential and an access token for it.
#[derive(Debug, Clone, PartialEq, Eq)]
pub struct CreateCredentialPayload {
    /// The credential that was created.
    pub credential: Credential,
    /// An access token that authenticates requests as that credential.
    pub access_token: AccessToken,
}

/// The mathematical content of a [`CreateCredentialPayload`].
pub struct CreateCredentialPayloadView {
    pub credential: CredentialView,
    pub access_token: AccessTokenView,
}

impl View for CreateCredentialPayload {
    type V = CreateCredentialPayloadView;

    open spec fn view(&self) -> CreateCredentialPayloadView {
        CreateCredentialPayloadView {
            credential: self.credential@,
            access_token: self.access_token@,
        }
    }
}

impl DeepView for CreateCredentialPayload {
    type V = CreateCredentialPayloadView;

    open spec fn deep_view(&self) -> CreateCredentialPayloadView {
        self.view()
    }
}

/// How far a creation has come.
#[derive(Debug, Clone, PartialEq, Eq)]
pub enum CreateCredentialState {
    /// Nothing has been asked of anyone yet.
    Start { input: CreateCredentialInput },
    /// The authorization server has been asked to create the client.
    Creating { user_id: Uuid, organization: Uuid },
    /// The client exists and its secret is being exchanged for a token.
    Exchanging { user_id: Uuid, organization: Uuid, credential: Credential },
    /// The token is issued and the event is being published.
    Publishing { payload: CreateCredentialPayload },
    /// The operation has returned or failed.
    Finished,
}

/// The mathematical content of a [`CreateCredentialState`].
pub enum CreateCredentialStateView {
    Start { input: CreateCredentialInputView },
    Creating { user_id: Uuid, organization: Uuid },
    Exchanging { user_id: Uuid, organization: Uuid, credential: CredentialView },
    Publishing { payload: CreateCredentialPayloadView },
    Finished,
}

impl View for CreateCredentialState {
    type V = CreateCredentialStateView;

    open spec fn view(&self) -> CreateCredentialStateView {
        match self {
            CreateCredentialState::Start { input } => CreateCredentialStateView::Start {
                input: input@,
            },
            CreateCredentialState::Creating {
                user_id,
                organization,
            } => CreateCredentialStateView::Creating {
                user_id: *user_id,
                organization: *organization,
            },
            CreateCredentialState::Exchanging {
                user_id,
                organization,
                credential,
            } => CreateCredentialStateView::Exchanging {
                user_id: *user_id,
                organization: *organization,
                credential: credential@,
            },
            CreateCredentialState::Publishing { payload } => CreateCredentialStateView::Publishing {
                payload: payload@,
            },
            CreateCredentialState::Finished => CreateCredentialStateView::Finished,
        }
    }
}

/// What is needed to edit a credential.
#[derive(Clone, Debug, PartialEq, Eq)]
pub struct EditCredentialInput {
    /// The identifier that the credential got when it was created.
    pub client_id: String,
    /// The new name of the credential.
    pub name: String,
}

/// The mathematical content of an [`EditCredentialInput`].
pub struct EditCredentialInputView {
    pub client_id: Seq<char>,
    pub name: Seq<char>,
}

impl View for EditCredentialInput {
    type V = EditCredentialInputView;

    open spec fn view(&self) -> EditCredentialInputView {
        EditCredentialInputView { client_id: self.client_id@, name: self.name@ }
    }
}

/// What an edit returns.
#[derive(Debug, Clone, PartialEq, Eq)]
pub struct EditCredentialPayload {
    /// The credential under its new name.
    pub credential: Credential,
}

/// The mathematical content of an [`EditCredentialPayload`].
pub struct EditCredentialPayloadView {
    pub credential: CredentialView,
}

impl View for EditCredentialPayload {
    type V = EditCredentialPayloadView;

    open spec fn view(&self) -> EditCredentialPayloadView {
        EditCredentialPayloadView { credential: self.credential@ }
    }
}

impl DeepView for EditCredentialPayload {
    type V = EditCredentialPayloadView;

    open spec fn deep_view(&self) -> EditCredentialPayloadView {
        self.view()
    }
}

/// How far an edit has come.
#[derive(Debug, Clone, PartialEq, Eq)]
pub enum EditCredentialState {
    /// Nothing has been asked of anyone yet.
    Start { input: EditCredentialInput },
    /// The client as it stands is being fetched.
    Fetching { user_id: Uuid, input: EditCredentialInput },
    /// The client is being replaced.
    Updating,
    /// The operation has returned or failed.
    Finished,
}

/// The mathematical content of an [`EditCredentialState`].
pub enum EditCredentialStateView {
    Start { input: EditCredentialInputView },
    Fetching { user_id: Uuid, input: EditCredentialInputView },
    Updating,
    Finished,
}

impl View for EditCredentialState {
    type V = EditCredentialStateView;

    open spec fn view(&self) -> EditCredentialStateView {
        match self {
            EditCredentialState::Start { input } => EditCredentialStateView::Start { input: input@ },
            EditCredentialState::Fetching { user_id, input } => EditCredentialStateView::Fetching {
                user_id: *user_id,
                input: input@,
            },
            EditCredentialState::Updating => EditCredentialStateView::Updating,
            EditCredentialState::Finished => EditCredentialStateView::Finished,
        }
    }
}

/// What is needed to delete a credential.
#[derive(Debug, Clone, PartialEq, Eq)]
pub struct DeleteCredentialInput {
    /// The identifier of the credential to delete.
    pub credential: String,
}

/// The mathematical content of a [`DeleteCredentialInput`].
pub struct DeleteCredentialInputView {
    pub credential: Seq<char>,
}

impl View for DeleteCredentialInput {
    type V = DeleteCredentialInputView;

    open spec fn view(&self) -> DeleteCredentialInputView {
        DeleteCredentialInputView { credential: self.credential@ }
    }
}

/// What a deletion returns.
#[derive(Debug, Clone, PartialEq, Eq)]
pub struct DeleteCredentialPayload {
    /// The identifier of the credential that was deleted.
    pub credential: String,
}

/// The mathematical content of a [`DeleteCredentialPayload`].
pub struct DeleteCredentialPayloadView {
    pub credential: Seq<char>,
}

impl View for DeleteCredentialPayload {
    type V = DeleteCredentialPayloadView;

    open spec fn view(&self) -> DeleteCredentialPayloadView {
        DeleteCredentialPayloadView { credential: self.credential@ }
    }
}

impl DeepView for DeleteCredentialPayload {
    type V = DeleteCredentialPayloadView;

    open spec fn deep_view(&self) -> DeleteCredentialPayloadView {
        self.view()
    }
}

/// How far a deletion has come.
#[derive(Debug, Clone, PartialEq, Eq)]
pub enum DeleteCredentialState {
    /// Nothing has been asked of anyone yet.
    Start { input: DeleteCredentialInput },
    /// The client is being fetched, to know what the event has to say.
    Fetching { user_id: Uuid, credential: String },
    /// The client is being deleted.
    Deleting { user_id: Uuid, credential: String, client_name: String, organization: Uuid },
    /// The client is gone and the event is being published.
    Publishing { credential: String },
    /// The operation has returned or failed.
    Finished,
}

/// The mathematical content of a [`DeleteCredentialState`].
pub enum DeleteCredentialStateView {
    Start { input: DeleteCredentialInputView },
    Fetching { user_id: Uuid, credential: Seq<char> },
    Deleting { user_id: Uuid, credential: Seq<char>, client_name: Seq<char>, organization: Uuid },
    Publishing { credential: Seq<char> },
    Finished,
}

impl View for DeleteCredentialState {
    type V = DeleteCredentialStateView;

    open spec fn view(&self) -> DeleteCredentialStateView {
        match self {
            DeleteCredentialState::Start { input } => DeleteCredentialStateView::Start {
                input: input@,
            },
            DeleteCredentialState::Fetching {
                user_id,
                credential,
            } => DeleteCredentialStateView::Fetching { user_id: *user_id, credential: credential@ },
            DeleteCredentialState::Deleting {
                user_id,
                credential,
                client_name,
                organization,
            } => DeleteCredentialStateView::Deleting {
                user_id: *user_id,
                credential: credential@,
                client_name: client_name@,
                organization: *organization,
            },
            DeleteCredentialState::Publishing {
                credential,
            } => DeleteCredentialStateView::Publishing { credential: credential@ },
            DeleteCredentialState::Finished => DeleteCredentialStateView::Finished,
        }
    }
}

/// The texts of a list of identifiers, in order.
pub open spec fn texts_of(list: Seq<Uuid>) -> Seq<Seq<char>> {
    Seq::new(list.len(), |i: int| list[i].text())
}

/// The client record that is sent to the authorization server for a
/// credential: always the client-credentials grant, a token lifetime of one
/// year, the owning organization and the caller as the one contact; the
/// scopes as one scope text and the projects as audiences where the request
/// names any.
pub open spec fn client_request(
    name: Seq<char>,
    organization: Uuid,
    user_id: Uuid,
    scopes: Option<Seq<Seq<char>>>,
    projects: Option<Seq<Uuid>>,
) -> OAuth2ClientView {
    OAuth2ClientView {
        client_id: None,
        client_name: Some(name),
        client_secret: None,
        contacts: Some(seq![user_id.text()]),
        owner: Some(organization.text()),
        created_at: None,
        grant_types: Some(seq![CLIENT_CREDENTIALS@]),
        client_credentials_grant_access_token_lifespan: Some(ACCESS_TOKEN_LIFESPAN@),
        scope: match scopes {
            Some(list) => Some(joined(list)),
            None => None,
        },
        audience: match projects {
            Some(list) => Some(texts_of(list)),
            None => None,
        },
    }
}

/// The event that tells of a client, as created or as deleted.
pub open spec fn lifecycle_event(
    created: bool,
    user_id: Uuid,
    client_name: Seq<char>,
    organization: Uuid,
) -> CredentialEventsView {
    let client = crate::proto::OAuth2ClientView {
        user_id: user_id.text(),
        client_name,
        organization: organization.text(),
    };
    CredentialEventsView {
        event: Some(
            if created {
                EventView::Oauth2ClientCreated(client)
            } else {
                EventView::Oauth2ClientDeleted(client)
            },
        ),
    }
}

/// The key of the events about a credential that `user_id` changed.
pub open spec fn event_key(client_id: Seq<char>, user_id: Uuid) -> CredentialEventKeyView {
    CredentialEventKeyView { id: client_id, user_id: user_id.text() }
}

/// The next step of a creation.
///
/// At the start the caller must be known; the client record is then sent
/// for creation. The record that comes back must carry an identifier and a
/// secret and describe a credential; the secret is then exchanged for a
/// token as that client. The exchange must grant an access token at `now`;
/// the event is then published under the identifier of the new client. Once
/// the event is taken the credential and the token are returned. A failed
/// call, a failed publication and a response that does not answer the
/// pending action each end the creation.
pub open spec fn create_next(
    ctx: AppContext,
    ory: ClientView,
    state: CreateCredentialStateView,
    response: Option<ResponseView>,
    now: Timestamp,
) -> (CreateCredentialStateView, ActionView<CreateCredentialPayloadView>) {
    match (state, response) {
        (CreateCredentialStateView::Start { input }, None) => match ctx.user_id {
            None => create_fail(OperationErrorView::MissingIdentity),
            Some(user_id) => (
                CreateCredentialStateView::Creating { user_id, organization: input.organization },
                ActionView::Call(
                    ory.create_client(
                        client_request(
                            input.name,
                            input.organization,
                            user_id,
                            input.scopes,
                            input.projects,
                        ),
                    ),
                ),
            ),
        },
        (
            CreateCredentialStateView::Creating { user_id, organization },
            Some(ResponseView::Client(client)),
        ) => if client.client_id is None {
            create_fail(OperationErrorView::Mapping(MappingError::Missing(Field::ClientId)))
        } else if client.client_secret is None {
            create_fail(OperationErrorView::Mapping(MappingError::Missing(Field::ClientSecret)))
        } else {
            match map_credential(client) {
                Err(e) => create_fail(OperationErrorView::Mapping(e)),
                Ok(credential) => (
                    CreateCredentialStateView::Exchanging { user_id, organization, credential },
                    ActionView::Call(
                        ory.exchange_token(credential.client_id, client.client_secret->0),
                    ),
                ),
            }
        },
        (
            CreateCredentialStateView::Exchanging { user_id, organization, credential },
            Some(ResponseView::Token(exchange)),
        ) => match map_access_token(exchange, now) {
            Err(e) => create_fail(OperationErrorView::Mapping(e)),
            Ok(access_token) => (
                CreateCredentialStateView::Publishing {
                    payload: CreateCredentialPayloadView { credential, access_token },
                },
                ActionView::Send {
                    event: lifecycle_event(true, user_id, credential.name, organization),
                    key: event_key(credential.client_id, user_id),
                },
            ),
        },
        (CreateCredentialStateView::Publishing { payload }, Some(ResponseView::Sent)) => (
            CreateCredentialStateView::Finished,
            ActionView::Return(payload),
        ),
        (CreateCredentialStateView::Creating { .. }, Some(ResponseView::Failed(message))) => {
            create_fail(OperationErrorView::RemoteCall(message))
        },
        (CreateCredentialStateView::Exchanging { .. }, Some(ResponseView::Failed(message))) => {
            create_fail(OperationErrorView::RemoteCall(message))
        },
        (CreateCredentialStateView::Publishing { .. }, Some(ResponseView::Failed(message))) => {
            create_fail(OperationErrorView::EventPublish(message))
        },
        _ => create_fail(OperationErrorView::UnexpectedResponse),
    }
}

/// A creation that ends with an error.
pub open spec fn create_fail(e: OperationErrorView) -> (
    CreateCredentialStateView,
    ActionView<CreateCredentialPayloadView>,
) {
    (CreateCredentialStateView::Finished, ActionView::Fail(e))
}

/// An edit that ends with an error.
pub open spec fn edit_fail(e: OperationErrorView) -> (
    EditCredentialStateView,
    ActionView<EditCredentialPayloadView>,
) {
    (EditCredentialStateView::Finished, ActionView::Fail(e))
}

/// The next step of an edit.
///
/// At the start the caller must be known; the client is then fetched. The
/// record that comes back must describe a credential; the client is then
/// replaced by a record with the new name, the caller as contact and the
/// organization of the fetched credential as owner, since the authorization
/// server keeps nothing that the new record does not repeat. The record
/// that the replacement brings back must describe a credential, which is
/// returned. No event is published.
pub open spec fn edit_next(
    ctx: AppContext,
    ory: ClientView,
    state: EditCredentialStateView,
    response: Option<ResponseView>,
) -> (EditCredentialStateView, ActionView<EditCredentialPayloadView>) {
    match (state, response) {
        (EditCredentialStateView::Start { input }, None) => match ctx.user_id {
            None => edit_fail(OperationErrorView::MissingIdentity),
            Some(user_id) => (
                EditCredentialStateView::Fetching { user_id, input },
                ActionView::Call(ory.get_client(input.client_id)),
            ),
        },
        (
            EditCredentialStateView::Fetching { user_id, input },
            Some(ResponseView::Client(current)),
        ) => match map_credential(current) {
            Err(e) => edit_fail(OperationErrorView::Mapping(e)),
            Ok(credential) => (
                EditCredentialStateView::Updating,
                ActionView::Call(
                    ory.update_client(
                        input.client_id,
                        client_request(input.name, credential.organization_id, user_id, None, None),
                    ),
                ),
            ),
        },
        (
            EditCredentialStateView::Updating,
            Some(ResponseView::Client(updated)),
        ) => match map_credential(updated) {
            Err(e) => edit_fail(OperationErrorView::Mapping(e)),
            Ok(credential) => (
                EditCredentialStateView::Finished,
                ActionView::Return(EditCredentialPayloadView { credential }),
            ),
        },
        (EditCredentialStateView::Fetching { .. }, Some(ResponseView::Failed(message))) => {
            edit_fail(OperationErrorView::RemoteCall(message))
        },
        (EditCredentialStateView::Updating, Some(ResponseView::Failed(message))) => {
            edit_fail(OperationErrorView::RemoteCall(message))
        },
        _ => edit_fail(OperationErrorView::UnexpectedResponse),
    }
}

/// A deletion that ends with an error.
pub open spec fn delete_fail(e: OperationErrorView) -> (
    DeleteCredentialStateView,
    ActionView<DeleteCredentialPayloadView>,
) {
    (DeleteCredentialStateView::Finished, ActionView::Fail(e))
}

/// The next step of a deletion.
///
/// At the start the caller must be known; the client is then fetched. The
/// record that comes back must describe a credential, or nothing is
/// deleted: a client that cannot be described is not deleted. The client is
/// then deleted. Once the deletion is acknowledged the event is published
/// under the identifier of the client, with the name and the organization
/// that were fetched. Once the event is taken the identifier is returned.
pub open spec fn delete_next(
    ctx: AppContext,
    ory: ClientView,
    state: DeleteCredentialStateView,
    response: Option<ResponseView>,
) -> (DeleteCredentialStateView, ActionView<DeleteCredentialPayloadView>) {
    match (state, response) {
        (DeleteCredentialStateView::Start { input }, None) => match ctx.user_id {
            None => delete_fail(OperationErrorView::MissingIdentity),
            Some(user_id) => (
                DeleteCredentialStateView::Fetching { user_id, credential: input.credential },
                ActionView::Call(ory.get_client(input.credential)),
            ),
        },
        (
            DeleteCredentialStateView::Fetching { user_id, credential },
            Some(ResponseView::Client(current)),
        ) => match map_credential(current) {
            Err(e) => delete_fail(OperationErrorView::Mapping(e)),
            Ok(described) => (
                DeleteCredentialStateView::Deleting {
                    user_id,
                    credential,
                    client_name: described.name,
                    organization: described.organization_id,
                },
                ActionView::Call(ory.delete_client(credential)),
            ),
        },
        (
            DeleteCredentialStateView::Deleting { user_id, credential, client_name, organization },
            Some(ResponseView::Deleted),
        ) => (
            DeleteCredentialStateView::Publishing { credential },
            ActionView::Send {
                event: lifecycle_event(false, user_id, client_name, organization),
                key: event_key(credential, user_id),
            },
        ),
        (DeleteCredentialStateView::Publishing { credential }, Some(ResponseView::Sent)) => (
            DeleteCredentialStateView::Finished,
            ActionView::Return(DeleteCredentialPayloadView { credential }),
        ),
        (DeleteCredentialStateView::Fetching { .. }, Some(ResponseView::Failed(message))) => {
            delete_fail(OperationErrorView::RemoteCall(message))
        },
        (DeleteCredentialStateView::Deleting { .. }, Some(ResponseView::Failed(message))) => {
            delete_fail(OperationErrorView::RemoteCall(message))
        },
        (DeleteCredentialStateView::Publishing { .. }, Some(ResponseView::Failed(message))) => {
            delete_fail(OperationErrorView::EventPublish(message))
        },
        _ => delete_fail(OperationErrorView::UnexpectedResponse),
    }
}

/// Writes each identifier of a list as text.
pub fn to_texts(list: &Vec<Uuid>) -> (r: Vec<String>)
    ensures
        r.deep_view() == texts_of(list@),
{
    let mut out: Vec<String> = Vec::new();
    let mut i: usize = 0;
    while i < list.len()
        invariant
            i <= list.len(),
            out.len() == i,
            forall|k: int| 0 <= k < i ==> out[k]@ == list[k].text(),
        decreases list.len() - i,
    {
        out.push(list[i].to_string());
        i = i + 1;
    }
    out
}

/// Builds the client record that is sent to the authorization server for a
/// credential.
pub fn build_client_request(
    name: String,
    organization: Uuid,
    user_id: Uuid,
    scopes: &Option<Vec<String>>,
    projects: &Option<Vec<Uuid>>,
) -> (r: OAuth2Client)
    ensures
        r@ == client_request(
            name@,
            organization,
            user_id,
            scopes.deep_view(),
            match *projects {
                Some(list) => Some(list@),
                None => None,
            },
        ),
        Uuid::spec_parse(r@.owner->0) == Some(organization),
        Uuid::spec_parse(r@.contacts->0[0]) == Some(user_id),
{
    let mut grant_types: Vec<String> = Vec::new();
    grant_types.push(CLIENT_CREDENTIALS.to_owned());
    let mut contacts: Vec<String> = Vec::new();
    contacts.push(user_id.to_string());
    let scope = match scopes {
        Some(list) => Some(join(list)),
        None => None,
    };
    let audience = match projects {
        Some(list) => Some(to_texts(list)),
        None => None,
    };
    let r = OAuth2Client {
        client_id: None,
        client_name: Some(name),
        client_secret: None,
        contacts: Some(contacts),
        owner: Some(organization.to_string()),
        created_at: None,
        grant_types: Some(grant_types),
        client_credentials_grant_access_token_lifespan: Some(ACCESS_TOKEN_LIFESPAN.to_owned()),
        scope,
        audience,
    };
    assert(r@.contacts->0 =~= seq![user_id.text()]);
    assert(r@.grant_types->0 =~= seq![CLIENT_CREDENTIALS@]);
    r
}

/// Builds the event that tells of a client, as created or as deleted.
pub fn build_event(created: bool, user_id: Uuid, client_name: String, organization: Uuid) -> (r:
    CredentialEvents)
    ensures
        r@ == lifecycle_event(created, user_id, client_name@, organization),
{
    let client = crate::proto::OAuth2Client {
        user_id: user_id.to_string(),
        client_name,
        organization: organization.to_string(),
    };
    CredentialEvents {
        event: Some(
            if created {
                Event::Oauth2ClientCreated(client)
            } else {
                Event::Oauth2ClientDeleted(client)
            },
        ),
    }
}

/// The operations that change credentials.
#[derive(Debug, Clone, Copy, Default)]
pub struct Mutation;

impl Mutation {
    /// Takes the next step of a creation, the clock reading `now`.
    pub fn create_credential_at(
        &self,
        ctx: &AppContext,
        ory: &Client,
        state: CreateCredentialState,
        response: Option<Response>,
        now: Timestamp,
    ) -> (r: (CreateCredentialState, Action<CreateCredentialPayload>))
        ensures
            (r.0@, r.1@) == create_next(*ctx, ory@, state@, response.deep_view(), now),
    {
        match (state, response) {
            (CreateCredentialState::Start { input }, None) => {
                let user_id = match ctx.user_id {
                    Some(user_id) => user_id,
                    None => {
                        return (
                            CreateCredentialState::Finished,
                            Action::Fail(OperationError::MissingIdentity),
                        );
                    },
                };
                let organization = input.organization;
                let o_auth2_client = build_client_request(
                    input.name,
                    organization,
                    user_id,
                    &input.scopes,
                    &input.projects,
                );
                (
                    CreateCredentialState::Creating { user_id, organization },
                    Action::Call(ory.create_client(o_auth2_client)),
                )
            },
            (
                CreateCredentialState::Creating { user_id, organization },
                Some(Response::Client(client)),
            ) => {
                if client.client_id.is_none() {
                    return (
                        CreateCredentialState::Finished,
                        Action::Fail(
                            OperationError::Mapping(MappingError::Missing(Field::ClientId)),
                        ),
                    );
                }
                let client_secret = match &client.client_secret {
                    Some(secret) => secret.clone(),
                    None => {
                        return (
                            CreateCredentialState::Finished,
                            Action::Fail(
                                OperationError::Mapping(
                                    MappingError::Missing(Field::ClientSecret),
                                ),
                            ),
                        );
                    },
                };
                let credential = match to_credential(&client) {
                    Ok(credential) => credential,
                    Err(e) => {
                        return (
                            CreateCredentialState::Finished,
                            Action::Fail(OperationError::Mapping(e)),
                        );
                    },
                };
                let call = ory.exchange_token(credential.client_id.clone(), client_secret);
                (
                    CreateCredentialState::Exchanging { user_id, organization, credential },
                    Action::Call(call),
                )
            },
            (
                CreateCredentialState::Exchanging { user_id, organization, credential },
                Some(Response::Token(exchange)),
            ) => {
                let access_token = match to_access_token_at(&exchange, now) {
                    Ok(access_token) => access_token,
                    Err(e) => {
                        return (
                            CreateCredentialState::Finished,
                            Action::Fail(OperationError::Mapping(e)),
                        );
                    },
                };
                let event = build_event(true, user_id, credential.name.clone(), organization);
                let key = CredentialEventKey {
                    id: credential.client_id.clone(),
                    user_id: user_id.to_string(),
                };
                (
                    CreateCredentialState::Publishing {
                        payload: CreateCredentialPayload { credential, access_token },
                    },
                    Action::Send { event, key },
                )
            },
            (CreateCredentialState::Publishing { payload }, Some(Response::Sent)) => {
                (CreateCredentialState::Finished, Action::Return(payload))
            },
            (CreateCredentialState::Creating { .. }, Some(Response::Failed(message))) => {
                (CreateCredentialState::Finished, Action::Fail(OperationError::RemoteCall(message)))
            },
            (CreateCredentialState::Exchanging { .. }, Some(Response::Failed(message))) => {
                (CreateCredentialState::Finished, Action::Fail(OperationError::RemoteCall(message)))
            },
            (CreateCredentialState::Publishing { .. }, Some(Response::Failed(message))) => {
                (
                    CreateCredentialState::Finished,
                    Action::Fail(OperationError::EventPublish(message)),
                )
            },
            _ => (
                CreateCredentialState::Finished,
                Action::Fail(OperationError::UnexpectedResponse),
            ),
        }
    }

    /// Takes the next step of a creation. The clock is read once; whatever
    /// it shows, the step is that of [`Mutation::create_credential_at`] for
    /// that instant.
    pub fn create_credential(
        &self,
        ctx: &AppContext,
        ory: &Client,
        state: CreateCredentialState,
        response: Option<Response>,
    ) -> (r: (CreateCredentialState, Action<CreateCredentialPayload>))
        ensures
            exists|now: Timestamp|
                (r.0@, r.1@) == #[trigger] create_next(
                    *ctx,
                    ory@,
                    state@,
                    response.deep_view(),
                    now,
                ),
    {
        let now = utc_now();
        self.create_credential_at(ctx, ory, state, response, now)
    }

    /// Takes the next step of an edit. The record that replaces the client
    /// names as owner the organization that the fetched record named.
    pub fn edit_credential(
        &self,
        ctx: &AppContext,
        ory: &Client,
        state: EditCredentialState,
        response: Option<Response>,
    ) -> (r: (EditCredentialState, Action<EditCredentialPayload>))
        ensures
            (r.0@, r.1@) == edit_next(*ctx, ory@, state@, response.deep_view()),
            r.1@ matches ActionView::Call(call) ==> (call.operation matches OperationView::SetOAuth2Client {
                client,
                ..
            } ==> response matches Some(Response::Client(current)) && map_credential(
                current@,
            ) matches Ok(credential) && client.owner is Some && Uuid::spec_parse(client.owner->0)
                == Some(credential.organization_id)),
    {
        match (state, response) {
            (EditCredentialState::Start { input }, None) => {
                let user_id = match ctx.user_id {
                    Some(user_id) => user_id,
                    None => {
                        return (
                            EditCredentialState::Finished,
                            Action::Fail(OperationError::MissingIdentity),
                        );
                    },
                };
                let call = ory.get_client(input.client_id.as_str());
                (EditCredentialState::Fetching { user_id, input }, Action::Call(call))
            },
            (EditCredentialState::Fetching { user_id, input }, Some(Response::Client(current))) => {
                let current_credential = match to_credential(&current) {
                    Ok(credential) => credential,
                    Err(e) => {
                        return (
                            EditCredentialState::Finished,
                            Action::Fail(OperationError::Mapping(e)),
                        );
                    },
                };
                let o_auth2_client = build_client_request(
                    input.name,
                    current_credential.organization_id,
                    user_id,
                    &None,
                    &None,
                );
                let call = ory.update_client(input.client_id.as_str(), o_auth2_client);
                (EditCredentialState::Updating, Action::Call(call))
            },
            (EditCredentialState::Updating, Some(Response::Client(updated))) => {
                match to_credential(&updated) {
                    Ok(credential) => (
                        EditCredentialState::Finished,
                        Action::Return(EditCredentialPayload { credential }),
                    ),
                    Err(e) => (
                        EditCredentialState::Finished,
                        Action::Fail(OperationError::Mapping(e)),
                    ),
                }
            },
            (EditCredentialState::Fetching { .. }, Some(Response::Failed(message))) => {
                (EditCredentialState::Finished, Action::Fail(OperationError::RemoteCall(message)))
            },
            (EditCredentialState::Updating, Some(Response::Failed(message))) => {
                (EditCredentialState::Finished, Action::Fail(OperationError::RemoteCall(message)))
            },
            _ => (EditCredentialState::Finished, Action::Fail(OperationError::UnexpectedResponse)),
        }
    }

    /// Takes the next step of a deletion.
    pub fn delete_credential(
        &self,
        ctx: &AppContext,
        ory: &Client,
        state: DeleteCredentialState,
        response: Option<Response>,
    ) -> (r: (DeleteCredentialState, Action<DeleteCredentialPayload>))
        ensures
            (r.0@, r.1@) == delete_next(*ctx, ory@, state@, response.deep_view()),
    {
        match (state, response) {
            (DeleteCredentialState::Start { input }, None) => {
                let user_id = match ctx.user_id {
                    Some(user_id) => user_id,
                    None => {
                        return (
                            DeleteCredentialState::Finished,
                            Action::Fail(OperationError::MissingIdentity),
                        );
                    },
                };
                let call = ory.get_client(input.credential.as_str());
                (
                    DeleteCredentialState::Fetching { user_id, credential: input.credential },
                    Action::Call(call),
                )
            },
            (
                DeleteCredentialState::Fetching { user_id, credential },
                Some(Response::Client(current)),
            ) => {
                let current_credential = match to_credential(&current) {
                    Ok(described) => described,
                    Err(e) => {
                        return (
                            DeleteCredentialState::Finished,
                            Action::Fail(OperationError::Mapping(e)),
                        );
                    },
                };
                let call = ory.delete_client(credential.as_str());
                (
                    DeleteCredentialState::Deleting {
                        user_id,
                        credential,
                        client_name: current_credential.name,
                        organization: current_credential.organization_id,
                    },
                    Action::Call(call),
                )
            },
            (
                DeleteCredentialState::Deleting { user_id, credential, client_name, organization },
                Some(Response::Deleted),
            ) => {
                let event = build_event(false, user_id, client_name, organization);
                let key = CredentialEventKey {
                    id: credential.clone(),
                    user_id: user_id.to_string(),
                };
                (DeleteCredentialState::Publishing { credential }, Action::Send { event, key })
            },
            (DeleteCredentialState::Publishing { credential }, Some(Response::Sent)) => {
                (
                    DeleteCredentialState::Finished,
                    Action::Return(DeleteCredentialPayload { credential }),
                )
            },
            (DeleteCredentialState::Fetching { .. }, Some(Response::Failed(message))) => {
                (DeleteCredentialState::Finished, Action::Fail(OperationError::RemoteCall(message)))
            },
            (DeleteCredentialState::Deleting { .. }, Some(Response::Failed(message))) => {
                (DeleteCredentialState::Finished, Action::Fail(OperationError::RemoteCall(message)))
            },
            (DeleteCredentialState::Publishing { .. }, Some(Response::Failed(message))) => {
                (
                    DeleteCredentialState::Finished,
                    Action::Fail(OperationError::EventPublish(message)),
                )
            },
            _ => (
                DeleteCredentialState::Finished,
                Action::Fail(OperationError::UnexpectedResponse),
            ),
        }
    }
}

} // verus!
