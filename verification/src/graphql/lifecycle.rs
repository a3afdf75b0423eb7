//! What holds of the operations, whatever the authorization server and the
//! event channel answer.

use crate::error::{MappingError, OperationErrorView};
use crate::graphql::mutations::credential::{
    create_next, delete_next, edit_next, event_key, CreateCredentialInputView,
    CreateCredentialPayloadView, CreateCredentialStateView, DeleteCredentialInputView,
    DeleteCredentialPayloadView, DeleteCredentialStateView, EditCredentialStateView,
};
use crate::graphql::objects::access_token::map_access_token;
use crate::graphql::objects::credential::{map_credential, map_credentials, CredentialView};
use crate::graphql::objects::organization::{list_next, ListCredentialsStateView, Organization};
use crate::graphql::queries::credentials::{find_next, FindCredentialStateView};
use crate::graphql::step::{ActionView, ResponseView};
use crate::id::Uuid;
use crate::ory_client::models::{OAuth2ClientView, OAuth2TokenExchangeView};
use crate::ory_client::{ClientView, OperationView};
use crate::time::Timestamp;
use crate::AppContext;
use vstd::prelude::*;

verus! {

/// Every text that a credential holds: its identifier, its name, its scopes
/// and audiences, and the canonical texts of its creator and organization.
pub open spec fn credential_texts(credential: CredentialView) -> Set<Seq<char>> {
    Set::new(
        |text: Seq<char>|
            text == credential.client_id || text == credential.name
                || credential.scopes.contains(text) || credential.audiences.contains(text) || text
                == credential.created_by_id.text() || text == credential.organization_id.text(),
    )
}

/// What a creation returns when the authorization server answers the
/// creation with `client`, the exchange with `exchange` at the instant
/// `now`, and the event channel takes the event: the last action of the
/// four steps.
pub open spec fn create_outcome(
    ctx: AppContext,
    ory: ClientView,
    input: CreateCredentialInputView,
    client: OAuth2ClientView,
    exchange: OAuth2TokenExchangeView,
    now: Timestamp,
) -> ActionView<CreateCredentialPayloadView> {
    let started = create_next(ctx, ory, CreateCredentialStateView::Start { input }, None, now);
    let created = create_next(ctx, ory, started.0, Some(ResponseView::Client(client)), now);
    let exchanged = create_next(ctx, ory, created.0, Some(ResponseView::Token(exchange)), now);
    create_next(ctx, ory, exchanged.0, Some(ResponseView::Sent), now).1
}

/// A record without an owner describes no credential: the mapping fails,
/// and the error names a field.
pub proof fn lemma_missing_owner_is_refused(client: OAuth2ClientView)
    requires
        client.owner is None,
    ensures
        map_credential(client) matches Err(e) && e.names_field(),
        map_credential(client) != Err::<CredentialView, MappingError>(MappingError::Overflow),
{
}

/// A record whose owner denotes the organization `organization` and whose
/// one contact denotes the user `creator` describes, if it describes a
/// credential at all, a credential of that organization created by that
/// user. It describes one as soon as it also carries an identifier, a name
/// and a creation time that can be read.
pub proof fn lemma_owner_and_creator_are_kept(
    client: OAuth2ClientView,
    organization: Uuid,
    creator: Uuid,
)
    requires
        client.owner matches Some(owner) && Uuid::spec_parse(owner) == Some(organization),
        client.contacts matches Some(contacts) && contacts.len() == 1 && Uuid::spec_parse(
            contacts[0],
        ) == Some(creator),
    ensures
        map_credential(client) matches Ok(credential) ==> credential.organization_id
            == organization && credential.created_by_id == creator,
        client.client_id is Some && client.client_name is Some && client.created_at is Some
            && crate::time::parsed_datetime(
            client.created_at->0,
            crate::graphql::objects::credential::CREATED_AT_FORMAT@,
        ) is Some ==> map_credential(client) is Ok,
{
}

/// A creation that returns, returns the credential under the identifier
/// that the authorization server assigned in answer to the creation, as
/// that record describes it, with the access token that the exchange
/// granted; and the event went out under that identifier.
pub proof fn lemma_created_credential_carries_assigned_id(
    ctx: AppContext,
    ory: ClientView,
    input: CreateCredentialInputView,
    client: OAuth2ClientView,
    exchange: OAuth2TokenExchangeView,
    now: Timestamp,
)
    requires
        create_outcome(ctx, ory, input, client, exchange, now) is Return,
    ensures
        ({
            let payload = create_outcome(ctx, ory, input, client, exchange, now)->Return_0;
            let started = create_next(
                ctx,
                ory,
                CreateCredentialStateView::Start { input },
                None,
                now,
            );
            let created = create_next(ctx, ory, started.0, Some(ResponseView::Client(client)), now);
            let exchanged = create_next(
                ctx,
                ory,
                created.0,
                Some(ResponseView::Token(exchange)),
                now,
            );
            &&& client.client_id == Some(payload.credential.client_id)
            &&& map_credential(client) == Ok::<CredentialView, MappingError>(payload.credential)
            &&& exchange.access_token == Some(payload.access_token.access_token)
            &&& ctx.user_id is Some
            &&& exchanged.1 matches ActionView::Send { key, .. } && key == event_key(
                client.client_id->0,
                ctx.user_id->0,
            )
        }),
{
}

/// The access token that a creation returns is none of the texts of the
/// credential it returns, unless the authorization server itself granted a
/// token that equals one of the texts of the record it had just sent.
pub proof fn lemma_token_is_no_text_of_credential(
    ctx: AppContext,
    ory: ClientView,
    input: CreateCredentialInputView,
    client: OAuth2ClientView,
    exchange: OAuth2TokenExchangeView,
    now: Timestamp,
)
    requires
        create_outcome(ctx, ory, input, client, exchange, now) is Return,
        map_credential(client) matches Ok(described) && exchange.access_token matches Some(token)
            && !credential_texts(described).contains(token),
    ensures
        ({
            let payload = create_outcome(ctx, ory, input, client, exchange, now)->Return_0;
            !credential_texts(payload.credential).contains(payload.access_token.access_token)
        }),
{
    lemma_created_credential_carries_assigned_id(ctx, ory, input, client, exchange, now);
}

/// A creation publishes its event only in answer to a token exchange that
/// granted an access token, and then waits for nothing but the outcome of
/// the publication.
pub proof fn lemma_created_event_follows_exchange(
    ctx: AppContext,
    ory: ClientView,
    state: CreateCredentialStateView,
    response: Option<ResponseView>,
    now: Timestamp,
)
    requires
        create_next(ctx, ory, state, response, now).1 is Send,
    ensures
        state is Exchanging,
        response matches Some(ResponseView::Token(exchange)) && map_access_token(exchange, now)
            is Ok,
        create_next(ctx, ory, state, response, now).0 is Publishing,
{
}

/// A deletion publishes its event only in answer to the acknowledgement of
/// the deletion, and then waits for nothing but the outcome of the
/// publication.
pub proof fn lemma_deleted_event_follows_deletion(
    ctx: AppContext,
    ory: ClientView,
    state: DeleteCredentialStateView,
    response: Option<ResponseView>,
)
    requires
        delete_next(ctx, ory, state, response).1 is Send,
    ensures
        state is Deleting,
        response == Some(ResponseView::Deleted),
        delete_next(ctx, ory, state, response).0 is Publishing,
{
}

/// Once an operation waits for the outcome of a publication, or has ended,
/// no step publishes an event: an operation publishes at most one.
pub proof fn lemma_no_second_event(
    ctx: AppContext,
    ory: ClientView,
    creating: CreateCredentialStateView,
    deleting: DeleteCredentialStateView,
    response: Option<ResponseView>,
    now: Timestamp,
)
    ensures
        creating is Publishing || creating is Finished ==> !(create_next(
            ctx,
            ory,
            creating,
            response,
            now,
        ).1 is Send) && create_next(ctx, ory, creating, response, now).0 is Finished,
        deleting is Publishing || deleting is Finished ==> !(delete_next(
            ctx,
            ory,
            deleting,
            response,
        ).1 is Send) && delete_next(ctx, ory, deleting, response).0 is Finished,
{
}

/// Edits and reads publish no event.
pub proof fn lemma_edits_and_reads_are_silent(
    ctx: AppContext,
    ory: ClientView,
    organization: Organization,
    editing: EditCredentialStateView,
    finding: FindCredentialStateView,
    listing: ListCredentialsStateView,
    response: Option<ResponseView>,
)
    ensures
        !(edit_next(ctx, ory, editing, response).1 is Send),
        !(find_next(ory, finding, response).1 is Send),
        !(list_next(organization, ory, listing, response).1 is Send),
{
}

/// A deletion whose fetch fails ends there with the error of the call: the
/// client is not deleted and no event is published, then or later.
pub proof fn lemma_failed_fetch_aborts_deletion(
    ctx: AppContext,
    ory: ClientView,
    input: DeleteCredentialInputView,
    message: Seq<char>,
    later: Option<ResponseView>,
)
    requires
        ctx.user_id is Some,
    ensures
        ({
            let started = delete_next(ctx, ory, DeleteCredentialStateView::Start { input }, None);
            let fetched = delete_next(ctx, ory, started.0, Some(ResponseView::Failed(message)));
            &&& started.1 == ActionView::<DeleteCredentialPayloadView>::Call(
                ory.get_client(input.credential),
            )
            &&& fetched.1 == ActionView::<DeleteCredentialPayloadView>::Fail(
                OperationErrorView::RemoteCall(message),
            )
            &&& fetched.0 is Finished
            &&& delete_next(ctx, ory, fetched.0, later).1 is Fail
        }),
{
}

/// Whether a response is a client record that describes a credential.
pub open spec fn described_by(response: Option<ResponseView>) -> bool {
    response matches Some(ResponseView::Client(current)) && map_credential(current) is Ok
}

/// A client is deleted only in answer to a fetch of it that brought back a
/// record describing a credential, and replaced only in answer to such a
/// fetch: a mutation never goes out before the client could be described.
pub proof fn lemma_fetch_before_mutation(
    ctx: AppContext,
    ory: ClientView,
    deleting: DeleteCredentialStateView,
    editing: EditCredentialStateView,
    response: Option<ResponseView>,
)
    ensures
        delete_next(ctx, ory, deleting, response).1 matches ActionView::Call(call) ==> (
        call.operation is DeleteOAuth2Client ==> deleting is Fetching && described_by(response)),
        edit_next(ctx, ory, editing, response).1 matches ActionView::Call(call) ==> (
        call.operation is SetOAuth2Client ==> editing is Fetching && described_by(response)),
{
}

/// Two lookups of one identifier that the authorization server answers with
/// the same record ask the same of it and return the same credential, or
/// fail alike.
pub proof fn lemma_lookups_agree(
    ory: ClientView,
    client_id: Seq<char>,
    first: OAuth2ClientView,
    second: OAuth2ClientView,
)
    requires
        first == second,
    ensures
        ({
            let asked = find_next(ory, FindCredentialStateView::Start { client_id }, None);
            &&& asked.1 == ActionView::<CredentialView>::Call(ory.get_client(client_id))
            &&& find_next(ory, asked.0, Some(ResponseView::Client(first))) == find_next(
                ory,
                asked.0,
                Some(ResponseView::Client(second)),
            )
            &&& find_next(ory, asked.0, Some(ResponseView::Client(first))).1 == (match map_credential(
                first,
            ) {
                Ok(credential) => ActionView::Return(credential),
                Err(e) => ActionView::Fail(OperationErrorView::Mapping(e)),
            })
        }),
{
}

/// A listing returns as many credentials as the page holds records, each
/// the credential that the record in its place describes.
pub proof fn lemma_listing_keeps_order(clients: Seq<OAuth2ClientView>)
    requires
        map_credentials(clients) is Ok,
    ensures
        map_credentials(clients)->Ok_0.len() == clients.len(),
        forall|i: int|
            0 <= i < clients.len() ==> map_credential(#[trigger] clients[i]) == Ok::<
                CredentialView,
                MappingError,
            >(map_credentials(clients)->Ok_0[i]),
    decreases clients.len(),
{
    if clients.len() > 0 {
        let earlier = clients.drop_last();
        lemma_listing_keeps_order(earlier);
        let listed = map_credentials(clients)->Ok_0;
        assert forall|i: int| 0 <= i < clients.len() implies map_credential(#[trigger] clients[i])
            == Ok::<CredentialView, MappingError>(listed[i]) by {
            if i < earlier.len() {
                assert(clients[i] == earlier[i]);
            }
        }
    }
}

} // verus!
