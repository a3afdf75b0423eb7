use hub_credentials::error::{Field, MappingError, OperationError};
use hub_credentials::graphql::mutations::credential::{
    build_client_request, build_event, to_texts, CreateCredentialInput, CreateCredentialPayload,
    CreateCredentialState, DeleteCredentialInput, DeleteCredentialPayload, DeleteCredentialState,
    EditCredentialInput, EditCredentialPayload, EditCredentialState, Mutation,
    ACCESS_TOKEN_LIFESPAN,
};
use hub_credentials::graphql::objects::access_token::to_access_token_at;
use hub_credentials::graphql::objects::organization::ListCredentialsState;
use hub_credentials::graphql::objects::{AccessToken, Credential, Organization};
use hub_credentials::graphql::queries::credentials::{find_credential, FindCredentialState};
use hub_credentials::graphql::queries::{credentials, organizations};
use hub_credentials::graphql::step::{Action, Response};
use hub_credentials::id::Uuid;
use hub_credentials::ory_client::models::{OAuth2Client, OAuth2TokenExchange};
use hub_credentials::ory_client::{Call, Client, Configuration, Operation, OryArgs};
use hub_credentials::proto::credential_events::Event;
use hub_credentials::proto::{CredentialEventKey, CredentialEvents};
use hub_credentials::time::Timestamp;
use hub_credentials::AppContext;

const ORGANIZATION: Uuid = Uuid { value: 0x11111111_1111_1111_1111_111111111111 };
const USER: Uuid = Uuid { value: 0x22222222_2222_2222_2222_222222222222 };
const ORGANIZATION_TEXT: &str = "11111111-1111-1111-1111-111111111111";
const USER_TEXT: &str = "22222222-2222-2222-2222-222222222222";
const NOW: Timestamp = Timestamp { seconds: 1_675_107_153, nanos: 0 };

fn ory() -> Client {
    Client::new(OryArgs {
        ory_admin_base_url: "http://admin:4445".to_string(),
        ory_public_base_url: "http://public:4444".to_string(),
        ory_auth_token: "t0ken".to_string(),
    })
}

fn caller() -> AppContext {
    AppContext::new(Some(USER))
}

fn nobody() -> AppContext {
    AppContext::new(None)
}

fn admin() -> Configuration {
    Configuration {
        base_path: "http://admin:4445".to_string(),
        bearer_access_token: Some("t0ken".to_string()),
        basic_auth: None,
    }
}

fn request(name: &str, owner: &str) -> OAuth2Client {
    OAuth2Client {
        client_id: None,
        client_name: Some(name.to_string()),
        client_secret: None,
        contacts: Some(vec![USER_TEXT.to_string()]),
        owner: Some(owner.to_string()),
        created_at: None,
        grant_types: Some(vec!["client_credentials".to_string()]),
        client_credentials_grant_access_token_lifespan: Some("8760h".to_string()),
        scope: None,
        audience: None,
    }
}

fn issued(name: &str) -> OAuth2Client {
    let mut record = request(name, ORGANIZATION_TEXT);
    record.client_id = Some("abc123".to_string());
    record.client_secret = Some("s3cr3t".to_string());
    record.created_at = Some("2023-01-30T19:32:33Z".to_string());
    record
}

fn stored(name: &str) -> OAuth2Client {
    let mut record = issued(name);
    record.client_secret = None;
    record
}

fn credential(name: &str) -> Credential {
    Credential {
        name: name.to_string(),
        client_id: "abc123".to_string(),
        created_by_id: USER,
        organization_id: ORGANIZATION,
        created_at: NOW,
        scopes: vec![],
        audiences: vec![],
    }
}

fn granted() -> OAuth2TokenExchange {
    OAuth2TokenExchange {
        access_token: Some("ory_at_0123".to_string()),
        expires_in: Some(31_535_999),
        token_type: Some("bearer".to_string()),
    }
}

fn input() -> CreateCredentialInput {
    CreateCredentialInput {
        organization: ORGANIZATION,
        name: "svc-a".to_string(),
        projects: None,
        scopes: None,
    }
}

fn told(created: bool, name: &str) -> CredentialEvents {
    let client = hub_credentials::proto::OAuth2Client {
        user_id: USER_TEXT.to_string(),
        client_name: name.to_string(),
        organization: ORGANIZATION_TEXT.to_string(),
    };
    CredentialEvents {
        event: Some(if created {
            Event::Oauth2ClientCreated(client)
        } else {
            Event::Oauth2ClientDeleted(client)
        }),
    }
}

fn key() -> CredentialEventKey {
    CredentialEventKey { id: "abc123".to_string(), user_id: USER_TEXT.to_string() }
}

fn failed(reason: &str) -> Option<Response> {
    Some(Response::Failed(reason.to_string()))
}

#[test]
fn token_lives_one_year() {
    assert_eq!(ACCESS_TOKEN_LIFESPAN, "8760h");
}

#[test]
fn identifiers_are_written_as_texts() {
    assert_eq!(
        to_texts(&vec![ORGANIZATION, USER]),
        vec![ORGANIZATION_TEXT.to_string(), USER_TEXT.to_string()]
    );
    assert_eq!(to_texts(&vec![]), Vec::<String>::new());
}

#[test]
fn client_request_is_built_from_the_input() {
    assert_eq!(
        build_client_request("svc-a".to_string(), ORGANIZATION, USER, &None, &None),
        request("svc-a", ORGANIZATION_TEXT)
    );
}

#[test]
fn client_request_carries_scopes_and_projects() {
    let project = Uuid { value: 0x33333333_3333_3333_3333_333333333333 };
    let mut expected = request("svc-a", ORGANIZATION_TEXT);
    expected.scope = Some("read write".to_string());
    expected.audience = Some(vec!["33333333-3333-3333-3333-333333333333".to_string()]);
    assert_eq!(
        build_client_request(
            "svc-a".to_string(),
            ORGANIZATION,
            USER,
            &Some(vec!["read".to_string(), "write".to_string()]),
            &Some(vec![project]),
        ),
        expected
    );
}

#[test]
fn events_are_built_for_creation_and_deletion() {
    assert_eq!(build_event(true, USER, "svc-a".to_string(), ORGANIZATION), told(true, "svc-a"));
    assert_eq!(build_event(false, USER, "svc-a".to_string(), ORGANIZATION), told(false, "svc-a"));
}

#[test]
fn create_scenario() {
    let mutation = Mutation;
    let mut events: Vec<(CredentialEvents, CredentialEventKey)> = Vec::new();

    let (state, action) = mutation.create_credential_at(
        &caller(),
        &ory(),
        CreateCredentialState::Start { input: input() },
        None,
        NOW,
    );
    assert_eq!(
        action,
        Action::Call(Call {
            configuration: admin(),
            operation: Operation::CreateOAuth2Client {
                client: request("svc-a", ORGANIZATION_TEXT)
            },
        })
    );
    assert_eq!(state, CreateCredentialState::Creating { user_id: USER, organization: ORGANIZATION });

    let (state, action) = mutation.create_credential_at(
        &caller(),
        &ory(),
        state,
        Some(Response::Client(issued("svc-a"))),
        NOW,
    );
    assert_eq!(action, Action::Call(ory().exchange_token("abc123".to_string(), "s3cr3t".to_string())));

    let (state, action) = mutation.create_credential_at(
        &caller(),
        &ory(),
        state,
        Some(Response::Token(granted())),
        NOW,
    );
    match action {
        Action::Send { event, key } => events.push((event, key)),
        other => panic!("an event is due, not {:?}", other),
    }

    let (state, action) =
        mutation.create_credential_at(&caller(), &ory(), state, Some(Response::Sent), NOW);
    assert_eq!(state, CreateCredentialState::Finished);
    let payload = match action {
        Action::Return(payload) => payload,
        other => panic!("the result is due, not {:?}", other),
    };

    assert_eq!(payload.credential, credential("svc-a"));
    assert_eq!(payload.credential.client_id, "abc123");
    assert_eq!(payload.credential.name, "svc-a");
    assert_eq!(payload.credential.organization_id, ORGANIZATION);
    assert_eq!(payload.credential.created_by_id, USER);
    assert!(!payload.access_token.access_token.is_empty());
    assert_eq!(payload.access_token.access_token, "ory_at_0123");
    assert_eq!(payload.access_token.token_type, "bearer");
    assert_eq!(
        payload.access_token.expires_at,
        Timestamp { seconds: NOW.seconds + 364 * 86_400, nanos: 0 }
    );
    assert!(payload.access_token.expires_at.seconds > NOW.seconds);
    assert_ne!(payload.access_token.access_token, payload.credential.client_id);
    assert_ne!(payload.access_token.access_token, payload.credential.name);
    assert_ne!(payload.access_token.access_token, "s3cr3t");

    assert_eq!(events, vec![(told(true, "svc-a"), key())]);
}

#[test]
fn create_scenario_by_the_clock() {
    let mutation = Mutation;
    let (state, _) = mutation.create_credential(
        &caller(),
        &ory(),
        CreateCredentialState::Start { input: input() },
        None,
    );
    let (state, _) =
        mutation.create_credential(&caller(), &ory(), state, Some(Response::Client(issued("svc-a"))));
    let (state, action) =
        mutation.create_credential(&caller(), &ory(), state, Some(Response::Token(granted())));
    assert_eq!(action, Action::Send { event: told(true, "svc-a"), key: key() });
    let (state, action) = mutation.create_credential(&caller(), &ory(), state, Some(Response::Sent));
    assert_eq!(state, CreateCredentialState::Finished);
    match action {
        Action::Return(CreateCredentialPayload { credential: created, access_token }) => {
            assert_eq!(created, credential("svc-a"));
            assert!(access_token.expires_at.seconds > NOW.seconds);
        },
        other => panic!("the result is due, not {:?}", other),
    }
}

#[test]
fn create_needs_a_caller() {
    let (state, action) = Mutation.create_credential(
        &nobody(),
        &ory(),
        CreateCredentialState::Start { input: input() },
        None,
    );
    assert_eq!(action, Action::Fail(OperationError::MissingIdentity));
    assert_eq!(state, CreateCredentialState::Finished);
}

#[test]
fn create_passes_scopes_and_projects_on() {
    let project = Uuid { value: 0x33333333_3333_3333_3333_333333333333 };
    let mut asked = input();
    asked.scopes = Some(vec!["read".to_string(), "write".to_string()]);
    asked.projects = Some(vec![project]);
    let (_, action) = Mutation.create_credential(
        &caller(),
        &ory(),
        CreateCredentialState::Start { input: asked },
        None,
    );
    let mut expected = request("svc-a", ORGANIZATION_TEXT);
    expected.scope = Some("read write".to_string());
    expected.audience = Some(vec!["33333333-3333-3333-3333-333333333333".to_string()]);
    assert_eq!(action, Action::Call(ory().create_client(expected)));
}

#[test]
fn create_fails_when_the_server_refuses() {
    let state = CreateCredentialState::Creating { user_id: USER, organization: ORGANIZATION };
    let (state, action) = Mutation.create_credential(&caller(), &ory(), state, failed("503"));
    assert_eq!(action, Action::Fail(OperationError::RemoteCall("503".to_string())));
    assert_eq!(state, CreateCredentialState::Finished);
}

#[test]
fn create_refuses_a_client_without_identifier() {
    let mut record = issued("svc-a");
    record.client_id = None;
    let state = CreateCredentialState::Creating { user_id: USER, organization: ORGANIZATION };
    let (_, action) =
        Mutation.create_credential(&caller(), &ory(), state, Some(Response::Client(record)));
    assert_eq!(
        action,
        Action::Fail(OperationError::Mapping(MappingError::Missing(Field::ClientId)))
    );
}

#[test]
fn create_refuses_a_client_without_secret() {
    let state = CreateCredentialState::Creating { user_id: USER, organization: ORGANIZATION };
    let (state, action) =
        Mutation.create_credential(&caller(), &ory(), state, Some(Response::Client(stored("svc-a"))));
    assert_eq!(
        action,
        Action::Fail(OperationError::Mapping(MappingError::Missing(Field::ClientSecret)))
    );
    assert_eq!(state, CreateCredentialState::Finished);
}

#[test]
fn create_reports_the_secret_before_other_fields() {
    let mut record = stored("svc-a");
    record.owner = None;
    let state = CreateCredentialState::Creating { user_id: USER, organization: ORGANIZATION };
    let (_, action) =
        Mutation.create_credential(&caller(), &ory(), state, Some(Response::Client(record)));
    assert_eq!(
        action,
        Action::Fail(OperationError::Mapping(MappingError::Missing(Field::ClientSecret)))
    );
}

#[test]
fn create_refuses_a_client_that_describes_no_credential() {
    let mut record = issued("svc-a");
    record.owner = None;
    let state = CreateCredentialState::Creating { user_id: USER, organization: ORGANIZATION };
    let (_, action) =
        Mutation.create_credential(&caller(), &ory(), state, Some(Response::Client(record)));
    assert_eq!(action, Action::Fail(OperationError::Mapping(MappingError::Missing(Field::Owner))));
}

#[test]
fn create_fails_when_the_exchange_fails_and_publishes_nothing() {
    let state = CreateCredentialState::Exchanging {
        user_id: USER,
        organization: ORGANIZATION,
        credential: credential("svc-a"),
    };
    let (state, action) = Mutation.create_credential(&caller(), &ory(), state, failed("401"));
    assert_eq!(action, Action::Fail(OperationError::RemoteCall("401".to_string())));
    let (_, action) = Mutation.create_credential(&caller(), &ory(), state, Some(Response::Sent));
    assert_eq!(action, Action::Fail(OperationError::UnexpectedResponse));
}

#[test]
fn create_fails_on_a_token_that_cannot_be_read() {
    let mut sent = granted();
    sent.expires_in = None;
    let state = CreateCredentialState::Exchanging {
        user_id: USER,
        organization: ORGANIZATION,
        credential: credential("svc-a"),
    };
    let (_, action) =
        Mutation.create_credential(&caller(), &ory(), state, Some(Response::Token(sent)));
    assert_eq!(
        action,
        Action::Fail(OperationError::Mapping(MappingError::Missing(Field::ExpiresIn)))
    );
}

#[test]
fn create_fails_on_a_token_that_never_expires() {
    let mut sent = granted();
    sent.expires_in = Some(i64::MAX);
    let state = CreateCredentialState::Exchanging {
        user_id: USER,
        organization: ORGANIZATION,
        credential: credential("svc-a"),
    };
    let (_, action) =
        Mutation.create_credential_at(&caller(), &ory(), state, Some(Response::Token(sent)), NOW);
    assert_eq!(action, Action::Fail(OperationError::Mapping(MappingError::Overflow)));
}

#[test]
fn create_fails_when_the_event_is_refused() {
    let payload = CreateCredentialPayload {
        credential: credential("svc-a"),
        access_token: to_access_token_at(&granted(), NOW).unwrap(),
    };
    let state = CreateCredentialState::Publishing { payload };
    let (state, action) = Mutation.create_credential(&caller(), &ory(), state, failed("broker down"));
    assert_eq!(action, Action::Fail(OperationError::EventPublish("broker down".to_string())));
    assert_eq!(state, CreateCredentialState::Finished);
}

#[test]
fn create_event_names_the_organization_of_the_request() {
    let elsewhere = Uuid { value: 0x44444444_4444_4444_4444_444444444444 };
    let state = CreateCredentialState::Exchanging {
        user_id: USER,
        organization: elsewhere,
        credential: credential("svc-a"),
    };
    let (_, action) =
        Mutation.create_credential(&caller(), &ory(), state, Some(Response::Token(granted())));
    match action {
        Action::Send {
            event: CredentialEvents { event: Some(Event::Oauth2ClientCreated(client)) },
            key: sent_key,
        } => {
            assert_eq!(client.organization, "44444444-4444-4444-4444-444444444444");
            assert_eq!(client.client_name, "svc-a");
            assert_eq!(client.user_id, USER_TEXT);
            assert_eq!(sent_key, key());
        },
        other => panic!("an event is due, not {:?}", other),
    }
}

#[test]
fn responses_out_of_turn_end_a_creation() {
    let mutation = Mutation;
    let (_, action) = mutation.create_credential(
        &caller(),
        &ory(),
        CreateCredentialState::Start { input: input() },
        Some(Response::Sent),
    );
    assert_eq!(action, Action::Fail(OperationError::UnexpectedResponse));
    let creating = CreateCredentialState::Creating { user_id: USER, organization: ORGANIZATION };
    let (_, action) = mutation.create_credential(&caller(), &ory(), creating.clone(), None);
    assert_eq!(action, Action::Fail(OperationError::UnexpectedResponse));
    let (_, action) =
        mutation.create_credential(&caller(), &ory(), creating, Some(Response::Token(granted())));
    assert_eq!(action, Action::Fail(OperationError::UnexpectedResponse));
    let (state, action) =
        mutation.create_credential(&caller(), &ory(), CreateCredentialState::Finished, None);
    assert_eq!(action, Action::Fail(OperationError::UnexpectedResponse));
    assert_eq!(state, CreateCredentialState::Finished);
}

#[test]
fn delete_scenario_of_a_client_that_does_not_exist() {
    let mutation = Mutation;
    let mut events: Vec<(CredentialEvents, CredentialEventKey)> = Vec::new();
    let mut calls: Vec<Call> = Vec::new();

    let (state, action) = mutation.delete_credential(
        &caller(),
        &ory(),
        DeleteCredentialState::Start {
            input: DeleteCredentialInput { credential: "missing".to_string() },
        },
        None,
    );
    match action {
        Action::Call(call) => calls.push(call),
        other => panic!("a call is due, not {:?}", other),
    }
    assert_eq!(calls, vec![ory().get_client("missing")]);

    let (state, action) = mutation.delete_credential(&caller(), &ory(), state, failed("404"));
    assert_eq!(action, Action::Fail(OperationError::RemoteCall("404".to_string())));
    assert_eq!(state, DeleteCredentialState::Finished);

    for later in [None, Some(Response::Deleted), Some(Response::Sent), failed("again")] {
        let (state, action) =
            mutation.delete_credential(&caller(), &ory(), DeleteCredentialState::Finished, later);
        if let Action::Send { event, key } = action {
            events.push((event, key));
        }
        assert_eq!(state, DeleteCredentialState::Finished);
    }
    assert!(events.is_empty());
}

#[test]
fn delete_runs_fetch_delete_publish() {
    let mutation = Mutation;
    let (state, action) = mutation.delete_credential(
        &caller(),
        &ory(),
        DeleteCredentialState::Start {
            input: DeleteCredentialInput { credential: "abc123".to_string() },
        },
        None,
    );
    assert_eq!(action, Action::Call(ory().get_client("abc123")));
    assert_eq!(
        state,
        DeleteCredentialState::Fetching { user_id: USER, credential: "abc123".to_string() }
    );

    let (state, action) =
        mutation.delete_credential(&caller(), &ory(), state, Some(Response::Client(stored("svc-a"))));
    assert_eq!(action, Action::Call(ory().delete_client("abc123")));

    let (state, action) =
        mutation.delete_credential(&caller(), &ory(), state, Some(Response::Deleted));
    assert_eq!(action, Action::Send { event: told(false, "svc-a"), key: key() });
    assert_eq!(state, DeleteCredentialState::Publishing { credential: "abc123".to_string() });

    let (state, action) = mutation.delete_credential(&caller(), &ory(), state, Some(Response::Sent));
    assert_eq!(
        action,
        Action::Return(DeleteCredentialPayload { credential: "abc123".to_string() })
    );
    assert_eq!(state, DeleteCredentialState::Finished);
}

#[test]
fn delete_needs_a_caller() {
    let (_, action) = Mutation.delete_credential(
        &nobody(),
        &ory(),
        DeleteCredentialState::Start {
            input: DeleteCredentialInput { credential: "abc123".to_string() },
        },
        None,
    );
    assert_eq!(action, Action::Fail(OperationError::MissingIdentity));
}

#[test]
fn delete_leaves_a_client_that_cannot_be_described() {
    let mut record = stored("svc-a");
    record.owner = None;
    let state = DeleteCredentialState::Fetching { user_id: USER, credential: "abc123".to_string() };
    let (state, action) =
        Mutation.delete_credential(&caller(), &ory(), state, Some(Response::Client(record)));
    assert_eq!(action, Action::Fail(OperationError::Mapping(MappingError::Missing(Field::Owner))));
    assert_eq!(state, DeleteCredentialState::Finished);
}

#[test]
fn delete_publishes_nothing_when_the_deletion_fails() {
    let state = DeleteCredentialState::Deleting {
        user_id: USER,
        credential: "abc123".to_string(),
        client_name: "svc-a".to_string(),
        organization: ORGANIZATION,
    };
    let (state, action) = Mutation.delete_credential(&caller(), &ory(), state, failed("500"));
    assert_eq!(action, Action::Fail(OperationError::RemoteCall("500".to_string())));
    assert_eq!(state, DeleteCredentialState::Finished);
}

#[test]
fn delete_fails_when_the_event_is_refused() {
    let state = DeleteCredentialState::Publishing { credential: "abc123".to_string() };
    let (_, action) = Mutation.delete_credential(&caller(), &ory(), state, failed("broker down"));
    assert_eq!(action, Action::Fail(OperationError::EventPublish("broker down".to_string())));
}

#[test]
fn delete_waits_for_the_acknowledgement() {
    let state = DeleteCredentialState::Deleting {
        user_id: USER,
        credential: "abc123".to_string(),
        client_name: "svc-a".to_string(),
        organization: ORGANIZATION,
    };
    let (_, action) = Mutation.delete_credential(&caller(), &ory(), state, Some(Response::Sent));
    assert_eq!(action, Action::Fail(OperationError::UnexpectedResponse));
}

#[test]
fn edit_scenario_resubmits_the_owner() {
    let mutation = Mutation;
    let (state, action) = mutation.edit_credential(
        &caller(),
        &ory(),
        EditCredentialState::Start {
            input: EditCredentialInput {
                client_id: "abc123".to_string(),
                name: "svc-b".to_string(),
            },
        },
        None,
    );
    assert_eq!(action, Action::Call(ory().get_client("abc123")));

    let (state, action) =
        mutation.edit_credential(&caller(), &ory(), state, Some(Response::Client(stored("svc-a"))));
    assert_eq!(state, EditCredentialState::Updating);
    match &action {
        Action::Call(Call { operation: Operation::SetOAuth2Client { id, client }, .. }) => {
            assert_eq!(id, "abc123");
            assert_eq!(client.owner, Some(ORGANIZATION_TEXT.to_string()));
            assert_eq!(client.client_name, Some("svc-b".to_string()));
        },
        other => panic!("a replacement is due, not {:?}", other),
    }
    assert_eq!(
        action,
        Action::Call(ory().update_client("abc123", request("svc-b", ORGANIZATION_TEXT)))
    );

    let (state, action) =
        mutation.edit_credential(&caller(), &ory(), state, Some(Response::Client(stored("svc-b"))));
    assert_eq!(action, Action::Return(EditCredentialPayload { credential: credential("svc-b") }));
    assert_eq!(state, EditCredentialState::Finished);
}

#[test]
fn edit_resubmits_the_owner_whatever_form_it_came_in() {
    let mut current = stored("svc-a");
    current.owner = Some("{11111111-1111-1111-1111-111111111111}".to_string());
    let state = EditCredentialState::Fetching {
        user_id: USER,
        input: EditCredentialInput { client_id: "abc123".to_string(), name: "svc-b".to_string() },
    };
    let (_, action) =
        Mutation.edit_credential(&caller(), &ory(), state, Some(Response::Client(current)));
    assert_eq!(
        action,
        Action::Call(ory().update_client("abc123", request("svc-b", ORGANIZATION_TEXT)))
    );
}

#[test]
fn edit_needs_a_caller() {
    let (_, action) = Mutation.edit_credential(
        &nobody(),
        &ory(),
        EditCredentialState::Start {
            input: EditCredentialInput { client_id: "abc123".to_string(), name: "x".to_string() },
        },
        None,
    );
    assert_eq!(action, Action::Fail(OperationError::MissingIdentity));
}

#[test]
fn edit_fails_when_the_fetch_or_the_replacement_fails() {
    let state = EditCredentialState::Fetching {
        user_id: USER,
        input: EditCredentialInput { client_id: "abc123".to_string(), name: "svc-b".to_string() },
    };
    let (_, action) = Mutation.edit_credential(&caller(), &ory(), state, failed("404"));
    assert_eq!(action, Action::Fail(OperationError::RemoteCall("404".to_string())));
    let (_, action) =
        Mutation.edit_credential(&caller(), &ory(), EditCredentialState::Updating, failed("409"));
    assert_eq!(action, Action::Fail(OperationError::RemoteCall("409".to_string())));
}

#[test]
fn edit_fails_on_records_that_describe_no_credential() {
    let mut record = stored("svc-a");
    record.created_at = Some("today".to_string());
    let state = EditCredentialState::Fetching {
        user_id: USER,
        input: EditCredentialInput { client_id: "abc123".to_string(), name: "svc-b".to_string() },
    };
    let (_, action) =
        Mutation.edit_credential(&caller(), &ory(), state, Some(Response::Client(record.clone())));
    assert_eq!(
        action,
        Action::Fail(OperationError::Mapping(MappingError::Malformed(Field::CreatedAt)))
    );
    let (_, action) = Mutation.edit_credential(
        &caller(),
        &ory(),
        EditCredentialState::Updating,
        Some(Response::Client(record)),
    );
    assert_eq!(
        action,
        Action::Fail(OperationError::Mapping(MappingError::Malformed(Field::CreatedAt)))
    );
}

#[test]
fn edit_publishes_nothing() {
    let states = [
        EditCredentialState::Start {
            input: EditCredentialInput { client_id: "abc123".to_string(), name: "x".to_string() },
        },
        EditCredentialState::Fetching {
            user_id: USER,
            input: EditCredentialInput { client_id: "abc123".to_string(), name: "x".to_string() },
        },
        EditCredentialState::Updating,
        EditCredentialState::Finished,
    ];
    let responses = [
        None,
        Some(Response::Client(stored("svc-a"))),
        Some(Response::Clients(vec![])),
        Some(Response::Token(granted())),
        Some(Response::Deleted),
        Some(Response::Sent),
        failed("no"),
    ];
    for state in &states {
        for response in &responses {
            let (_, action) =
                Mutation.edit_credential(&caller(), &ory(), state.clone(), response.clone());
            assert!(!matches!(action, Action::Send { .. }));
        }
    }
}

#[test]
fn lookup_fetches_and_reads() {
    let query = credentials::Query;
    let (state, action) = query.find_credential_by_client_id(
        &ory(),
        FindCredentialState::Start { client_id: "abc123".to_string() },
        None,
    );
    assert_eq!(action, Action::Call(ory().get_client("abc123")));
    assert_eq!(state, FindCredentialState::Fetching);
    let (state, action) =
        query.find_credential_by_client_id(&ory(), state, Some(Response::Client(stored("svc-a"))));
    assert_eq!(action, Action::Return(credential("svc-a")));
    assert_eq!(state, FindCredentialState::Finished);
}

#[test]
fn lookup_twice_returns_the_same() {
    let run = || {
        let (state, first) = find_credential(
            &ory(),
            FindCredentialState::Start { client_id: "abc123".to_string() },
            None,
        );
        let (_, second) = find_credential(&ory(), state, Some(Response::Client(stored("svc-a"))));
        (first, second)
    };
    assert_eq!(run(), run());
}

#[test]
fn lookup_fails_with_the_call_or_the_record() {
    let (_, action) = find_credential(&ory(), FindCredentialState::Fetching, failed("404"));
    assert_eq!(action, Action::Fail(OperationError::RemoteCall("404".to_string())));
    let (_, action) = find_credential(
        &ory(),
        FindCredentialState::Fetching,
        Some(Response::Client(OAuth2Client::default())),
    );
    assert_eq!(
        action,
        Action::Fail(OperationError::Mapping(MappingError::Missing(Field::ClientId)))
    );
    let (_, action) = find_credential(&ory(), FindCredentialState::Fetching, Some(Response::Sent));
    assert_eq!(action, Action::Fail(OperationError::UnexpectedResponse));
}

#[test]
fn organization_is_found_by_its_identifier() {
    assert_eq!(
        organizations::Query.find_organization_by_id(ORGANIZATION),
        Organization { id: ORGANIZATION }
    );
}

#[test]
fn organization_looks_one_credential_up() {
    let organization = Organization { id: ORGANIZATION };
    let (state, action) = organization.credential(
        &ory(),
        FindCredentialState::Start { client_id: "abc123".to_string() },
        None,
    );
    assert_eq!(action, Action::Call(ory().get_client("abc123")));
    let (_, action) =
        organization.credential(&ory(), state, Some(Response::Client(stored("svc-a"))));
    assert_eq!(action, Action::Return(credential("svc-a")));
}

#[test]
fn organization_lists_its_credentials() {
    let organization = Organization { id: ORGANIZATION };
    let (state, action) = organization.credentials(
        &ory(),
        ListCredentialsState::Start { limit: Some(10), offset: Some("20".to_string()) },
        None,
    );
    assert_eq!(
        action,
        Action::Call(ory().list_clients(ORGANIZATION_TEXT, Some(10), Some("20")))
    );
    assert_eq!(state, ListCredentialsState::Listing);
    let (state, action) = organization.credentials(
        &ory(),
        state,
        Some(Response::Clients(vec![stored("svc-a"), stored("svc-b")])),
    );
    assert_eq!(action, Action::Return(vec![credential("svc-a"), credential("svc-b")]));
    assert_eq!(state, ListCredentialsState::Finished);
}

#[test]
fn organization_lists_without_page() {
    let organization = Organization { id: ORGANIZATION };
    let (_, action) = organization.credentials(
        &ory(),
        ListCredentialsState::Start { limit: None, offset: None },
        None,
    );
    assert_eq!(action, Action::Call(ory().list_clients(ORGANIZATION_TEXT, None, None)));
}

#[test]
fn listing_fails_with_the_call_or_a_record() {
    let organization = Organization { id: ORGANIZATION };
    let (_, action) =
        organization.credentials(&ory(), ListCredentialsState::Listing, failed("503"));
    assert_eq!(action, Action::Fail(OperationError::RemoteCall("503".to_string())));
    let mut broken = stored("svc-b");
    broken.contacts = Some(vec![]);
    let (_, action) = organization.credentials(
        &ory(),
        ListCredentialsState::Listing,
        Some(Response::Clients(vec![stored("svc-a"), broken])),
    );
    assert_eq!(
        action,
        Action::Fail(OperationError::Mapping(MappingError::Missing(Field::Contact)))
    );
    let (_, action) = organization.credentials(
        &ory(),
        ListCredentialsState::Listing,
        Some(Response::Client(stored("svc-a"))),
    );
    assert_eq!(action, Action::Fail(OperationError::UnexpectedResponse));
}

#[test]
fn access_token_is_what_the_exchange_granted() {
    let token: AccessToken = to_access_token_at(&granted(), NOW).unwrap();
    assert_eq!(token.access_token, "ory_at_0123");
}
