//! Credentials and how one is read from a client record of the
//! authorization server.

use crate::error::{mapped, Field, MappingError};
use crate::id::Uuid;
use crate::ory_client::models::{OAuth2Client, OAuth2ClientView};
use crate::scope::{names, split};
use crate::time::{parse_datetime, parsed_datetime, Timestamp};
use vstd::prelude::*;

verus! {

/// The form in which the authorization server writes a creation time.
pub const CREATED_AT_FORMAT: &'static str = "%Y-%m-%dT%H:%M:%SZ";

/// An OAuth2 client application used for authentication with the API.
#[derive(Clone, Debug, PartialEq, Eq)]
pub struct Credential {
    /// A user-friendly name assigned to the credential.
    pub name: String,
    /// A unique identifier for the credential.
    pub client_id: String,
    /// The user who created the credential.
    pub created_by_id: Uuid,
    /// The organization the credential belongs to.
    pub organization_id: Uuid,
    /// When the credential was created, in UTC.
    pub created_at: Timestamp,
    /// The scopes granted to the credential.
    pub scopes: Vec<String>,
    /// The audiences the credential may ask tokens for.
    pub audiences: Vec<String>,
}

/// The mathematical content of a [`Credential`].
pub struct CredentialView {
    pub name: Seq<char>,
    pub client_id: Seq<char>,
    pub created_by_id: Uuid,
    pub organization_id: Uuid,
    pub created_at: Timestamp,
    pub scopes: Seq<Seq<char>>,
    pub audiences: Seq<Seq<char>>,
}

impl View for Credential {
    type V = CredentialView;

    open spec fn view(&self) -> CredentialView {
        CredentialView {
            name: self.name@,
            client_id: self.client_id@,
            created_by_id: self.created_by_id,
            organization_id: self.organization_id,
            created_at: self.created_at,
            scopes: self.scopes.deep_view(),
            audiences: self.audiences.deep_view(),
        }
    }
}

impl DeepView for Credential {
    type V = CredentialView;

    open spec fn deep_view(&self) -> CredentialView {
        self.view()
    }
}

/// The scopes of a client record: the names in its scope text, none where
/// the record carries no scope text.
pub open spec fn scopes_of(client: OAuth2ClientView) -> Seq<Seq<char>> {
    match client.scope {
        Some(text) => names(text),
        None => Seq::empty(),
    }
}

/// The audiences of a client record, none where the record lists none.
pub open spec fn audiences_of(client: OAuth2ClientView) -> Seq<Seq<char>> {
    match client.audience {
        Some(list) => list,
        None => Seq::empty(),
    }
}

/// The credential that a client record describes.
///
/// The record must carry an identifier, a name, a list of contacts whose
/// first entry denotes the creator, an owner that denotes the organization
/// and a creation time in [`CREATED_AT_FORMAT`]. The fields are examined in
/// that order and the first one that is absent or cannot be read is
/// reported. Scopes and audiences never fail the mapping.
pub open spec fn map_credential(client: OAuth2ClientView) -> Result<CredentialView, MappingError> {
    if client.client_id is None {
        Err(MappingError::Missing(Field::ClientId))
    } else if client.client_name is None {
        Err(MappingError::Missing(Field::ClientName))
    } else if client.contacts is None {
        Err(MappingError::Missing(Field::Contacts))
    } else if client.contacts->0.len() == 0 {
        Err(MappingError::Missing(Field::Contact))
    } else if Uuid::spec_parse(client.contacts->0[0]) is None {
        Err(MappingError::Malformed(Field::Contact))
    } else if client.owner is None {
        Err(MappingError::Missing(Field::Owner))
    } else if Uuid::spec_parse(client.owner->0) is None {
        Err(MappingError::Malformed(Field::Owner))
    } else if client.created_at is None {
        Err(MappingError::Missing(Field::CreatedAt))
    } else if parsed_datetime(client.created_at->0, CREATED_AT_FORMAT@) is None {
        Err(MappingError::Malformed(Field::CreatedAt))
    } else {
        Ok(
            CredentialView {
                name: client.client_name->0,
                client_id: client.client_id->0,
                created_by_id: Uuid::spec_parse(client.contacts->0[0])->0,
                organization_id: Uuid::spec_parse(client.owner->0)->0,
                created_at: parsed_datetime(client.created_at->0, CREATED_AT_FORMAT@)->0,
                scopes: scopes_of(client),
                audiences: audiences_of(client),
            },
        )
    }
}

/// The credentials that a list of client records describes, in the order of
/// the records. The first record that cannot be read fails the whole list
/// with its error.
pub open spec fn map_credentials(clients: Seq<OAuth2ClientView>) -> Result<
    Seq<CredentialView>,
    MappingError,
>
    decreases clients.len(),
{
    if clients.len() == 0 {
        Ok(Seq::empty())
    } else {
        match map_credentials(clients.drop_last()) {
            Err(e) => Err(e),
            Ok(done) => match map_credential(clients.last()) {
                Ok(credential) => Ok(done.push(credential)),
                Err(e) => Err(e),
            },
        }
    }
}

/// A copy of a list of texts.
pub fn copy_texts(list: &Vec<String>) -> (r: Vec<String>)
    ensures
        r.deep_view() == list.deep_view(),
{
    let mut out: Vec<String> = Vec::new();
    let mut i: usize = 0;
    while i < list.len()
        invariant
            i <= list.len(),
            out.len() == i,
            forall|k: int| 0 <= k < i ==> out[k]@ == list[k]@,
        decreases list.len() - i,
    {
        out.push(list[i].clone());
        i = i + 1;
    }
    out
}

/// Reads the credential that a client record describes.
pub fn to_credential(client: &OAuth2Client) -> (r: Result<Credential, MappingError>)
    ensures
        mapped(r) == map_credential(client@),
{
    let client_id = match &client.client_id {
        Some(id) => id.clone(),
        None => { return Err(MappingError::Missing(Field::ClientId)); },
    };
    let name = match &client.client_name {
        Some(name) => name.clone(),
        None => { return Err(MappingError::Missing(Field::ClientName)); },
    };
    let contacts = match &client.contacts {
        Some(contacts) => contacts,
        None => { return Err(MappingError::Missing(Field::Contacts)); },
    };
    if contacts.len() == 0 {
        return Err(MappingError::Missing(Field::Contact));
    }
    let created_by_id = match Uuid::parse_str(contacts[0].as_str()) {
        Some(id) => id,
        None => { return Err(MappingError::Malformed(Field::Contact)); },
    };
    let owner = match &client.owner {
        Some(owner) => owner,
        None => { return Err(MappingError::Missing(Field::Owner)); },
    };
    let organization_id = match Uuid::parse_str(owner.as_str()) {
        Some(id) => id,
        None => { return Err(MappingError::Malformed(Field::Owner)); },
    };
    let created_at = match &client.created_at {
        Some(created_at) => created_at,
        None => { return Err(MappingError::Missing(Field::CreatedAt)); },
    };
    let created_at = match parse_datetime(created_at.as_str(), CREATED_AT_FORMAT) {
        Ok(at) => at,
        Err(_) => { return Err(MappingError::Malformed(Field::CreatedAt)); },
    };
    let scopes = match &client.scope {
        Some(text) => split(text.as_str()),
        None => Vec::new(),
    };
    let audiences = match &client.audience {
        Some(list) => copy_texts(list),
        None => Vec::new(),
    };
    assert(client.scope is None ==> scopes.deep_view() =~= Seq::<Seq<char>>::empty());
    assert(client.audience is None ==> audiences.deep_view() =~= Seq::<Seq<char>>::empty());
    Ok(
        Credential {
            name,
            client_id,
            created_by_id,
            organization_id,
            created_at,
            scopes,
            audiences,
        },
    )
}

/// Reads the credentials that a list of client records describes.
pub fn to_credentials(clients: &Vec<OAuth2Client>) -> (r: Result<Vec<Credential>, MappingError>)
    ensures
        mapped(r) == map_credentials(clients.deep_view()),
{
    let mut out: Vec<Credential> = Vec::new();
    let mut i: usize = 0;
    assert(out.deep_view() =~= Seq::<CredentialView>::empty());
    while i < clients.len()
        invariant
            i <= clients.len(),
            map_credentials(clients.deep_view().take(i as int)) == Ok::<
                Seq<CredentialView>,
                MappingError,
            >(out.deep_view()),
        decreases clients.len() - i,
    {
        let ghost done = clients.deep_view().take(i as int);
        let ghost next = clients.deep_view().take(i + 1);
        assert(next.drop_last() =~= done);
        match to_credential(&clients[i]) {
            Ok(credential) => {
                let ghost before = out.deep_view();
                out.push(credential);
                assert(out.deep_view() =~= before.push(credential@));
            },
            Err(e) => {
                proof {
                    lemma_first_failure(clients.deep_view(), i + 1);
                }
                return Err(e);
            },
        }
        i = i + 1;
    }
    assert(clients.deep_view().take(clients.len() as int) =~= clients.deep_view());
    Ok(out)
}

/// A list whose beginning cannot be read fails with the error of that
/// beginning, whatever follows.
proof fn lemma_first_failure(clients: Seq<OAuth2ClientView>, upto: int)
    requires
        0 <= upto <= clients.len(),
        map_credentials(clients.take(upto)) is Err,
    ensures
        map_credentials(clients) == map_credentials(clients.take(upto)),
    decreases clients.len() - upto,
{
    if upto < clients.len() {
        assert(clients.take(upto + 1).drop_last() =~= clients.take(upto));
        lemma_first_failure(clients, upto + 1);
    } else {
        assert(clients.take(upto) =~= clients);
    }
}

} // verus!
