//! The records that the authorization server sends and accepts, with the
//! fields that this crate reads or fills. Every field is optional on the
//! wire.

use vstd::prelude::*;

verus! {

/// An OAuth2 client as the authorization server describes it.
#[derive(Clone, Debug, PartialEq, Eq)]
pub struct OAuth2Client {
    /// The identifier that the authorization server assigned.
    pub client_id: Option<String>,
    /// The friendly name of the client.
    pub client_name: Option<String>,
    /// The secret of the client, sent once, when the client is created.
    pub client_secret: Option<String>,
    /// Who to contact about the client; the first entry is its creator.
    pub contacts: Option<Vec<String>>,
    /// The organization that owns the client.
    pub owner: Option<String>,
    /// When the client was created.
    pub created_at: Option<String>,
    /// The grants that the client may use.
    pub grant_types: Option<Vec<String>>,
    /// How long an access token of the client-credentials grant lives.
    pub client_credentials_grant_access_token_lifespan: Option<String>,
    /// The scopes that the client may ask for, separated by spaces.
    pub scope: Option<String>,
    /// The audiences that the client may ask tokens for.
    pub audience: Option<Vec<String>>,
}

/// The mathematical content of an [`OAuth2Client`].
pub struct OAuth2ClientView {
    pub client_id: Option<Seq<char>>,
    pub client_name: Option<Seq<char>>,
    pub client_secret: Option<Seq<char>>,
    pub contacts: Option<Seq<Seq<char>>>,
    pub owner: Option<Seq<char>>,
    pub created_at: Option<Seq<char>>,
    pub grant_types: Option<Seq<Seq<char>>>,
    pub client_credentials_grant_access_token_lifespan: Option<Seq<char>>,
    pub scope: Option<Seq<char>>,
    pub audience: Option<Seq<Seq<char>>>,
}

impl OAuth2ClientView {
    /// The record with no field set.
    pub open spec fn empty() -> OAuth2ClientView {
        OAuth2ClientView {
            client_id: None,
            client_name: None,
            client_secret: None,
            contacts: None,
            owner: None,
            created_at: None,
            grant_types: None,
            client_credentials_grant_access_token_lifespan: None,
            scope: None,
            audience: None,
        }
    }
}

impl View for OAuth2Client {
    type V = OAuth2ClientView;

    open spec fn view(&self) -> OAuth2ClientView {
        OAuth2ClientView {
            client_id: self.client_id.deep_view(),
            client_name: self.client_name.deep_view(),
            client_secret: self.client_secret.deep_view(),
            contacts: self.contacts.deep_view(),
            owner: self.owner.deep_view(),
            created_at: self.created_at.deep_view(),
            grant_types: self.grant_types.deep_view(),
            client_credentials_grant_access_token_lifespan:
                self.client_credentials_grant_access_token_lifespan.deep_view(),
            scope: self.scope.deep_view(),
            audience: self.audience.deep_view(),
        }
    }
}

impl DeepView for OAuth2Client {
    type V = OAuth2ClientView;

    open spec fn deep_view(&self) -> OAuth2ClientView {
        self.view()
    }
}

impl Default for OAuth2Client {
    /// The record with no field set.
    fn default() -> (r: Self)
        ensures
            r@ == OAuth2ClientView::empty(),
    {
        OAuth2Client {
            client_id: None,
            client_name: None,
            client_secret: None,
            contacts: None,
            owner: None,
            created_at: None,
            grant_types: None,
            client_credentials_grant_access_token_lifespan: None,
            scope: None,
            audience: None,
        }
    }
}

/// What the authorization server answers to a token exchange.
#[derive(Clone, Debug, PartialEq, Eq)]
pub struct OAuth2TokenExchange {
    /// The access token.
    pub access_token: Option<String>,
    /// The lifetime of the access token in seconds.
    pub expires_in: Option<i64>,
    /// The type of the access token.
    pub token_type: Option<String>,
}

/// The mathematical content of an [`OAuth2TokenExchange`].
pub struct OAuth2TokenExchangeView {
    pub access_token: Option<Seq<char>>,
    pub expires_in: Option<i64>,
    pub token_type: Option<Seq<char>>,
}

impl View for OAuth2TokenExchange {
    type V = OAuth2TokenExchangeView;

    open spec fn view(&self) -> OAuth2TokenExchangeView {
        OAuth2TokenExchangeView {
            access_token: self.access_token.deep_view(),
            expires_in: self.expires_in,
            token_type: self.token_type.deep_view(),
        }
    }
}

} // verus!
