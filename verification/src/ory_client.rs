//! The authorization server as this crate sees it: the records it exchanges
//! and the calls it accepts.
//!
//! A [`Client`] performs no call itself. Each of its methods describes one
//! stateless request, the address and the credentials to use included, for
//! the caller to send.

pub mod models;

use models::{OAuth2Client, OAuth2ClientView};
use vstd::prelude::*;

verus! {

/// The grant that every client of this service uses.
pub const CLIENT_CREDENTIALS: &'static str = "client_credentials";

/// Where the authorization server is found and how its admin API is entered.
#[derive(Clone, Debug, PartialEq, Eq)]
pub struct OryArgs {
    pub ory_admin_base_url: String,
    pub ory_public_base_url: String,
    pub ory_auth_token: String,
}

/// Where the admin API of the authorization server listens by default.
pub const DEFAULT_ADMIN_BASE_URL: &'static str = "http://127.0.0.1:4445";

/// Where the public API of the authorization server listens by default.
pub const DEFAULT_PUBLIC_BASE_URL: &'static str = "http://127.0.0.1:4444";

impl Default for OryArgs {
    /// An authorization server on this machine, entered without a token.
    fn default() -> (r: Self)
        ensures
            r.ory_admin_base_url@ == DEFAULT_ADMIN_BASE_URL@,
            r.ory_public_base_url@ == DEFAULT_PUBLIC_BASE_URL@,
            r.ory_auth_token@ == Seq::<char>::empty(),
    {
        OryArgs {
            ory_admin_base_url: DEFAULT_ADMIN_BASE_URL.to_owned(),
            ory_public_base_url: DEFAULT_PUBLIC_BASE_URL.to_owned(),
            ory_auth_token: String::new(),
        }
    }
}

/// The address and the credentials of one request.
#[derive(Clone, Debug, PartialEq, Eq)]
pub struct Configuration {
    pub base_path: String,
    pub bearer_access_token: Option<String>,
    pub basic_auth: Option<(String, Option<String>)>,
}

/// The mathematical content of a [`Configuration`].
pub struct ConfigurationView {
    pub base_path: Seq<char>,
    pub bearer_access_token: Option<Seq<char>>,
    pub basic_auth: Option<(Seq<char>, Option<Seq<char>>)>,
}

impl View for Configuration {
    type V = ConfigurationView;

    open spec fn view(&self) -> ConfigurationView {
        ConfigurationView {
            base_path: self.base_path@,
            bearer_access_token: self.bearer_access_token.deep_view(),
            basic_auth: self.basic_auth.deep_view(),
        }
    }
}

/// An operation of the authorization server, with its arguments.
#[derive(Clone, Debug, PartialEq, Eq)]
pub enum Operation {
    CreateOAuth2Client { client: OAuth2Client },
    GetOAuth2Client { id: String },
    SetOAuth2Client { id: String, client: OAuth2Client },
    DeleteOAuth2Client { id: String },
    ListOAuth2Clients {
        page_size: Option<i64>,
        page_token: Option<String>,
        client_name: Option<String>,
        owner: Option<String>,
    },
    Oauth2TokenExchange {
        grant_type: String,
        client_id: Option<String>,
        code: Option<String>,
        redirect_uri: Option<String>,
        refresh_token: Option<String>,
    },
}

/// The mathematical content of an [`Operation`].
pub enum OperationView {
    CreateOAuth2Client { client: OAuth2ClientView },
    GetOAuth2Client { id: Seq<char> },
    SetOAuth2Client { id: Seq<char>, client: OAuth2ClientView },
    DeleteOAuth2Client { id: Seq<char> },
    ListOAuth2Clients {
        page_size: Option<i64>,
        page_token: Option<Seq<char>>,
        client_name: Option<Seq<char>>,
        owner: Option<Seq<char>>,
    },
    Oauth2TokenExchange {
        grant_type: Seq<char>,
        client_id: Option<Seq<char>>,
        code: Option<Seq<char>>,
        redirect_uri: Option<Seq<char>>,
        refresh_token: Option<Seq<char>>,
    },
}

impl View for Operation {
    type V = OperationView;

    open spec fn view(&self) -> OperationView {
        match self {
            Operation::CreateOAuth2Client { client } => OperationView::CreateOAuth2Client {
                client: client@,
            },
            Operation::GetOAuth2Client { id } => OperationView::GetOAuth2Client { id: id@ },
            Operation::SetOAuth2Client { id, client } => OperationView::SetOAuth2Client {
                id: id@,
                client: client@,
            },
            Operation::DeleteOAuth2Client { id } => OperationView::DeleteOAuth2Client { id: id@ },
            Operation::ListOAuth2Clients {
                page_size,
                page_token,
                client_name,
                owner,
            } => OperationView::ListOAuth2Clients {
                page_size: *page_size,
                page_token: page_token.deep_view(),
                client_name: client_name.deep_view(),
                owner: owner.deep_view(),
            },
            Operation::Oauth2TokenExchange {
                grant_type,
                client_id,
                code,
                redirect_uri,
                refresh_token,
            } => OperationView::Oauth2TokenExchange {
                grant_type: grant_type@,
                client_id: client_id.deep_view(),
                code: code.deep_view(),
                redirect_uri: redirect_uri.deep_view(),
                refresh_token: refresh_token.deep_view(),
            },
        }
    }
}

/// One request to the authorization server: what to ask, where, and as whom.
#[derive(Clone, Debug, PartialEq, Eq)]
pub struct Call {
    pub configuration: Configuration,
    pub operation: Operation,
}

/// The mathematical content of a [`Call`].
pub struct CallView {
    pub configuration: ConfigurationView,
    pub operation: OperationView,
}

impl View for Call {
    type V = CallView;

    open spec fn view(&self) -> CallView {
        CallView { configuration: self.configuration@, operation: self.operation@ }
    }
}

/// The authorization server: the address of its admin API with the token
/// that opens it, and the address of its public API.
#[derive(Clone, Debug)]
pub struct Client {
    admin_base_url: String,
    public_base_url: String,
    auth_token: String,
}

/// The mathematical content of a [`Client`].
pub struct ClientView {
    pub admin_base_url: Seq<char>,
    pub public_base_url: Seq<char>,
    pub auth_token: Seq<char>,
}

impl ClientView {
    /// How the admin API is addressed: by its base address, with the admin
    /// token as bearer.
    pub open spec fn admin(self) -> ConfigurationView {
        ConfigurationView {
            base_path: self.admin_base_url,
            bearer_access_token: Some(self.auth_token),
            basic_auth: None,
        }
    }

    /// How the public API is addressed on behalf of a client: by its base
    /// address, with the identifier and the secret of that client.
    pub open spec fn public(self, client_id: Seq<char>, client_secret: Seq<char>) -> ConfigurationView {
        ConfigurationView {
            base_path: self.public_base_url,
            bearer_access_token: None,
            basic_auth: Some((client_id, Some(client_secret))),
        }
    }

    /// The request that creates a client.
    pub open spec fn create_client(self, client: OAuth2ClientView) -> CallView {
        CallView {
            configuration: self.admin(),
            operation: OperationView::CreateOAuth2Client { client },
        }
    }

    /// The request that fetches a client.
    pub open spec fn get_client(self, client_id: Seq<char>) -> CallView {
        CallView {
            configuration: self.admin(),
            operation: OperationView::GetOAuth2Client { id: client_id },
        }
    }

    /// The request that replaces a client.
    pub open spec fn update_client(self, client_id: Seq<char>, client: OAuth2ClientView) -> CallView {
        CallView {
            configuration: self.admin(),
            operation: OperationView::SetOAuth2Client { id: client_id, client },
        }
    }

    /// The request that deletes a client.
    pub open spec fn delete_client(self, client_id: Seq<char>) -> CallView {
        CallView {
            configuration: self.admin(),
            operation: OperationView::DeleteOAuth2Client { id: client_id },
        }
    }

    /// The request that lists the clients of an owner, one page of them.
    pub open spec fn list_clients(
        self,
        owner: Seq<char>,
        page_size: Option<i64>,
        page_token: Option<Seq<char>>,
    ) -> CallView {
        CallView {
            configuration: self.admin(),
            operation: OperationView::ListOAuth2Clients {
                page_size,
                page_token,
                client_name: None,
                owner: Some(owner),
            },
        }
    }

    /// The request that exchanges the secret of a client for an access
    /// token, by the client-credentials grant.
    pub open spec fn exchange_token(self, client_id: Seq<char>, client_secret: Seq<char>) -> CallView {
        CallView {
            configuration: self.public(client_id, client_secret),
            operation: OperationView::Oauth2TokenExchange {
                grant_type: CLIENT_CREDENTIALS@,
                client_id: None,
                code: None,
                redirect_uri: None,
                refresh_token: None,
            },
        }
    }
}

impl View for Client {
    type V = ClientView;

    closed spec fn view(&self) -> ClientView {
        ClientView {
            admin_base_url: self.admin_base_url@,
            public_base_url: self.public_base_url@,
            auth_token: self.auth_token@,
        }
    }
}

impl Client {
    /// The authorization server that the arguments point at.
    #[must_use]
    pub fn new(args: OryArgs) -> (r: Self)
        ensures
            r@ == (ClientView {
                admin_base_url: args.ory_admin_base_url@,
                public_base_url: args.ory_public_base_url@,
                auth_token: args.ory_auth_token@,
            }),
    {
        let OryArgs { ory_admin_base_url, ory_public_base_url, ory_auth_token } = args;

        Self {
            admin_base_url: ory_admin_base_url,
            public_base_url: ory_public_base_url,
            auth_token: ory_auth_token,
        }
    }

    /// How the admin API is addressed.
    fn admin(&self) -> (r: Configuration)
        ensures
            r@ == self@.admin(),
    {
        Configuration {
            base_path: self.admin_base_url.clone(),
            bearer_access_token: Some(self.auth_token.clone()),
            basic_auth: None,
        }
    }

    /// Describes the request that creates a client.
    pub fn create_client(&self, o_auth2_client: OAuth2Client) -> (r: Call)
        ensures
            r@ == self@.create_client(o_auth2_client@),
    {
        Call {
            configuration: self.admin(),
            operation: Operation::CreateOAuth2Client { client: o_auth2_client },
        }
    }

    /// Describes the request that fetches a client.
    pub fn get_client(&self, client_id: &str) -> (r: Call)
        ensures
            r@ == self@.get_client(client_id@),
    {
        Call {
            configuration: self.admin(),
            operation: Operation::GetOAuth2Client { id: client_id.to_owned() },
        }
    }

    /// Describes the request that replaces a client. The authorization
    /// server keeps of the old record only what the new one repeats.
    pub fn update_client(&self, client_id: &str, o_auth2_client: OAuth2Client) -> (r: Call)
        ensures
            r@ == self@.update_client(client_id@, o_auth2_client@),
    {
        Call {
            configuration: self.admin(),
            operation: Operation::SetOAuth2Client {
                id: client_id.to_owned(),
                client: o_auth2_client,
            },
        }
    }

    /// Describes the request that deletes a client.
    pub fn delete_client(&self, client_id: &str) -> (r: Call)
        ensures
            r@ == self@.delete_client(client_id@),
    {
        Call {
            configuration: self.admin(),
            operation: Operation::DeleteOAuth2Client { id: client_id.to_owned() },
        }
    }

    /// Describes the request that lists the clients of an owner. The page
    /// size and the page token go out as they came in.
    pub fn list_clients(&self, owner: &str, page_size: Option<i64>, page_token: Option<&str>) -> (r:
        Call)
        ensures
            r@ == self@.list_clients(owner@, page_size, page_token.deep_view()),
    {
        let page_token = match page_token {
            Some(token) => Some(token.to_owned()),
            None => None,
        };
        Call {
            configuration: self.admin(),
            operation: Operation::ListOAuth2Clients {
                page_size,
                page_token,
                client_name: None,
                owner: Some(owner.to_owned()),
            },
        }
    }

    /// Describes the request that exchanges the secret of a client for an
    /// access token. The request is made as that client.
    pub fn exchange_token(&self, client_id: String, client_secret: String) -> (r: Call)
        ensures
            r@ == self@.exchange_token(client_id@, client_secret@),
    {
        Call {
            configuration: Configuration {
                base_path: self.public_base_url.clone(),
                bearer_access_token: None,
                basic_auth: Some((client_id, Some(client_secret))),
            },
            operation: Operation::Oauth2TokenExchange {
                grant_type: CLIENT_CREDENTIALS.to_owned(),
                client_id: None,
                code: None,
                redirect_uri: None,
                refresh_token: None,
            },
        }
    }
}

} // verus!
