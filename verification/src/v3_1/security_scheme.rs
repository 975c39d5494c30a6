use indexmap::IndexMap;
use serde_json::Value;
use vstd::prelude::*;

verus! {

/// A security scheme of the newer revision. Besides the four kinds that the
/// older revision knows, it has Mutual TLS, which the older revision cannot
/// express.
#[derive(Clone, Debug, PartialEq)]
pub enum SecurityScheme {
    ApiKey {
        location: ApiKeyLocation,
        name: String,
        description: Option<String>,
        /// Inline extensions to this object.
        extensions: IndexMap<String, Value>,
    },
    Http {
        scheme: String,
        bearer_format: Option<String>,
        description: Option<String>,
        /// Inline extensions to this object.
        extensions: IndexMap<String, Value>,
    },
    OAuth2 {
        flows: OAuth2Flows,
        description: Option<String>,
        /// Inline extensions to this object.
        extensions: IndexMap<String, Value>,
    },
    OpenIdConnect {
        open_id_connect_url: String,
        description: Option<String>,
        /// Inline extensions to this object.
        extensions: IndexMap<String, Value>,
    },
    MutualTls {
        description: Option<String>,
        /// Inline extensions to this object.
        extensions: IndexMap<String, Value>,
    },
}

/// Where an API key travels.
#[derive(Clone, Copy, Debug, PartialEq, Eq, Structural)]
pub enum ApiKeyLocation {
    Query,
    Header,
    Cookie,
}

/// The flows that an OAuth2 scheme offers: four named slots, each optional.
#[derive(Clone, Debug, PartialEq)]
pub struct OAuth2Flows {
    pub implicit: Option<OAuth2Flow>,
    pub password: Option<OAuth2Flow>,
    pub client_credentials: Option<OAuth2Flow>,
    pub authorization_code: Option<OAuth2Flow>,
}

/// One OAuth2 flow. Each kind has its own set of URLs; all carry a table from
/// scope name to description.
#[derive(Clone, Debug, PartialEq)]
pub enum OAuth2Flow {
    Implicit {
        authorization_url: String,
        refresh_url: Option<String>,
        scopes: IndexMap<String, String>,
    },
    Password { refresh_url: Option<String>, token_url: String, scopes: IndexMap<String, String> },
    ClientCredentials {
        refresh_url: Option<String>,
        token_url: String,
        scopes: IndexMap<String, String>,
    },
    AuthorizationCode {
        authorization_url: String,
        token_url: String,
        refresh_url: Option<String>,
        scopes: IndexMap<String, String>,
    },
}

impl OAuth2Flows {
    /// How many of the four slots hold a flow.
    pub open spec fn occupied(self) -> nat {
        (if self.implicit is Some { 1nat } else { 0nat })
            + (if self.password is Some { 1nat } else { 0nat })
            + (if self.client_credentials is Some { 1nat } else { 0nat })
            + (if self.authorization_code is Some { 1nat } else { 0nat })
    }
}

impl Default for OAuth2Flows {
    /// The flow set with all four slots empty.
    fn default() -> (out: Self)
        ensures
            out.implicit is None,
            out.password is None,
            out.client_credentials is None,
            out.authorization_code is None,
    {
        OAuth2Flows {
            implicit: None,
            password: None,
            client_credentials: None,
            authorization_code: None,
        }
    }
}

} // verus!
