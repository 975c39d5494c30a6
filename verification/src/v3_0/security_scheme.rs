use crate::error::DowngradeError;
use crate::v3_1;
use indexmap::IndexMap;
use serde_json::Value;
use vstd::prelude::*;

verus! {

/// Defines a security scheme that can be used by the operations.
/// Supported schemes are HTTP authentication, an API key (either as a
/// header or as a query parameter), OAuth2's common flows (implicit, password,
/// application and access code) as defined in RFC6749, and OpenID Connect
/// Discovery.
#[derive(Clone, Debug, PartialEq)]
pub enum SecurityScheme {
    APIKey {
        location: APIKeyLocation,
        name: String,
        description: Option<String>,
        /// Inline extensions to this object.
        extensions: IndexMap<String, Value>,
    },
    HTTP {
        scheme: String,
        bearer_format: Option<String>,
        description: Option<String>,
        /// Inline extensions to this object.
        extensions: IndexMap<String, Value>,
    },
    OAuth2 {
        flows: OAuth2Flows,
        description: Option<String>,
        /// Inline extensions to this object.
        extensions: IndexMap<String, Value>,
    },
    OpenIDConnect {
        open_id_connect_url: String,
        description: Option<String>,
        /// Inline extensions to this object.
        extensions: IndexMap<String, Value>,
    },
}

/// Where an API key travels.
#[derive(Clone, Copy, Debug, PartialEq, Eq, Structural)]
pub enum APIKeyLocation {
    Query,
    Header,
    Cookie,
}

/// The flows that an OAuth2 scheme offers: four named slots, each optional
/// and independent of the others.
#[derive(Clone, Debug, PartialEq)]
pub struct OAuth2Flows {
    pub implicit: Option<OAuth2Flow>,
    pub password: Option<OAuth2Flow>,
    pub client_credentials: Option<OAuth2Flow>,
    pub authorization_code: Option<OAuth2Flow>,
}

/// One OAuth2 flow. The implicit and the authorization-code flow need an
/// authorization URL, the password, client-credentials and authorization-code
/// flows a token URL; the refresh URL is optional in all four.
#[derive(Clone, Debug, PartialEq)]
pub enum OAuth2Flow {
    Implicit {
        authorization_url: String,
        refresh_url: Option<String>,
        scopes: IndexMap<String, String>,
    },
    Password { refresh_url: Option<String>, token_url: String, scopes: IndexMap<String, String> },
    ClientCredentials {
        refresh_url: Option<String>,
        token_url: String,
        scopes: IndexMap<String, String>,
    },
    AuthorizationCode {
        authorization_url: String,
        token_url: String,
        refresh_url: Option<String>,
        scopes: IndexMap<String, String>,
    },
}

impl Default for OAuth2Flows {
    /// The flow set with all four slots empty.
    fn default() -> (out: Self)
        ensures
            out.implicit is None,
            out.password is None,
            out.client_credentials is None,
            out.authorization_code is None,
    {
        OAuth2Flows {
            implicit: None,
            password: None,
            client_credentials: None,
            authorization_code: None,
        }
    }
}

impl APIKeyLocation {
    /// The location of the same name.
    pub open spec fn downgraded(s: v3_1::ApiKeyLocation) -> APIKeyLocation {
        match s {
            v3_1::ApiKeyLocation::Query => APIKeyLocation::Query,
            v3_1::ApiKeyLocation::Header => APIKeyLocation::Header,
            v3_1::ApiKeyLocation::Cookie => APIKeyLocation::Cookie,
        }
    }
}

impl From<v3_1::ApiKeyLocation> for APIKeyLocation {
    fn from(s: v3_1::ApiKeyLocation) -> (out: Self) {
        match s {
            v3_1::ApiKeyLocation::Query => APIKeyLocation::Query,
            v3_1::ApiKeyLocation::Header => APIKeyLocation::Header,
            v3_1::ApiKeyLocation::Cookie => APIKeyLocation::Cookie,
        }
    }
}

impl vstd::std_specs::convert::FromSpecImpl<v3_1::ApiKeyLocation> for APIKeyLocation {
    open spec fn obeys_from_spec() -> bool {
        true
    }

    open spec fn from_spec(s: v3_1::ApiKeyLocation) -> Self {
        APIKeyLocation::downgraded(s)
    }
}

impl OAuth2Flow {
    /// The flow of the same kind, with exactly the fields that this kind
    /// has, each unchanged.
    pub open spec fn downgraded(s: v3_1::OAuth2Flow) -> OAuth2Flow {
        match s {
            v3_1::OAuth2Flow::Implicit { authorization_url, refresh_url, scopes } => {
                OAuth2Flow::Implicit { authorization_url, refresh_url, scopes }
            },
            v3_1::OAuth2Flow::Password { refresh_url, token_url, scopes } => {
                OAuth2Flow::Password { refresh_url, token_url, scopes }
            },
            v3_1::OAuth2Flow::ClientCredentials { refresh_url, token_url, scopes } => {
                OAuth2Flow::ClientCredentials { refresh_url, token_url, scopes }
            },
            v3_1::OAuth2Flow::AuthorizationCode {
                authorization_url,
                token_url,
                refresh_url,
                scopes,
            } => OAuth2Flow::AuthorizationCode { authorization_url, token_url, refresh_url, scopes },
        }
    }
}

impl From<v3_1::OAuth2Flow> for OAuth2Flow {
    fn from(s: v3_1::OAuth2Flow) -> (out: Self) {
        match s {
            v3_1::OAuth2Flow::Implicit { authorization_url, refresh_url, scopes } => {
                OAuth2Flow::Implicit { authorization_url, refresh_url, scopes }
            },
            v3_1::OAuth2Flow::Password { refresh_url, token_url, scopes } => {
                OAuth2Flow::Password { refresh_url, token_url, scopes }
            },
            v3_1::OAuth2Flow::ClientCredentials { refresh_url, token_url, scopes } => {
                OAuth2Flow::ClientCredentials { refresh_url, token_url, scopes }
            },
            v3_1::OAuth2Flow::AuthorizationCode {
                authorization_url,
                token_url,
                refresh_url,
                scopes,
            } => OAuth2Flow::AuthorizationCode { authorization_url, token_url, refresh_url, scopes },
        }
    }
}

impl vstd::std_specs::convert::FromSpecImpl<v3_1::OAuth2Flow> for OAuth2Flow {
    open spec fn obeys_from_spec() -> bool {
        true
    }

    open spec fn from_spec(s: v3_1::OAuth2Flow) -> Self {
        OAuth2Flow::downgraded(s)
    }
}

/// The image of one flow slot: an empty slot stays empty, an occupied one
/// holds the image of its flow.
pub open spec fn slot_downgraded(slot: Option<v3_1::OAuth2Flow>) -> Option<OAuth2Flow> {
    match slot {
        Some(flow) => Some(OAuth2Flow::downgraded(flow)),
        None => None,
    }
}

fn slot_from_v3_1(slot: Option<v3_1::OAuth2Flow>) -> (out: Option<OAuth2Flow>)
    ensures
        out == slot_downgraded(slot),
{
    match slot {
        Some(flow) => Some(OAuth2Flow::from(flow)),
        None => None,
    }
}

impl From<v3_1::OAuth2Flows> for OAuth2Flows {
    fn from(s: v3_1::OAuth2Flows) -> (out: Self)
        ensures
            out.implicit is Some <==> s.implicit is Some,
            out.password is Some <==> s.password is Some,
            out.client_credentials is Some <==> s.client_credentials is Some,
            out.authorization_code is Some <==> s.authorization_code is Some,
            out.occupied() == s.occupied(),
    {
        OAuth2Flows {
            implicit: slot_from_v3_1(s.implicit),
            password: slot_from_v3_1(s.password),
            client_credentials: slot_from_v3_1(s.client_credentials),
            authorization_code: slot_from_v3_1(s.authorization_code),
        }
    }
}

impl vstd::std_specs::convert::FromSpecImpl<v3_1::OAuth2Flows> for OAuth2Flows {
    open spec fn obeys_from_spec() -> bool {
        true
    }

    open spec fn from_spec(s: v3_1::OAuth2Flows) -> Self {
        OAuth2Flows::downgraded(s)
    }
}

impl OAuth2Flows {
    /// Slot by slot: each slot of the result is the image of the slot of the
    /// same name.
    pub open spec fn downgraded(s: v3_1::OAuth2Flows) -> OAuth2Flows {
        OAuth2Flows {
            implicit: slot_downgraded(s.implicit),
            password: slot_downgraded(s.password),
            client_credentials: slot_downgraded(s.client_credentials),
            authorization_code: slot_downgraded(s.authorization_code),
        }
    }

    /// How many of the four slots hold a flow.
    pub open spec fn occupied(self) -> nat {
        (if self.implicit is Some { 1nat } else { 0nat })
            + (if self.password is Some { 1nat } else { 0nat })
            + (if self.client_credentials is Some { 1nat } else { 0nat })
            + (if self.authorization_code is Some { 1nat } else { 0nat })
    }
}

impl SecurityScheme {
    /// The older-revision image of a newer-revision scheme. Each of the four
    /// common kinds maps to the kind of the same meaning, field for field,
    /// extensions included. Mutual TLS has no image.
    pub open spec fn downgraded(s: v3_1::SecurityScheme) -> Result<SecurityScheme, DowngradeError> {
        match s {
            v3_1::SecurityScheme::ApiKey { location, name, description, extensions } => Ok(
                SecurityScheme::APIKey {
                    location: APIKeyLocation::downgraded(location),
                    name,
                    description,
                    extensions,
                },
            ),
            v3_1::SecurityScheme::Http { scheme, bearer_format, description, extensions } => Ok(
                SecurityScheme::HTTP { scheme, bearer_format, description, extensions },
            ),
            v3_1::SecurityScheme::OAuth2 { flows, description, extensions } => Ok(
                SecurityScheme::OAuth2 {
                    flows: OAuth2Flows::downgraded(flows),
                    description,
                    extensions,
                },
            ),
            v3_1::SecurityScheme::OpenIdConnect { open_id_connect_url, description, extensions } => Ok(
                SecurityScheme::OpenIDConnect { open_id_connect_url, description, extensions },
            ),
            v3_1::SecurityScheme::MutualTls { .. } => Err(DowngradeError::UnsupportedFeature),
        }
    }

    /// Downgrades a security scheme. Fails with
    /// [`DowngradeError::UnsupportedFeature`] exactly on Mutual TLS; nothing
    /// is dropped or approximated.
    pub fn from_v3_1(s: v3_1::SecurityScheme) -> (out: Result<SecurityScheme, DowngradeError>)
        ensures
            out == Self::downgraded(s),
            out is Ok <==> s !is MutualTls,
            s is MutualTls ==> out == Err::<SecurityScheme, _>(DowngradeError::UnsupportedFeature),
    {
        match s {
            v3_1::SecurityScheme::ApiKey { location, name, description, extensions } => Ok(
                SecurityScheme::APIKey {
                    location: APIKeyLocation::from(location),
                    name,
                    description,
                    extensions,
                },
            ),
            v3_1::SecurityScheme::Http { scheme, bearer_format, description, extensions } => Ok(
                SecurityScheme::HTTP { scheme, bearer_format, description, extensions },
            ),
            v3_1::SecurityScheme::OAuth2 { flows, description, extensions } => Ok(
                SecurityScheme::OAuth2 { flows: OAuth2Flows::from(flows), description, extensions },
            ),
            v3_1::SecurityScheme::OpenIdConnect { open_id_connect_url, description, extensions } => Ok(
                SecurityScheme::OpenIDConnect { open_id_connect_url, description, extensions },
            ),
            v3_1::SecurityScheme::MutualTls { .. } => Err(DowngradeError::UnsupportedFeature),
        }
    }
}

/// Downgrading a flow set keeps the number of occupied slots, and each slot
/// is occupied in the result exactly if it was occupied before. So a set with
/// exactly one flow yields a set with exactly that slot filled and the other
/// three empty.
pub proof fn lemma_flow_slots_preserved(s: v3_1::OAuth2Flows)
    ensures
        OAuth2Flows::downgraded(s).implicit is Some <==> s.implicit is Some,
        OAuth2Flows::downgraded(s).password is Some <==> s.password is Some,
        OAuth2Flows::downgraded(s).client_credentials is Some <==> s.client_credentials is Some,
        OAuth2Flows::downgraded(s).authorization_code is Some <==> s.authorization_code is Some,
        OAuth2Flows::downgraded(s).occupied() == s.occupied(),
        s.occupied() == 1 ==> OAuth2Flows::downgraded(s).occupied() == 1,
{
}

/// A scheme converts if and only if it is not Mutual TLS, and Mutual TLS
/// yields the unsupported-feature error and no scheme.
pub proof fn lemma_scheme_fails_only_on_mutual_tls(s: v3_1::SecurityScheme)
    ensures
        SecurityScheme::downgraded(s) is Ok <==> s !is MutualTls,
        s is MutualTls ==> SecurityScheme::downgraded(s) == Err::<SecurityScheme, _>(
            DowngradeError::UnsupportedFeature,
        ),
{
}

} // verus!
