//! The older revision of the document model: the output of the downgrade.

pub mod callback;
pub mod components;
pub mod media_type;
pub mod objects;
pub mod reference;
pub mod security_scheme;
pub mod server;

pub use callback::{callback_from_v3_1, Callback};
pub use components::Components;
pub use media_type::MediaType;
pub use objects::{
    Encoding, Example, Header, Link, Parameter, PathItem, RequestBody, Response, Schema,
    ServerVariable,
};
pub use reference::{cells_from_v3_1, ReferenceOr};
pub use security_scheme::{APIKeyLocation, OAuth2Flow, OAuth2Flows, SecurityScheme};
pub use server::Server;
