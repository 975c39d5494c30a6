//! The newer revision of the document model: the input of the downgrade.

pub mod callback;
pub mod components;
pub mod media_type;
pub mod objects;
pub mod reference;
pub mod security_scheme;
pub mod server;

pub use callback::Callback;
pub use components::Components;
pub use media_type::MediaType;
pub use objects::{
    Encoding, Example, Header, Link, Parameter, PathItem, RequestBody, Response, Schema,
    ServerVariable,
};
pub use reference::ReferenceOr;
pub use security_scheme::{ApiKeyLocation, OAuth2Flow, OAuth2Flows, SecurityScheme};
pub use server::Server;
