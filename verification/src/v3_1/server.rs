use crate::ordered_map::{Entries, OrderedMap};
use crate::v3_1::objects::ServerVariable;
use indexmap::IndexMap;
use serde_json::Value;
use vstd::prelude::*;

verus! {

/// An object representing a Server. In this revision a server without
/// variables holds an empty mapping.
#[derive(Clone, Debug, PartialEq)]
pub struct Server {
    /// REQUIRED. A URL to the target host.
    pub url: String,
    /// An optional string describing the host designated by the URL.
    pub description: Option<String>,
    /// A map between a variable name and its value.
    pub variables: OrderedMap<ServerVariable>,
    /// Inline extensions to this object.
    pub extensions: IndexMap<String, Value>,
}

/// A server with its variables given by their entries.
pub struct ServerView {
    pub url: String,
    pub description: Option<String>,
    pub variables: Entries<ServerVariable>,
    pub extensions: IndexMap<String, Value>,
}

impl View for Server {
    type V = ServerView;

    open spec fn view(&self) -> ServerView {
        ServerView {
            url: self.url,
            description: self.description,
            variables: self.variables@,
            extensions: self.extensions,
        }
    }
}

} // verus!
