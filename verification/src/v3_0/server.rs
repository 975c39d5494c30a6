use crate::ordered_map::{
    keys, lemma_map_keeps_keys, lemma_mapped_by_agrees, map_entries, Entries, OrderedMap,
};
use crate::v3_0::objects::ServerVariable;
use crate::v3_1;
use indexmap::IndexMap;
use serde_json::Value;
use vstd::prelude::*;

verus! {

/// An object representing a Server.
#[derive(Clone, Debug, PartialEq)]
pub struct Server {
    /// REQUIRED. A URL to the target host.
    /// This URL supports Server Variables and MAY be relative,
    /// to indicate that the host location is relative to the
    /// location where the OpenAPI document is being served.
    /// Variable substitutions will be made when a variable
    /// is named in {brackets}.
    pub url: String,
    /// An optional string describing the host designated
    /// by the URL. CommonMark syntax MAY be used for rich
    /// text representation.
    pub description: Option<String>,
    /// A map between a variable name and its value.
    /// The value is used for substitution in the server's URL template.
    /// A server without variables has no mapping at all.
    pub variables: Option<OrderedMap<ServerVariable>>,
    /// Inline extensions to this object.
    pub extensions: IndexMap<String, Value>,
}

/// A server with its variables, where it has any, given by their entries.
pub struct ServerView {
    pub url: String,
    pub description: Option<String>,
    pub variables: Option<Entries<ServerVariable>>,
    pub extensions: IndexMap<String, Value>,
}

impl View for Server {
    type V = ServerView;

    open spec fn view(&self) -> ServerView {
        ServerView {
            url: self.url,
            description: self.description,
            variables: match self.variables {
                Some(variables) => Some(variables@),
                None => None,
            },
            extensions: self.extensions,
        }
    }
}

impl Server {
    /// The older-revision image of a newer-revision server. URL, description
    /// and extensions are kept. An empty variable mapping becomes an absent
    /// one; a mapping with entries becomes the mapping of their images under
    /// the same names.
    pub open spec fn downgraded(s: v3_1::server::ServerView) -> ServerView {
        ServerView {
            url: s.url,
            description: s.description,
            variables: if s.variables.len() == 0 {
                None
            } else {
                Some(
                    map_entries(
                        s.variables,
                        |v: v3_1::ServerVariable| ServerVariable::downgraded(v),
                    ),
                )
            },
            extensions: s.extensions,
        }
    }

    /// Downgrades a server.
    pub fn from_v3_1(s: v3_1::Server) -> (out: Server)
        ensures
            out@ == Self::downgraded(s@),
            out.variables is None <==> s.variables@.len() == 0,
            out.variables matches Some(variables) ==> keys(variables@) == keys(s.variables@),
    {
        let ghost before = s.variables@;
        let variables = if s.variables.is_empty() {
            None
        } else {
            let convert = |v: v3_1::ServerVariable| -> (r: ServerVariable)
                ensures
                    r == ServerVariable::downgraded(v),
                { ServerVariable::from(v) };
            let converted = s.variables.map_values(convert);
            proof {
                let image = |v: v3_1::ServerVariable| ServerVariable::downgraded(v);
                lemma_mapped_by_agrees(before, convert, image, converted@);
                lemma_map_keeps_keys(before, image);
            }
            Some(converted)
        };
        Server { url: s.url, description: s.description, variables, extensions: s.extensions }
    }
}

/// A server without variables downgrades to a server whose variable mapping
/// is absent, not present and empty; a server with variables keeps their
/// names in their order.
pub proof fn lemma_server_variables(s: v3_1::server::ServerView)
    ensures
        s.variables.len() == 0 ==> Server::downgraded(s).variables is None,
        s.variables.len() > 0 ==> (Server::downgraded(s).variables matches Some(variables) && keys(
            variables,
        ) == keys(s.variables) && variables.len() > 0),
{
    lemma_map_keeps_keys(s.variables, |v: v3_1::ServerVariable| ServerVariable::downgraded(v));
}

} // verus!
