use crate::ordered_map::{Entries, OrderedMap};
use crate::v3_1::objects::{Encoding, Example, Schema};
use crate::v3_1::reference::ReferenceOr;
use indexmap::IndexMap;
use serde_json::Value;
use vstd::prelude::*;

verus! {

/// The description of one media type of a request or response body. In this
/// revision the schema is always given inline.
#[derive(Clone, Debug, PartialEq)]
pub struct MediaType {
    pub schema: Option<Schema>,
    pub example: Option<Value>,
    pub examples: OrderedMap<ReferenceOr<Example>>,
    pub encoding: OrderedMap<Encoding>,
    /// Inline extensions to this object.
    pub extensions: IndexMap<String, Value>,
}

/// A media type with its mappings given by their entries.
pub struct MediaTypeView {
    pub schema: Option<Schema>,
    pub example: Option<Value>,
    pub examples: Entries<ReferenceOr<Example>>,
    pub encoding: Entries<Encoding>,
    pub extensions: IndexMap<String, Value>,
}

impl View for MediaType {
    type V = MediaTypeView;

    open spec fn view(&self) -> MediaTypeView {
        MediaTypeView {
            schema: self.schema,
            example: self.example,
            examples: self.examples@,
            encoding: self.encoding@,
            extensions: self.extensions,
        }
    }
}

} // verus!
