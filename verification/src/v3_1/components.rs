use crate::ordered_map::{map_entries, Entries, OrderedMap};
use crate::v3_1::callback::{free_of_referenced_path_items, Callback};
use crate::v3_1::objects::{
    Example, Header, Link, Parameter, PathItem, RequestBody, Response, Schema,
};
use crate::v3_1::reference::ReferenceOr;
use crate::v3_1::security_scheme::SecurityScheme;
use indexmap::IndexMap;
use serde_json::Value;
use vstd::prelude::*;

verus! {

/// Holds a set of reusable objects for different aspects of the document.
/// In this revision the schemas are held inline, without a cell around them.
#[derive(Clone, Debug, PartialEq)]
pub struct Components {
    /// An object to hold reusable Security Scheme Objects.
    pub security_schemes: OrderedMap<ReferenceOr<SecurityScheme>>,
    /// An object to hold reusable Response Objects.
    pub responses: OrderedMap<ReferenceOr<Response>>,
    /// An object to hold reusable Parameter Objects.
    pub parameters: OrderedMap<ReferenceOr<Parameter>>,
    /// An object to hold reusable Example Objects.
    pub examples: OrderedMap<ReferenceOr<Example>>,
    /// An object to hold reusable Request Body Objects.
    pub request_bodies: OrderedMap<ReferenceOr<RequestBody>>,
    /// An object to hold reusable Header Objects.
    pub headers: OrderedMap<ReferenceOr<Header>>,
    /// An object to hold reusable Schema Objects.
    pub schemas: OrderedMap<Schema>,
    /// An object to hold reusable Link Objects.
    pub links: OrderedMap<ReferenceOr<Link>>,
    /// An object to hold reusable Callback Objects.
    pub callbacks: OrderedMap<ReferenceOr<Callback>>,
    /// Inline extensions to this object.
    pub extensions: IndexMap<String, Value>,
}

/// A cell that holds a callback, the callback given by its entries.
pub open spec fn callback_cell_view(cell: ReferenceOr<Callback>) -> ReferenceOr<
    Entries<ReferenceOr<PathItem>>,
> {
    cell.map(|callback: Callback| callback@)
}

/// A registry with every mapping given by its entries.
pub struct ComponentsView {
    pub security_schemes: Entries<ReferenceOr<SecurityScheme>>,
    pub responses: Entries<ReferenceOr<Response>>,
    pub parameters: Entries<ReferenceOr<Parameter>>,
    pub examples: Entries<ReferenceOr<Example>>,
    pub request_bodies: Entries<ReferenceOr<RequestBody>>,
    pub headers: Entries<ReferenceOr<Header>>,
    pub schemas: Entries<Schema>,
    pub links: Entries<ReferenceOr<Link>>,
    pub callbacks: Entries<ReferenceOr<Entries<ReferenceOr<PathItem>>>>,
    pub extensions: IndexMap<String, Value>,
}

impl View for Components {
    type V = ComponentsView;

    open spec fn view(&self) -> ComponentsView {
        ComponentsView {
            security_schemes: self.security_schemes@,
            responses: self.responses@,
            parameters: self.parameters@,
            examples: self.examples@,
            request_bodies: self.request_bodies@,
            headers: self.headers@,
            schemas: self.schemas@,
            links: self.links@,
            callbacks: map_entries(
                self.callbacks@,
                |cell: ReferenceOr<Callback>| callback_cell_view(cell),
            ),
            extensions: self.extensions,
        }
    }
}

impl ComponentsView {
    /// No security scheme that the registry holds, inline or resolved, is
    /// Mutual TLS.
    pub open spec fn free_of_mutual_tls(self) -> bool {
        forall|i: int|
            0 <= i < self.security_schemes.len() ==> !((
            #[trigger] self.security_schemes[i]).1.item() matches Some(scheme) && scheme
                is MutualTls)
    }

    /// No callback that the registry holds, inline or resolved, gives a Path
    /// Item as a bare reference.
    pub open spec fn free_of_referenced_path_items(self) -> bool {
        forall|i: int|
            0 <= i < self.callbacks.len() ==> ((#[trigger] self.callbacks[i]).1.item() matches Some(
                callback,
            ) ==> free_of_referenced_path_items(callback))
    }
}

} // verus!
