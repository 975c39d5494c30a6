use crate::error::DowngradeError;
use crate::ordered_map::{
    all_succeed, is_first_failure, keys, lemma_map_keeps_keys, lemma_mapped_by_agrees,
    lemma_try_map_keeps_keys, lemma_try_map_outcome, lemma_try_mapped_by_agrees,
    lemma_try_mapped_by_agrees_on_views, map_entries, outcome_view, try_map_entries, Entries,
    OrderedMap,
};
use crate::v3_0::callback::{
    callback_downgraded, callback_from_v3_1, lemma_callback_downgraded, Callback,
};
use crate::v3_0::media_type::example_cell_downgraded;
use crate::v3_0::objects::{
    Example, Header, Link, Parameter, PathItem, RequestBody, Response, Schema,
};
use crate::v3_0::reference::{cells_from_v3_1, ReferenceOr};
use crate::v3_0::security_scheme::SecurityScheme;
use crate::v3_1;
use indexmap::IndexMap;
use serde_json::Value;
use vstd::prelude::*;

verus! {

/// Holds a set of reusable objects for different aspects of the OAS.
/// All objects defined within the components object will have no effect
/// on the API unless they are explicitly referenced from properties
/// outside the components object.
#[derive(Clone, Debug, PartialEq)]
pub struct Components {
    /// An object to hold reusable Security Scheme Objects.
    pub security_schemes: OrderedMap<ReferenceOr<SecurityScheme>>,
    /// An object to hold reusable Response Objects.
    pub responses: OrderedMap<ReferenceOr<Response>>,
    /// An object to hold reusable Parameter Objects.
    pub parameters: OrderedMap<ReferenceOr<Parameter>>,
    /// An object to hold reusable Example Objects.
    pub examples: OrderedMap<ReferenceOr<Example>>,
    /// An object to hold reusable Request Body Objects.
    pub request_bodies: OrderedMap<ReferenceOr<RequestBody>>,
    /// An object to hold reusable Header Objects.
    pub headers: OrderedMap<ReferenceOr<Header>>,
    /// An object to hold reusable Schema Objects.
    pub schemas: OrderedMap<ReferenceOr<Schema>>,
    /// An object to hold reusable Link Objects.
    pub links: OrderedMap<ReferenceOr<Link>>,
    /// An object to hold reusable Callback Objects.
    pub callbacks: OrderedMap<ReferenceOr<Callback>>,
    /// Inline extensions to this object.
    pub extensions: IndexMap<String, Value>,
}

/// A cell that holds a callback, the callback given by its entries.
pub open spec fn callback_cell_view(cell: ReferenceOr<Callback>) -> ReferenceOr<Entries<PathItem>> {
    cell.map(|callback: Callback| callback@)
}

/// A registry with every mapping given by its entries.
pub struct ComponentsView {
    pub security_schemes: Entries<ReferenceOr<SecurityScheme>>,
    pub responses: Entries<ReferenceOr<Response>>,
    pub parameters: Entries<ReferenceOr<Parameter>>,
    pub examples: Entries<ReferenceOr<Example>>,
    pub request_bodies: Entries<ReferenceOr<RequestBody>>,
    pub headers: Entries<ReferenceOr<Header>>,
    pub schemas: Entries<ReferenceOr<Schema>>,
    pub links: Entries<ReferenceOr<Link>>,
    pub callbacks: Entries<ReferenceOr<Entries<PathItem>>>,
    pub extensions: IndexMap<String, Value>,
}

impl View for Components {
    type V = ComponentsView;

    open spec fn view(&self) -> ComponentsView {
        ComponentsView {
            security_schemes: self.security_schemes@,
            responses: self.responses@,
            parameters: self.parameters@,
            examples: self.examples@,
            request_bodies: self.request_bodies@,
            headers: self.headers@,
            schemas: self.schemas@,
            links: self.links@,
            callbacks: map_entries(
                self.callbacks@,
                |cell: ReferenceOr<Callback>| callback_cell_view(cell),
            ),
            extensions: self.extensions,
        }
    }
}

/// The outcome of a downgrade of a registry, the registry given by its view.
pub open spec fn components_outcome_view(r: Result<Components, DowngradeError>) -> Result<
    ComponentsView,
    DowngradeError,
> {
    match r {
        Ok(components) => Ok(components@),
        Err(e) => Err(e),
    }
}

/// The image of a cell that holds a security scheme.
pub open spec fn scheme_cell_downgraded(cell: v3_1::ReferenceOr<v3_1::SecurityScheme>) -> Result<
    ReferenceOr<SecurityScheme>,
    DowngradeError,
> {
    ReferenceOr::try_downgraded(cell, |s: v3_1::SecurityScheme| SecurityScheme::downgraded(s))
}

/// The image of a cell that holds a callback, the callback given by its
/// entries.
pub open spec fn callback_cell_downgraded(
    cell: v3_1::ReferenceOr<Entries<v3_1::ReferenceOr<v3_1::PathItem>>>,
) -> Result<ReferenceOr<Entries<PathItem>>, DowngradeError> {
    ReferenceOr::try_downgraded(
        cell,
        |entries: Entries<v3_1::ReferenceOr<v3_1::PathItem>>| callback_downgraded(entries),
    )
}

/// The image of a cell that holds a response.
pub open spec fn response_cell_downgraded(cell: v3_1::ReferenceOr<v3_1::Response>) -> ReferenceOr<
    Response,
> {
    ReferenceOr::downgraded(cell, |x: v3_1::Response| Response::downgraded(x))
}

/// The image of a cell that holds a parameter.
pub open spec fn parameter_cell_downgraded(cell: v3_1::ReferenceOr<v3_1::Parameter>) -> ReferenceOr<
    Parameter,
> {
    ReferenceOr::downgraded(cell, |x: v3_1::Parameter| Parameter::downgraded(x))
}

/// The image of a cell that holds a request body.
pub open spec fn request_body_cell_downgraded(
    cell: v3_1::ReferenceOr<v3_1::RequestBody>,
) -> ReferenceOr<RequestBody> {
    ReferenceOr::downgraded(cell, |x: v3_1::RequestBody| RequestBody::downgraded(x))
}

/// The image of a cell that holds a header.
pub open spec fn header_cell_downgraded(cell: v3_1::ReferenceOr<v3_1::Header>) -> ReferenceOr<Header> {
    ReferenceOr::downgraded(cell, |x: v3_1::Header| Header::downgraded(x))
}

/// The image of a cell that holds a link.
pub open spec fn link_cell_downgraded(cell: v3_1::ReferenceOr<v3_1::Link>) -> ReferenceOr<Link> {
    ReferenceOr::downgraded(cell, |x: v3_1::Link| Link::downgraded(x))
}

/// The image of a schema of the registry: an inline cell with the image of
/// the schema.
pub open spec fn schema_downgraded(schema: v3_1::Schema) -> ReferenceOr<Schema> {
    ReferenceOr::Item(Schema::downgraded(schema))
}

/// The outcome of the downgrade of one callback cell, the callback given by
/// its entries.
pub open spec fn callback_cell_outcome_view(r: Result<ReferenceOr<Callback>, DowngradeError>) -> Result<
    ReferenceOr<Entries<PathItem>>,
    DowngradeError,
> {
    match r {
        Ok(cell) => Ok(callback_cell_view(cell)),
        Err(e) => Err(e),
    }
}

impl Components {
    /// The older-revision image of a newer-revision registry. Every mapping
    /// is converted entry by entry, under the same names in the same order,
    /// so an empty mapping stays empty; the extensions are kept. The security
    /// schemes are walked first and the callbacks last, and the first failure
    /// met is the outcome: there is no partial registry.
    pub open spec fn downgraded(a: v3_1::components::ComponentsView) -> Result<
        ComponentsView,
        DowngradeError,
    > {
        match try_map_entries(
            a.security_schemes,
            |cell: v3_1::ReferenceOr<v3_1::SecurityScheme>| scheme_cell_downgraded(cell),
        ) {
            Err(e) => Err(e),
            Ok(security_schemes) => match try_map_entries(
                a.callbacks,
                |cell: v3_1::ReferenceOr<Entries<v3_1::ReferenceOr<v3_1::PathItem>>>|
                    callback_cell_downgraded(cell),
            ) {
                Err(e) => Err(e),
                Ok(callbacks) => Ok(
                    ComponentsView {
                        security_schemes,
                        responses: map_entries(
                            a.responses,
                            |cell: v3_1::ReferenceOr<v3_1::Response>| response_cell_downgraded(cell),
                        ),
                        parameters: map_entries(
                            a.parameters,
                            |cell: v3_1::ReferenceOr<v3_1::Parameter>|
                                parameter_cell_downgraded(cell),
                        ),
                        examples: map_entries(
                            a.examples,
                            |cell: v3_1::ReferenceOr<v3_1::Example>| example_cell_downgraded(cell),
                        ),
                        request_bodies: map_entries(
                            a.request_bodies,
                            |cell: v3_1::ReferenceOr<v3_1::RequestBody>|
                                request_body_cell_downgraded(cell),
                        ),
                        headers: map_entries(
                            a.headers,
                            |cell: v3_1::ReferenceOr<v3_1::Header>| header_cell_downgraded(cell),
                        ),
                        schemas: map_entries(
                            a.schemas,
                            |schema: v3_1::Schema| schema_downgraded(schema),
                        ),
                        links: map_entries(
                            a.links,
                            |cell: v3_1::ReferenceOr<v3_1::Link>| link_cell_downgraded(cell),
                        ),
                        callbacks,
                        extensions: a.extensions,
                    },
                ),
            },
        }
    }

    /// Downgrades a registry of reusable objects. Fails with
    /// [`DowngradeError::UnsupportedFeature`] exactly if a security scheme is
    /// Mutual TLS, and otherwise with
    /// [`DowngradeError::StructuralInvariantViolation`] exactly if a callback
    /// gives a Path Item as a bare reference. On success every mapping has
    /// the names of its source in the same order.
    pub fn from_v3_1(a: v3_1::Components) -> (out: Result<Components, DowngradeError>)
        ensures
            components_outcome_view(out) == Self::downgraded(a@),
            out is Ok <==> a@.free_of_mutual_tls() && a@.free_of_referenced_path_items(),
            !a@.free_of_mutual_tls() ==> out == Err::<Components, _>(
                DowngradeError::UnsupportedFeature,
            ),
            a@.free_of_mutual_tls() && !a@.free_of_referenced_path_items() ==> out == Err::<
                Components,
                _,
            >(DowngradeError::StructuralInvariantViolation),
            out matches Ok(c) ==> {
                &&& keys(c.security_schemes@) == keys(a.security_schemes@)
                &&& keys(c.responses@) == keys(a.responses@)
                &&& keys(c.parameters@) == keys(a.parameters@)
                &&& keys(c.examples@) == keys(a.examples@)
                &&& keys(c.request_bodies@) == keys(a.request_bodies@)
                &&& keys(c.headers@) == keys(a.headers@)
                &&& keys(c.schemas@) == keys(a.schemas@)
                &&& keys(c.links@) == keys(a.links@)
                &&& keys(c.callbacks@) == keys(a.callbacks@)
                &&& c.extensions == a.extensions
            },
    {
        let ghost before = a@;
        let ghost scheme_image = |cell: v3_1::ReferenceOr<v3_1::SecurityScheme>|
            scheme_cell_downgraded(cell);
        let ghost callback_image = |cell: v3_1::ReferenceOr<Entries<v3_1::ReferenceOr<v3_1::PathItem>>>|
            callback_cell_downgraded(cell);
        proof {
            lemma_components_downgraded(before);
        }
        let convert_scheme = |cell: v3_1::ReferenceOr<v3_1::SecurityScheme>| -> (r: Result<
            ReferenceOr<SecurityScheme>,
            DowngradeError,
        >)
            ensures
                r == scheme_cell_downgraded(cell),
            { ReferenceOr::try_from_v3_1(cell, SecurityScheme::from_v3_1) };
        let ghost raw_schemes = a.security_schemes@;
        let schemes_outcome = a.security_schemes.try_map_values(convert_scheme);
        proof {
            lemma_try_mapped_by_agrees(
                raw_schemes,
                convert_scheme,
                scheme_image,
                outcome_view(schemes_outcome),
            );
        }
        let security_schemes = match schemes_outcome {
            Ok(security_schemes) => security_schemes,
            Err(e) => {
                return Err(e);
            },
        };
        let responses = cells_from_v3_1(a.responses);
        let parameters = cells_from_v3_1(a.parameters);
        let examples = cells_from_v3_1(a.examples);
        let request_bodies = cells_from_v3_1(a.request_bodies);
        let headers = cells_from_v3_1(a.headers);
        let convert_schema = |schema: v3_1::Schema| -> (r: ReferenceOr<Schema>)
            ensures
                r == schema_downgraded(schema),
            { ReferenceOr::Item(Schema::from(schema)) };
        let ghost raw_schemas = a.schemas@;
        let schemas = a.schemas.map_values(convert_schema);
        let links = cells_from_v3_1(a.links);
        let convert_callback = |cell: v3_1::ReferenceOr<v3_1::Callback>| -> (r: Result<
            ReferenceOr<Callback>,
            DowngradeError,
        >)
            ensures
                callback_cell_downgraded(v3_1::components::callback_cell_view(cell))
                    == callback_cell_outcome_view(r),
            { ReferenceOr::try_from_v3_1(cell, callback_from_v3_1) };
        let ghost raw_callbacks = a.callbacks@;
        let callbacks_outcome = a.callbacks.try_map_values(convert_callback);
        proof {
            lemma_try_mapped_by_agrees_on_views(
                raw_callbacks,
                convert_callback,
                outcome_view(callbacks_outcome),
                |cell: v3_1::ReferenceOr<v3_1::Callback>| v3_1::components::callback_cell_view(cell),
                |cell: ReferenceOr<Callback>| callback_cell_view(cell),
                callback_image,
            );
        }
        let callbacks = match callbacks_outcome {
            Ok(callbacks) => callbacks,
            Err(e) => {
                return Err(e);
            },
        };
        proof {
            assert(responses@ =~= map_entries(
                before.responses,
                |cell: v3_1::ReferenceOr<v3_1::Response>| response_cell_downgraded(cell),
            ));
            assert(parameters@ =~= map_entries(
                before.parameters,
                |cell: v3_1::ReferenceOr<v3_1::Parameter>| parameter_cell_downgraded(cell),
            ));
            assert(examples@ =~= map_entries(
                before.examples,
                |cell: v3_1::ReferenceOr<v3_1::Example>| example_cell_downgraded(cell),
            ));
            assert(request_bodies@ =~= map_entries(
                before.request_bodies,
                |cell: v3_1::ReferenceOr<v3_1::RequestBody>| request_body_cell_downgraded(cell),
            ));
            assert(headers@ =~= map_entries(
                before.headers,
                |cell: v3_1::ReferenceOr<v3_1::Header>| header_cell_downgraded(cell),
            ));
            assert(links@ =~= map_entries(
                before.links,
                |cell: v3_1::ReferenceOr<v3_1::Link>| link_cell_downgraded(cell),
            ));
            lemma_mapped_by_agrees(
                raw_schemas,
                convert_schema,
                |schema: v3_1::Schema| schema_downgraded(schema),
                schemas@,
            );
            lemma_map_keeps_keys(
                callbacks@,
                |cell: ReferenceOr<Callback>| callback_cell_view(cell),
            );
            lemma_map_keeps_keys(
                raw_callbacks,
                |cell: v3_1::ReferenceOr<v3_1::Callback>| v3_1::components::callback_cell_view(cell),
            );
            assert(keys(callbacks@) =~= keys(raw_callbacks));
        }
        Ok(
            Components {
                security_schemes,
                responses,
                parameters,
                examples,
                request_bodies,
                headers,
                schemas,
                links,
                callbacks,
                extensions: a.extensions,
            },
        )
    }
}

/// A Mutual-TLS scheme is the only thing on which a cell of security schemes
/// fails.
proof fn lemma_scheme_cell(cell: v3_1::ReferenceOr<v3_1::SecurityScheme>)
    ensures
        scheme_cell_downgraded(cell) is Ok <==> !(cell.item() matches Some(scheme) && scheme
            is MutualTls),
        scheme_cell_downgraded(cell) matches Err(e) ==> e == DowngradeError::UnsupportedFeature,
{
}

/// A referenced Path Item is the only thing on which a cell of callbacks
/// fails.
proof fn lemma_callback_cell(cell: v3_1::ReferenceOr<Entries<v3_1::ReferenceOr<v3_1::PathItem>>>)
    ensures
        callback_cell_downgraded(cell) is Ok <==> (cell.item() matches Some(callback)
            ==> v3_1::callback::free_of_referenced_path_items(callback)),
        callback_cell_downgraded(cell) matches Err(e) ==> e
            == DowngradeError::StructuralInvariantViolation,
{
    if cell.item() is Some {
        lemma_callback_downgraded(cell.item()->Some_0);
    }
}

/// What the downgrade of a registry comes to.
///
/// It succeeds exactly on a registry that is free of Mutual-TLS schemes and
/// free of referenced Path Items. A Mutual-TLS scheme yields the
/// unsupported-feature error whatever else the registry holds; without one, a
/// referenced Path Item yields the structural violation. On success every
/// kind of object keeps its names in their order, so a kind without entries
/// stays without entries, and the extensions are the same.
pub proof fn lemma_components_downgraded(a: v3_1::components::ComponentsView)
    ensures
        Components::downgraded(a) is Ok <==> a.free_of_mutual_tls()
            && a.free_of_referenced_path_items(),
        !a.free_of_mutual_tls() ==> Components::downgraded(a) == Err::<ComponentsView, _>(
            DowngradeError::UnsupportedFeature,
        ),
        a.free_of_mutual_tls() && !a.free_of_referenced_path_items() ==> Components::downgraded(a)
            == Err::<ComponentsView, _>(DowngradeError::StructuralInvariantViolation),
        Components::downgraded(a) matches Ok(c) ==> {
            &&& keys(c.security_schemes) == keys(a.security_schemes)
            &&& keys(c.responses) == keys(a.responses)
            &&& keys(c.parameters) == keys(a.parameters)
            &&& keys(c.examples) == keys(a.examples)
            &&& keys(c.request_bodies) == keys(a.request_bodies)
            &&& keys(c.headers) == keys(a.headers)
            &&& keys(c.schemas) == keys(a.schemas)
            &&& keys(c.links) == keys(a.links)
            &&& keys(c.callbacks) == keys(a.callbacks)
            &&& c.extensions == a.extensions
        },
        Components::downgraded(a) matches Ok(c) ==> {
            &&& c.security_schemes.len() == 0 <==> a.security_schemes.len() == 0
            &&& c.responses.len() == 0 <==> a.responses.len() == 0
            &&& c.parameters.len() == 0 <==> a.parameters.len() == 0
            &&& c.examples.len() == 0 <==> a.examples.len() == 0
            &&& c.request_bodies.len() == 0 <==> a.request_bodies.len() == 0
            &&& c.headers.len() == 0 <==> a.headers.len() == 0
            &&& c.schemas.len() == 0 <==> a.schemas.len() == 0
            &&& c.links.len() == 0 <==> a.links.len() == 0
            &&& c.callbacks.len() == 0 <==> a.callbacks.len() == 0
        },
{
    let fs = |cell: v3_1::ReferenceOr<v3_1::SecurityScheme>| scheme_cell_downgraded(cell);
    let fc = |cell: v3_1::ReferenceOr<Entries<v3_1::ReferenceOr<v3_1::PathItem>>>|
        callback_cell_downgraded(cell);
    lemma_try_map_outcome(a.security_schemes, fs);
    lemma_try_map_outcome(a.callbacks, fc);
    assert forall|i: int| 0 <= i < a.security_schemes.len() implies (fs(
        (#[trigger] a.security_schemes[i]).1,
    ) is Ok <==> !(a.security_schemes[i].1.item() matches Some(scheme) && scheme is MutualTls)) by {
        lemma_scheme_cell(a.security_schemes[i].1);
    }
    assert forall|i: int| 0 <= i < a.callbacks.len() implies (fc((#[trigger] a.callbacks[i]).1)
        is Ok <==> (a.callbacks[i].1.item() matches Some(callback)
        ==> v3_1::callback::free_of_referenced_path_items(callback))) by {
        lemma_callback_cell(a.callbacks[i].1);
    }
    assert(all_succeed(a.security_schemes, fs) <==> a.free_of_mutual_tls());
    assert(all_succeed(a.callbacks, fc) <==> a.free_of_referenced_path_items());
    match try_map_entries(a.security_schemes, fs) {
        Err(e) => {
            let at = choose|at: int|
                #[trigger] is_first_failure(a.security_schemes, fs, at) && fs(
                    a.security_schemes[at].1,
                ) == Err::<ReferenceOr<SecurityScheme>, _>(e);
            lemma_scheme_cell(a.security_schemes[at].1);
        },
        Ok(_) => {
            lemma_try_map_keeps_keys(a.security_schemes, fs);
            match try_map_entries(a.callbacks, fc) {
                Err(e) => {
                    let at = choose|at: int|
                        #[trigger] is_first_failure(a.callbacks, fc, at) && fc(
                            a.callbacks[at].1,
                        ) == Err::<ReferenceOr<Entries<PathItem>>, _>(e);
                    lemma_callback_cell(a.callbacks[at].1);
                },
                Ok(_) => {
                    lemma_try_map_keeps_keys(a.callbacks, fc);
                    lemma_map_keeps_keys(
                        a.responses,
                        |cell: v3_1::ReferenceOr<v3_1::Response>| response_cell_downgraded(cell),
                    );
                    lemma_map_keeps_keys(
                        a.parameters,
                        |cell: v3_1::ReferenceOr<v3_1::Parameter>| parameter_cell_downgraded(cell),
                    );
                    lemma_map_keeps_keys(
                        a.examples,
                        |cell: v3_1::ReferenceOr<v3_1::Example>| example_cell_downgraded(cell),
                    );
                    lemma_map_keeps_keys(
                        a.request_bodies,
                        |cell: v3_1::ReferenceOr<v3_1::RequestBody>|
                            request_body_cell_downgraded(cell),
                    );
                    lemma_map_keeps_keys(
                        a.headers,
                        |cell: v3_1::ReferenceOr<v3_1::Header>| header_cell_downgraded(cell),
                    );
                    lemma_map_keeps_keys(
                        a.schemas,
                        |schema: v3_1::Schema| schema_downgraded(schema),
                    );
                    lemma_map_keeps_keys(
                        a.links,
                        |cell: v3_1::ReferenceOr<v3_1::Link>| link_cell_downgraded(cell),
                    );
                },
            }
        },
    }
}

} // verus!
