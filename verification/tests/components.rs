use openapiv3::error::DowngradeError;
use openapiv3::ordered_map::OrderedMap;
use openapiv3::v3_0::{
    callback_from_v3_1, cells_from_v3_1, APIKeyLocation, Callback, Components, Encoding, Example,
    Header, Link, MediaType, Parameter, PathItem, ReferenceOr, RequestBody, Response, Schema,
    SecurityScheme, Server, ServerVariable,
};
use openapiv3::v3_1;

use indexmap::IndexMap;
use serde_json::Value;

fn members(key: &str, value: &str) -> IndexMap<String, Value> {
    let mut m = IndexMap::new();
    m.insert(key.to_owned(), Value::String(value.to_owned()));
    m
}

fn extensions() -> IndexMap<String, Value> {
    let mut m = IndexMap::new();
    m.insert("x-audience".to_owned(), Value::String("partners".to_owned()));
    m
}

fn keys_of<V>(m: &OrderedMap<V>) -> Vec<String> {
    let mut out = Vec::new();
    let mut i = 0;
    while let Some((k, _)) = m.get_index(i) {
        out.push(k.clone());
        i += 1;
    }
    out
}

fn empty_3_1() -> v3_1::Components {
    v3_1::Components {
        security_schemes: OrderedMap::new(),
        responses: OrderedMap::new(),
        parameters: OrderedMap::new(),
        examples: OrderedMap::new(),
        request_bodies: OrderedMap::new(),
        headers: OrderedMap::new(),
        schemas: OrderedMap::new(),
        links: OrderedMap::new(),
        callbacks: OrderedMap::new(),
        extensions: IndexMap::new(),
    }
}

fn api_key_3_1(name: &str) -> v3_1::SecurityScheme {
    v3_1::SecurityScheme::ApiKey {
        location: v3_1::ApiKeyLocation::Header,
        name: name.to_owned(),
        description: None,
        extensions: IndexMap::new(),
    }
}

fn api_key_3_0(name: &str) -> SecurityScheme {
    SecurityScheme::APIKey {
        location: APIKeyLocation::Header,
        name: name.to_owned(),
        description: None,
        extensions: IndexMap::new(),
    }
}

fn mutual_tls() -> v3_1::SecurityScheme {
    v3_1::SecurityScheme::MutualTls { description: None, extensions: IndexMap::new() }
}

fn path_item_3_1(summary: &str) -> v3_1::PathItem {
    v3_1::PathItem { members: members("summary", summary) }
}

fn callback_3_1(entries: Vec<(&str, v3_1::ReferenceOr<v3_1::PathItem>)>) -> v3_1::Callback {
    let mut m = OrderedMap::new();
    for (k, v) in entries {
        m.insert(k.to_owned(), v);
    }
    m
}

#[test]
fn callback_converts_inline_path_items_in_order() {
    let a = callback_3_1(vec![
        ("{$request.body#/url}", v3_1::ReferenceOr::Item(path_item_3_1("first"))),
        ("{$request.query.cb}", v3_1::ReferenceOr::Item(path_item_3_1("second"))),
    ]);
    let out = callback_from_v3_1(a).map(|m| m.into_entries());
    assert_eq!(
        out,
        Ok(vec![
            ("{$request.body#/url}".to_owned(), PathItem { members: members("summary", "first") }),
            ("{$request.query.cb}".to_owned(), PathItem { members: members("summary", "second") }),
        ])
    );
}

#[test]
fn callback_converts_resolved_path_items() {
    let a = callback_3_1(vec![(
        "{$url}",
        v3_1::ReferenceOr::DereferencedReference {
            reference: "#/components/pathItems/hook".to_owned(),
            item: path_item_3_1("hook"),
        },
    )]);
    let out = callback_from_v3_1(a).map(|m| m.into_entries());
    assert_eq!(
        out,
        Ok(vec![("{$url}".to_owned(), PathItem { members: members("summary", "hook") })])
    );
}

#[test]
fn callback_with_a_referenced_path_item_is_a_violation() {
    let a = callback_3_1(vec![
        ("{$a}", v3_1::ReferenceOr::Item(path_item_3_1("a"))),
        ("{$b}", v3_1::ReferenceOr::Reference { reference: "#/components/pathItems/b".to_owned() }),
        ("{$c}", v3_1::ReferenceOr::Item(path_item_3_1("c"))),
    ]);
    assert_eq!(callback_from_v3_1(a), Err(DowngradeError::StructuralInvariantViolation));
}

#[test]
fn empty_callback_stays_empty() {
    let out: Callback = callback_from_v3_1(OrderedMap::new()).unwrap();
    assert!(out.is_empty());
}

#[test]
fn cells_are_converted_entry_by_entry() {
    let mut cells = OrderedMap::new();
    cells.insert("b".to_owned(), v3_1::ReferenceOr::Item(v3_1::Link { members: members("operationId", "getB") }));
    cells.insert("a".to_owned(), v3_1::ReferenceOr::Reference { reference: "#/components/links/a".to_owned() });
    let out: OrderedMap<ReferenceOr<Link>> = cells_from_v3_1(cells);
    assert_eq!(
        out.into_entries(),
        vec![
            ("b".to_owned(), ReferenceOr::Item(Link { members: members("operationId", "getB") })),
            ("a".to_owned(), ReferenceOr::Reference { reference: "#/components/links/a".to_owned() }),
        ]
    );
}

#[test]
fn empty_registry_converts_to_empty_registry() {
    let out = Components::from_v3_1(empty_3_1()).unwrap();
    assert!(out.security_schemes.is_empty());
    assert!(out.responses.is_empty());
    assert!(out.parameters.is_empty());
    assert!(out.examples.is_empty());
    assert!(out.request_bodies.is_empty());
    assert!(out.headers.is_empty());
    assert!(out.schemas.is_empty());
    assert!(out.links.is_empty());
    assert!(out.callbacks.is_empty());
    assert_eq!(out.extensions, IndexMap::<String, Value>::new());
}

#[test]
fn registry_keeps_keys_and_order_of_every_kind() {
    let mut a = empty_3_1();
    a.security_schemes.insert("zKey".to_owned(), v3_1::ReferenceOr::Item(api_key_3_1("X-Z")));
    a.security_schemes.insert("aKey".to_owned(), v3_1::ReferenceOr::Item(api_key_3_1("X-A")));
    a.security_schemes.insert(
        "shared".to_owned(),
        v3_1::ReferenceOr::Reference { reference: "#/components/securitySchemes/zKey".to_owned() },
    );
    a.responses.insert("NotFound".to_owned(), v3_1::ReferenceOr::Item(v3_1::Response { members: members("description", "missing") }));
    a.responses.insert("Ok".to_owned(), v3_1::ReferenceOr::Reference { reference: "#/components/responses/Fine".to_owned() });
    a.parameters.insert("limit".to_owned(), v3_1::ReferenceOr::Item(v3_1::Parameter { members: members("in", "query") }));
    a.parameters.insert("after".to_owned(), v3_1::ReferenceOr::Item(v3_1::Parameter { members: members("in", "query") }));
    a.examples.insert("cat".to_owned(), v3_1::ReferenceOr::Item(v3_1::Example { members: members("summary", "a cat") }));
    a.request_bodies.insert("Pet".to_owned(), v3_1::ReferenceOr::Item(v3_1::RequestBody { members: members("description", "a pet") }));
    a.headers.insert("X-Rate".to_owned(), v3_1::ReferenceOr::Item(v3_1::Header { members: members("description", "rate") }));
    a.schemas.insert("Pet".to_owned(), v3_1::Schema { members: members("type", "object") });
    a.schemas.insert("Error".to_owned(), v3_1::Schema { members: members("type", "object") });
    a.links.insert("next".to_owned(), v3_1::ReferenceOr::Item(v3_1::Link { members: members("operationId", "list") }));
    a.callbacks.insert(
        "onEvent".to_owned(),
        v3_1::ReferenceOr::Item(callback_3_1(vec![("{$url}", v3_1::ReferenceOr::Item(path_item_3_1("event")))])),
    );
    a.callbacks.insert(
        "onOther".to_owned(),
        v3_1::ReferenceOr::Reference { reference: "#/components/callbacks/onEvent".to_owned() },
    );
    a.extensions = extensions();

    let out = Components::from_v3_1(a).unwrap();
    assert_eq!(keys_of(&out.security_schemes), vec!["zKey".to_owned(), "aKey".to_owned(), "shared".to_owned()]);
    assert_eq!(keys_of(&out.responses), vec!["NotFound".to_owned(), "Ok".to_owned()]);
    assert_eq!(keys_of(&out.parameters), vec!["limit".to_owned(), "after".to_owned()]);
    assert_eq!(keys_of(&out.examples), vec!["cat".to_owned()]);
    assert_eq!(keys_of(&out.request_bodies), vec!["Pet".to_owned()]);
    assert_eq!(keys_of(&out.headers), vec!["X-Rate".to_owned()]);
    assert_eq!(keys_of(&out.schemas), vec!["Pet".to_owned(), "Error".to_owned()]);
    assert_eq!(keys_of(&out.links), vec!["next".to_owned()]);
    assert_eq!(keys_of(&out.callbacks), vec!["onEvent".to_owned(), "onOther".to_owned()]);
    assert_eq!(out.extensions, extensions());

    assert_eq!(out.security_schemes.get("aKey"), Some(&ReferenceOr::Item(api_key_3_0("X-A"))));
    assert_eq!(
        out.security_schemes.get("shared"),
        Some(&ReferenceOr::Reference { reference: "#/components/securitySchemes/zKey".to_owned() })
    );
    assert_eq!(
        out.responses.get("NotFound"),
        Some(&ReferenceOr::Item(Response { members: members("description", "missing") }))
    );
    assert_eq!(
        out.responses.get("Ok"),
        Some(&ReferenceOr::Reference { reference: "#/components/responses/Fine".to_owned() })
    );
    assert_eq!(out.parameters.get("limit"), Some(&ReferenceOr::Item(Parameter { members: members("in", "query") })));
    assert_eq!(out.examples.get("cat"), Some(&ReferenceOr::Item(Example { members: members("summary", "a cat") })));
    assert_eq!(
        out.request_bodies.get("Pet"),
        Some(&ReferenceOr::Item(RequestBody { members: members("description", "a pet") }))
    );
    assert_eq!(out.headers.get("X-Rate"), Some(&ReferenceOr::Item(Header { members: members("description", "rate") })));
    assert_eq!(out.schemas.get("Pet"), Some(&ReferenceOr::Item(Schema { members: members("type", "object") })));
    assert_eq!(out.links.get("next"), Some(&ReferenceOr::Item(Link { members: members("operationId", "list") })));
    let mut expected_callback = OrderedMap::new();
    expected_callback.insert("{$url}".to_owned(), PathItem { members: members("summary", "event") });
    assert_eq!(out.callbacks.get("onEvent"), Some(&ReferenceOr::Item(expected_callback)));
    assert_eq!(
        out.callbacks.get("onOther"),
        Some(&ReferenceOr::Reference { reference: "#/components/callbacks/onEvent".to_owned() })
    );
}

#[test]
fn registry_leaves_other_kinds_empty() {
    let mut a = empty_3_1();
    a.schemas.insert("Pet".to_owned(), v3_1::Schema { members: members("type", "object") });
    let out = Components::from_v3_1(a).unwrap();
    assert_eq!(out.schemas.len(), 1);
    assert!(out.security_schemes.is_empty());
    assert!(out.responses.is_empty());
    assert!(out.parameters.is_empty());
    assert!(out.examples.is_empty());
    assert!(out.request_bodies.is_empty());
    assert!(out.headers.is_empty());
    assert!(out.links.is_empty());
    assert!(out.callbacks.is_empty());
}

#[test]
fn registry_turns_resolved_references_into_items() {
    let mut a = empty_3_1();
    a.security_schemes.insert(
        "key".to_owned(),
        v3_1::ReferenceOr::DereferencedReference {
            reference: "#/components/securitySchemes/other".to_owned(),
            item: api_key_3_1("X-Key"),
        },
    );
    a.callbacks.insert(
        "hook".to_owned(),
        v3_1::ReferenceOr::DereferencedReference {
            reference: "#/components/callbacks/other".to_owned(),
            item: callback_3_1(vec![("{$url}", v3_1::ReferenceOr::Item(path_item_3_1("hook")))]),
        },
    );
    let out = Components::from_v3_1(a).unwrap();
    assert_eq!(out.security_schemes.get("key"), Some(&ReferenceOr::Item(api_key_3_0("X-Key"))));
    let mut expected_callback = OrderedMap::new();
    expected_callback.insert("{$url}".to_owned(), PathItem { members: members("summary", "hook") });
    assert_eq!(out.callbacks.get("hook"), Some(&ReferenceOr::Item(expected_callback)));
}

#[test]
fn registry_with_mutual_tls_is_unsupported() {
    let mut a = empty_3_1();
    a.security_schemes.insert("key".to_owned(), v3_1::ReferenceOr::Item(api_key_3_1("X-Key")));
    a.security_schemes.insert("mtls".to_owned(), v3_1::ReferenceOr::Item(mutual_tls()));
    a.schemas.insert("Pet".to_owned(), v3_1::Schema { members: members("type", "object") });
    assert_eq!(Components::from_v3_1(a), Err(DowngradeError::UnsupportedFeature));
}

#[test]
fn registry_with_resolved_mutual_tls_is_unsupported() {
    let mut a = empty_3_1();
    a.security_schemes.insert(
        "mtls".to_owned(),
        v3_1::ReferenceOr::DereferencedReference {
            reference: "#/components/securitySchemes/tls".to_owned(),
            item: mutual_tls(),
        },
    );
    assert_eq!(Components::from_v3_1(a), Err(DowngradeError::UnsupportedFeature));
}

#[test]
fn registry_with_a_referenced_path_item_is_a_violation() {
    let mut a = empty_3_1();
    a.security_schemes.insert("key".to_owned(), v3_1::ReferenceOr::Item(api_key_3_1("X-Key")));
    a.callbacks.insert(
        "hook".to_owned(),
        v3_1::ReferenceOr::Item(callback_3_1(vec![(
            "{$url}",
            v3_1::ReferenceOr::Reference { reference: "#/components/pathItems/hook".to_owned() },
        )])),
    );
    assert_eq!(Components::from_v3_1(a), Err(DowngradeError::StructuralInvariantViolation));
}

#[test]
fn mutual_tls_is_reported_before_a_referenced_path_item() {
    let mut a = empty_3_1();
    a.security_schemes.insert("mtls".to_owned(), v3_1::ReferenceOr::Item(mutual_tls()));
    a.callbacks.insert(
        "hook".to_owned(),
        v3_1::ReferenceOr::Item(callback_3_1(vec![(
            "{$url}",
            v3_1::ReferenceOr::Reference { reference: "#/components/pathItems/hook".to_owned() },
        )])),
    );
    assert_eq!(Components::from_v3_1(a), Err(DowngradeError::UnsupportedFeature));
}

#[test]
fn a_reference_to_a_scheme_is_not_looked_into() {
    // A bare reference is copied; what it names is not this registry's matter.
    let mut a = empty_3_1();
    a.security_schemes.insert(
        "mtls".to_owned(),
        v3_1::ReferenceOr::Reference { reference: "#/components/securitySchemes/tls".to_owned() },
    );
    let out = Components::from_v3_1(a).unwrap();
    assert_eq!(
        out.security_schemes.get("mtls"),
        Some(&ReferenceOr::Reference { reference: "#/components/securitySchemes/tls".to_owned() })
    );
}

#[test]
fn server_without_variables_has_no_variable_mapping() {
    let s = v3_1::Server {
        url: "https://api.example.com/v1".to_owned(),
        description: Some("production".to_owned()),
        variables: OrderedMap::new(),
        extensions: extensions(),
    };
    assert_eq!(
        Server::from_v3_1(s),
        Server {
            url: "https://api.example.com/v1".to_owned(),
            description: Some("production".to_owned()),
            variables: None,
            extensions: extensions(),
        }
    );
}

#[test]
fn server_with_variables_keeps_them_in_order() {
    let mut variables = OrderedMap::new();
    variables.insert("port".to_owned(), v3_1::ServerVariable { members: members("default", "8443") });
    variables.insert("basePath".to_owned(), v3_1::ServerVariable { members: members("default", "v2") });
    let s = v3_1::Server {
        url: "https://example.com:{port}/{basePath}".to_owned(),
        description: None,
        variables,
        extensions: IndexMap::new(),
    };
    let out = Server::from_v3_1(s);
    assert_eq!(out.url, "https://example.com:{port}/{basePath}");
    assert_eq!(out.description, None);
    assert_eq!(
        out.variables.map(|m| m.into_entries()),
        Some(vec![
            ("port".to_owned(), ServerVariable { members: members("default", "8443") }),
            ("basePath".to_owned(), ServerVariable { members: members("default", "v2") }),
        ])
    );
}

#[test]
fn media_type_wraps_its_schema_in_an_item() {
    let mut examples = OrderedMap::new();
    examples.insert("dog".to_owned(), v3_1::ReferenceOr::Item(v3_1::Example { members: members("summary", "a dog") }));
    examples.insert("cat".to_owned(), v3_1::ReferenceOr::Reference { reference: "#/components/examples/cat".to_owned() });
    let mut encoding = OrderedMap::new();
    encoding.insert("photo".to_owned(), v3_1::Encoding { members: members("contentType", "image/png") });
    let m = v3_1::MediaType {
        schema: Some(v3_1::Schema { members: members("type", "object") }),
        example: Some(Value::String("rex".to_owned())),
        examples,
        encoding,
        extensions: extensions(),
    };
    let out = MediaType::from_v3_1(m);
    assert_eq!(out.schema, Some(ReferenceOr::Item(Schema { members: members("type", "object") })));
    assert_eq!(out.example, Some(Value::String("rex".to_owned())));
    assert_eq!(
        out.examples.into_entries(),
        vec![
            ("dog".to_owned(), ReferenceOr::Item(Example { members: members("summary", "a dog") })),
            ("cat".to_owned(), ReferenceOr::Reference { reference: "#/components/examples/cat".to_owned() }),
        ]
    );
    assert_eq!(
        out.encoding.into_entries(),
        vec![("photo".to_owned(), Encoding { members: members("contentType", "image/png") })]
    );
    assert_eq!(out.extensions, extensions());
}

#[test]
fn media_type_without_schema_has_none() {
    let m = v3_1::MediaType {
        schema: None,
        example: None,
        examples: OrderedMap::new(),
        encoding: OrderedMap::new(),
        extensions: IndexMap::new(),
    };
    let out = MediaType::from_v3_1(m);
    assert_eq!(out.schema, None);
    assert_eq!(out.example, None);
    assert!(out.examples.is_empty());
    assert!(out.encoding.is_empty());
}
