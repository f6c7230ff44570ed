use rusty_swagger::builder::{
    collect_body, collect_operation_parameters, get_paths, is_set, method_of, request_of,
    response_of, responses_of_operation, text_of_or, try_get_paths, MalformedDocument,
};
use rusty_swagger::document::{every_node_is_text, is_name_listed, schema_of, try_get_schemas};
use rusty_swagger::model::{Documentation, QueryParameter, RequestHeader, ResponseBody};
use rusty_swagger::node::Node;
use rusty_swagger::swaggerhub::{definition_file_of, definition_url_of};

fn text(s: &str) -> Node {
    Node::Text(s.to_string())
}

fn mapping(pairs: Vec<(&str, Node)>) -> Node {
    Node::Mapping(pairs.into_iter().map(|(k, v)| (text(k), v)).collect())
}

fn list(items: Vec<Node>) -> Node {
    Node::Array(items)
}

fn typed(name: &str) -> Node {
    mapping(vec![("type", text(name))])
}

fn parameter(name: &str, place: &str, kind: &str) -> Node {
    mapping(vec![
        ("name", text(name)),
        ("in", text(place)),
        ("required", Node::Boolean(true)),
        ("description", text("the *value*")),
        ("example", text("42")),
        ("schema", typed(kind)),
    ])
}

fn pets_document() -> Node {
    let list_pets = mapping(vec![
        ("summary", text("List pets")),
        ("description", text("Lists **all** pets")),
        (
            "parameters",
            list(vec![
                parameter("page_size", "query", "integer"),
                parameter("X-Trace", "header", "string"),
                parameter("id", "path", "string"),
                mapping(vec![("name", text("plain")), ("in", text("query"))]),
            ]),
        ),
        (
            "responses",
            mapping(vec![
                (
                    "200",
                    mapping(vec![
                        ("description", text("ok")),
                        ("example", text("[]")),
                        (
                            "content",
                            mapping(vec![(
                                "application/json",
                                mapping(vec![(
                                    "schema",
                                    mapping(vec![
                                        ("type", text("array")),
                                        (
                                            "items",
                                            mapping(vec![(
                                                "$ref",
                                                text("#/components/schemas/org.pets.Pet"),
                                            )]),
                                        ),
                                    ]),
                                )]),
                            )]),
                        ),
                    ]),
                ),
                (
                    "404",
                    mapping(vec![
                        ("description", text("missing")),
                        ("schema", mapping(vec![("$ref", text("#/definitions/Problem"))])),
                    ]),
                ),
                (
                    "500",
                    mapping(vec![
                        ("description", text("broken")),
                        ("content", mapping(vec![("text/plain", mapping(vec![]))])),
                    ]),
                ),
            ]),
        ),
    ]);
    let add_pet = mapping(vec![
        ("description", text("Adds a pet")),
        (
            "requestBody",
            mapping(vec![
                ("required", Node::Boolean(true)),
                (
                    "content",
                    mapping(vec![(
                        "application/json",
                        mapping(vec![(
                            "schema",
                            mapping(vec![("$ref", text("#/components/schemas/org.pets.Pet"))]),
                        )]),
                    )]),
                ),
            ]),
        ),
        ("responses", mapping(vec![("403", mapping(vec![("description", text("no"))]))])),
    ]);
    let pet = mapping(vec![
        ("required", list(vec![text("pet_name")])),
        (
            "properties",
            mapping(vec![
                (
                    "pet_name",
                    mapping(vec![
                        ("type", text("string")),
                        ("description", text("the _name_")),
                        ("example", text("Rex")),
                    ]),
                ),
                (
                    "tags",
                    mapping(vec![("type", text("array")), ("items", typed("string"))]),
                ),
                ("owner", mapping(vec![("$ref", text("#/components/schemas/org.pets.Owner"))])),
                ("odd", mapping(vec![])),
            ]),
        ),
        ("enum", list(vec![text("ignored")])),
    ]);
    let color = mapping(vec![("enum", list(vec![text("DARK_RED"), text("blue")]))]);
    mapping(vec![
        ("info", mapping(vec![("title", text("Pet Store"))])),
        ("servers", list(vec![mapping(vec![("url", text("https://pets.example"))])])),
        (
            "paths",
            mapping(vec![
                ("/pets", mapping(vec![("get", list_pets), ("post", add_pet)])),
                ("/empty", text("nothing")),
            ]),
        ),
        (
            "components",
            mapping(vec![(
                "schemas",
                mapping(vec![("org.pets.Pet", pet), ("Color", color), ("Bare", typed("object"))]),
            )]),
        ),
    ])
}

#[test]
fn document_root_is_read() {
    let doc = Documentation::new(&pets_document());
    assert_eq!(doc.title, "Pet Store");
    assert_eq!(doc.host, "https://pets.example");
    assert_eq!(doc.base_url, "");
    assert_eq!(doc.requests.len(), 2);
    assert_eq!(doc.schemas.len(), 3);
}

#[test]
fn endpoint_collects_its_operations() {
    let doc = Documentation::new(&pets_document());
    let pets = &doc.requests[0];
    assert_eq!(pets.title, "/pets");
    assert_eq!(pets.methods.len(), 2);
    assert_eq!(pets.methods[0].method, "get");
    assert_eq!(pets.methods[0].path, "/pets");
    assert_eq!(pets.methods[0].summary, "List pets");
    assert_eq!(pets.methods[0].description, "Lists \\textbf{all} pets\n");
    assert_eq!(pets.methods[1].method, "post");
    assert_eq!(pets.methods[1].summary, "");
    assert_eq!(pets.methods[1].description, "Adds a pet\n");
    assert_eq!(pets.description, "Adds a pet\n");
    let empty = &doc.requests[1];
    assert_eq!(empty.title, "/empty");
    assert!(empty.methods.is_empty());
    assert_eq!(empty.description, "");
    assert!(empty.request_headers.is_none());
    assert!(empty.query_parameters.is_none());
    assert!(empty.response_body.is_none());
    assert!(empty.responses.is_empty());
}

#[test]
fn parameters_go_to_their_group() {
    let doc = Documentation::new(&pets_document());
    let pets = &doc.requests[0];
    let query = &pets.query_parameters.as_ref().unwrap().params;
    assert_eq!(query.len(), 2);
    assert_eq!(query[0].field, "page\\_size");
    assert_eq!(query[0].param_type, "integer");
    assert_eq!(query[0].pure_type, "integer");
    assert!(query[0].required);
    assert_eq!(query[0].description, "the \\emph{value}\n");
    assert_eq!(query[0].example, "42");
    assert_eq!(query[1].field, "plain");
    assert_eq!(query[1].param_type, "unknown\\_type");
    assert!(!query[1].required);
    assert_eq!(query[1].description, "");
    assert_eq!(query[1].example, "");
    let headers = &pets.request_headers.as_ref().unwrap().headers;
    assert_eq!(headers.len(), 1);
    assert_eq!(headers[0].field, "X-Trace");
    assert_eq!(headers[0].param_type, "string");
}

#[test]
fn request_body_is_one_field() {
    let doc = Documentation::new(&pets_document());
    let body = &doc.requests[0].response_body.as_ref().unwrap().params;
    assert_eq!(body.len(), 1);
    assert_eq!(body[0].field, "");
    assert_eq!(body[0].param_type, "Pet");
    assert!(body[0].required);
    assert_eq!(body[0].description, "N/A\n");
    assert_eq!(body[0].example, "");
}

#[test]
fn responses_are_filed_by_status() {
    let doc = Documentation::new(&pets_document());
    let responses = &doc.requests[0].responses;
    assert_eq!(responses.len(), 4);
    let ok = &responses[0];
    assert_eq!(ok.status_code, "200");
    assert_eq!(ok.status_string, "Success");
    assert!(!ok.error);
    assert!(ok.application_json);
    assert_eq!(ok.content_type, "application/json");
    assert_eq!(ok.description, "ok\n");
    assert_eq!(ok.params.len(), 1);
    assert_eq!(ok.params[0].field, "");
    assert_eq!(ok.params[0].param_type, "Pet[]");
    assert_eq!(ok.params[0].pure_type, "Pet");
    assert_eq!(ok.params[0].description, "ok\n");
    assert_eq!(ok.params[0].example, "[]");
    assert!(!ok.params[0].required);
    let missing = &responses[1];
    assert_eq!(missing.status_code, "500");
    assert_eq!(missing.status_string, "Internal Server Error");
    assert!(missing.error);
    assert_eq!(missing.params.len(), 1);
    assert_eq!(missing.params[0].param_type, "Problem");
    let broken = &responses[2];
    assert_eq!(broken.status_code, "500");
    assert!(broken.error);
    assert!(!broken.application_json);
    assert_eq!(broken.content_type, "text/plain");
    assert_eq!(broken.description, "broken\n");
    assert!(broken.params.is_empty());
    let forbidden = &responses[3];
    assert_eq!(forbidden.status_code, "403");
    assert_eq!(forbidden.status_string, "Forbidden");
    assert!(forbidden.error);
    assert!(forbidden.application_json);
    assert_eq!(forbidden.content_type, "application/json");
    assert!(forbidden.params.is_empty());
}

#[test]
fn response_field_takes_required_from_the_request_body() {
    let details = mapping(vec![("requestBody", mapping(vec![("required", Node::Boolean(true))]))]);
    let entry = (text("200"), mapping(vec![("description", text("d")), ("schema", typed("string"))]));
    let response = response_of(&entry, &details).unwrap();
    assert_eq!(response.params.len(), 1);
    assert!(response.params[0].required);
    assert_eq!(response.params[0].param_type, "string");
    let entry = (text("200"), mapping(vec![("description", text("d")), ("schema", mapping(vec![]))]));
    let response = response_of(&entry, &details).unwrap();
    assert_eq!(response.params[0].param_type, "unknown type");
    let entry = (
        text("200"),
        mapping(vec![
            ("description", text("d")),
            ("content", mapping(vec![("application/json", mapping(vec![]))])),
        ]),
    );
    let response = response_of(&entry, &Node::Absent).unwrap();
    assert_eq!(response.params[0].param_type, "unkown type");
    assert!(!response.params[0].required);
}

#[test]
fn response_needs_code_and_description() {
    assert!(response_of(&(text("200"), mapping(vec![])), &Node::Absent).is_none());
    let described = mapping(vec![("description", text("d"))]);
    assert!(response_of(&(Node::Integer(200), described), &Node::Absent).is_none());
    let odd_content = Node::Mapping(vec![
        (text("description"), text("d")),
        (text("content"), Node::Mapping(vec![(Node::Integer(1), Node::Other)])),
    ]);
    assert!(response_of(&(text("200"), odd_content), &Node::Absent).is_none());
    let no_content = mapping(vec![("description", text("d")), ("content", mapping(vec![]))]);
    let response = response_of(&(text("200"), no_content), &Node::Absent).unwrap();
    assert_eq!(response.content_type, "application/json");
    assert!(response.params.is_empty());
    assert!(!response.error);
}

#[test]
fn schemas_have_property_fields() {
    let doc = Documentation::new(&pets_document());
    let pet = &doc.schemas[0];
    assert_eq!(pet.name, "Pet");
    assert!(!pet.is_enum);
    assert!(pet.enum_fields.is_empty());
    assert_eq!(pet.fields.len(), 4);
    assert_eq!(pet.fields[0].field, "pet\\_name");
    assert_eq!(pet.fields[0].param_type, "string");
    assert!(pet.fields[0].required);
    assert_eq!(pet.fields[0].description, "the \\emph{name}\n");
    assert_eq!(pet.fields[0].example, "Rex");
    assert_eq!(pet.fields[1].field, "tags");
    assert_eq!(pet.fields[1].param_type, "string[]");
    assert_eq!(pet.fields[1].pure_type, "string");
    assert!(!pet.fields[1].required);
    assert_eq!(pet.fields[1].description, "");
    assert_eq!(pet.fields[2].param_type, "Owner");
    assert_eq!(pet.fields[3].field, "odd");
    assert_eq!(pet.fields[3].param_type, "unknown type");
}

#[test]
fn schema_with_enum_list_is_an_enumeration() {
    let doc = Documentation::new(&pets_document());
    let color = &doc.schemas[1];
    assert_eq!(color.name, "Color");
    assert!(color.is_enum);
    assert!(color.fields.is_empty());
    assert_eq!(color.enum_fields.len(), 2);
    assert_eq!(color.enum_fields[0].field, "DARK\\_RED");
    assert_eq!(color.enum_fields[0].param_type, "");
    assert!(!color.enum_fields[0].required);
    assert_eq!(color.enum_fields[0].description, "");
    assert_eq!(color.enum_fields[1].field, "blue");
    let bare = &doc.schemas[2];
    assert_eq!(bare.name, "Bare");
    assert!(!bare.is_enum);
    assert!(bare.fields.is_empty());
    assert!(bare.enum_fields.is_empty());
    let empty = schema_of(&(text("E"), mapping(vec![("enum", list(vec![]))]))).unwrap();
    assert!(empty.is_enum);
    assert!(empty.fields.is_empty());
    assert!(empty.enum_fields.is_empty());
}

#[test]
fn schema_names_and_lists_must_be_text() {
    assert!(schema_of(&(Node::Integer(1), mapping(vec![]))).is_none());
    let odd_required = mapping(vec![("required", list(vec![Node::Boolean(true)]))]);
    assert!(schema_of(&(text("A"), odd_required)).is_none());
    let odd_enum = mapping(vec![("enum", list(vec![text("a"), Node::Integer(2)]))]);
    assert!(schema_of(&(text("A"), odd_enum)).is_none());
    let odd_property = Node::Mapping(vec![(
        text("properties"),
        Node::Mapping(vec![(Node::Integer(1), Node::Other)]),
    )]);
    assert!(schema_of(&(text("A"), odd_property)).is_none());
    let unread_enum = mapping(vec![
        ("properties", mapping(vec![])),
        ("enum", list(vec![Node::Integer(2)])),
    ]);
    let schema = schema_of(&(text("a.B"), unread_enum)).unwrap();
    assert_eq!(schema.name, "B");
    assert!(!schema.is_enum);
}

#[test]
fn definitions_are_the_fallback_for_schemas() {
    let root = mapping(vec![
        ("info", mapping(vec![("title", text("T"))])),
        ("paths", mapping(vec![])),
        (
            "definitions",
            mapping(vec![(
                "Pet",
                mapping(vec![("properties", mapping(vec![("name", typed("string"))]))]),
            )]),
        ),
    ]);
    let doc = Documentation::new(&root);
    assert_eq!(doc.host, "-");
    assert!(doc.requests.is_empty());
    assert_eq!(doc.schemas.len(), 1);
    assert_eq!(doc.schemas[0].name, "Pet");
    assert_eq!(doc.schemas[0].fields.len(), 1);
    assert_eq!(doc.schemas[0].fields[0].field, "name");
    assert_eq!(doc.schemas[0].fields[0].param_type, "string");
}

#[test]
fn malformed_documents_are_rejected() {
    let good = |title: Node, paths: Node, schemas: Node| {
        mapping(vec![
            ("info", mapping(vec![("title", title)])),
            ("paths", paths),
            ("definitions", schemas),
        ])
    };
    assert!(Documentation::try_new(&good(text("T"), mapping(vec![]), mapping(vec![]))).is_ok());
    assert!(Documentation::try_new(&good(Node::Absent, mapping(vec![]), mapping(vec![]))).is_err());
    assert!(Documentation::try_new(&good(Node::Integer(3), mapping(vec![]), mapping(vec![]))).is_err());
    assert!(Documentation::try_new(&good(text("T"), Node::Absent, mapping(vec![]))).is_err());
    assert!(Documentation::try_new(&good(text("T"), list(vec![]), mapping(vec![]))).is_err());
    assert!(Documentation::try_new(&good(text("T"), mapping(vec![]), Node::Absent)).is_err());
    assert!(Documentation::try_new(&good(text("T"), mapping(vec![]), text("x"))).is_err());
    assert!(Documentation::try_new(&Node::Absent).is_err());
    let undescribed = mapping(vec![(
        "/a",
        mapping(vec![("get", mapping(vec![("responses", mapping(vec![("200", mapping(vec![]))]))]))]),
    )]);
    assert!(Documentation::try_new(&good(text("T"), undescribed, mapping(vec![]))).is_err());
    let failure: MalformedDocument = Documentation::try_new(&Node::Absent).err().unwrap();
    assert_eq!(failure.message(), "Malformed document");
}

#[test]
fn paths_must_be_a_mapping_with_text_keys() {
    assert!(try_get_paths(&Node::Absent).is_err());
    assert!(try_get_paths(&text("x")).is_err());
    assert!(try_get_paths(&Node::Mapping(vec![(Node::Integer(1), Node::Other)])).is_err());
    let odd_verb = Node::Mapping(vec![(
        text("/a"),
        Node::Mapping(vec![(Node::Boolean(true), Node::Other)]),
    )]);
    assert!(try_get_paths(&odd_verb).is_err());
    assert!(request_of(&(Node::Other, Node::Other)).is_none());
    assert!(method_of("/a", &(Node::Other, Node::Other)).is_none());
    let one_path = mapping(vec![("/a", mapping(vec![("get", Node::Other)]))]);
    assert_eq!(try_get_paths(&one_path).unwrap().len(), 1);
    let requests = get_paths(&one_path);
    assert_eq!(requests.len(), 1);
    assert_eq!(requests[0].methods.len(), 1);
    assert_eq!(requests[0].methods[0].method, "get");
    assert_eq!(requests[0].methods[0].description, "");
    assert!(try_get_schemas(&Node::Array(vec![])).is_err());
    assert!(try_get_schemas(&mapping(vec![])).unwrap().is_empty());
}

#[test]
fn servers_may_be_keyed_by_index() {
    let root = Node::Mapping(vec![
        (text("info"), mapping(vec![("title", text("T"))])),
        (
            text("servers"),
            Node::Mapping(vec![(Node::Integer(0), mapping(vec![("url", text("http://h"))]))]),
        ),
        (text("paths"), mapping(vec![])),
        (text("components"), mapping(vec![("schemas", mapping(vec![]))])),
    ]);
    assert_eq!(Documentation::new(&root).host, "http://h");
    assert_eq!(Documentation::try_new(&root).unwrap().host, "http://h");
}

#[test]
fn groups_collect_over_operations() {
    let mut headers = RequestHeader::new();
    let mut queries = QueryParameter::new();
    let details = mapping(vec![(
        "parameters",
        list(vec![
            parameter("a", "header", "string"),
            parameter("b", "query", "string"),
            parameter("c", "cookie", "string"),
            mapping(vec![("name", text("d"))]),
            parameter("e", "header", "string"),
        ]),
    )]);
    collect_operation_parameters(&details, &mut headers, &mut queries);
    collect_operation_parameters(&Node::Absent, &mut headers, &mut queries);
    collect_operation_parameters(&details, &mut headers, &mut queries);
    assert_eq!(headers.headers.len(), 4);
    assert_eq!(queries.params.len(), 2);
    assert_eq!(headers.headers[0].field, "a");
    assert_eq!(headers.headers[1].field, "e");
    assert_eq!(headers.headers[2].field, "a");
    assert_eq!(queries.params[0].field, "b");
    assert_eq!(queries.params[1].field, "b");
    let mut bodies = ResponseBody::new();
    collect_body(&details, &mut bodies);
    assert!(!bodies.required());
    collect_body(&mapping(vec![("requestBody", mapping(vec![("description", text("*b*"))]))]), &mut bodies);
    assert_eq!(bodies.params.len(), 1);
    assert_eq!(bodies.params[0].param_type, "unknown type");
    assert_eq!(bodies.params[0].description, "\\emph{b}\n");
    assert!(!bodies.params[0].required);
    assert!(responses_of_operation(&details).unwrap().is_empty());
    let bad = mapping(vec![("responses", mapping(vec![("200", mapping(vec![]))]))]);
    assert!(responses_of_operation(&bad).is_none());
    let good = mapping(vec![(
        "responses",
        mapping(vec![
            ("400", mapping(vec![("description", text("a"))])),
            ("200", mapping(vec![("description", text("b"))])),
        ]),
    )]);
    let responses = responses_of_operation(&good).unwrap();
    assert_eq!(responses.len(), 2);
    assert_eq!(responses[0].status_string, "Bad Request");
    assert_eq!(responses[1].status_string, "Success");
}

#[test]
fn parameters_of_other_places_are_dropped() {
    let mut headers = RequestHeader::new();
    let mut queries = QueryParameter::new();
    let details = mapping(vec![(
        "parameters",
        list(vec![
            parameter("a", "x-header", "string"),
            parameter("b", "queryheader", "string"),
            parameter("c", "Query", "string"),
            parameter("d", "header ", "string"),
            parameter("e", "", "string"),
            parameter("f", "path", "string"),
            mapping(vec![("name", text("g")), ("in", Node::Boolean(true))]),
        ]),
    )]);
    collect_operation_parameters(&details, &mut headers, &mut queries);
    assert!(!headers.required());
    assert!(!queries.required());
    let request = request_of(&(text("/p"), mapping(vec![("get", details)]))).unwrap();
    assert!(request.request_headers.is_none());
    assert!(request.query_parameters.is_none());
}

#[test]
fn small_readers_fall_back() {
    assert_eq!(text_of_or(&text("a"), "b"), "a");
    assert_eq!(text_of_or(&Node::Boolean(true), "b"), "b");
    assert_eq!(text_of_or(&Node::Absent, ""), "");
    assert!(is_set(&Node::Boolean(true)));
    assert!(!is_set(&Node::Boolean(false)));
    assert!(!is_set(&text("true")));
    assert!(every_node_is_text(&vec![text("a"), text("b")]));
    assert!(every_node_is_text(&vec![]));
    assert!(!every_node_is_text(&vec![text("a"), Node::Other]));
    assert!(is_name_listed(&vec![text("a"), text("b")], "b"));
    assert!(!is_name_listed(&vec![text("a"), Node::Integer(1)], "c"));
}

#[test]
fn swaggerhub_names_are_formed() {
    assert_eq!(
        definition_url_of("me", "pets", "1.0.0"),
        "https://api.swaggerhub.com/apis/me/pets/1.0.0"
    );
    assert_eq!(definition_file_of("1.0.0"), "swagger-1.0.0.yaml");
    assert_eq!(definition_file_of(""), "swagger-.yaml");
}
