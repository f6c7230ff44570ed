//! The builder of the documentation model: endpoints and their parts.
use crate::markdown::{markdown_markup, markdown_to_latex};
use crate::model::{
    field_view, filed_code, filed_phrase, fresh_response, lemma_views_add, lemma_views_push,
    views, Field, FieldView, Method, MethodView, QueryParameter, Request, RequestHeader,
    RequestView, Response, ResponseBody, ResponseView,
};
use crate::node::Node;
use crate::text::{contains, replace_text, replaced, same_text, text_of};
use crate::types::{get_type_name, parameter_type};
use vstd::prelude::*;
use vstd::string::*;

verus! {

/// The failure of the builder: the document lacks something that every
/// API description has.
#[derive(Debug, Clone, Copy)]
pub struct MalformedDocument {}

impl MalformedDocument {
    /// The text shown for this failure.
    pub fn message(&self) -> (r: String)
        ensures
            r@ == "Malformed document"@,
    {
        String::from_str("Malformed document")
    }
}

/// The text of `node`, or `fallback` where it is no text.
pub open spec fn text_or(node: Node, fallback: Seq<char>) -> Seq<char> {
    match node.text() {
        Some(t) => t,
        None => fallback,
    }
}

/// Whether `node` is the boolean `true`.
pub open spec fn is_true(node: Node) -> bool {
    node.flag() == Some(true)
}

/// A name with its underscores escaped for LaTeX.
pub open spec fn escaped(name: Seq<char>) -> Seq<char> {
    replaced(name, "_"@, "\\_"@)
}

/// The type of a parameter-style node, or `placeholder` where the node
/// declares none.
pub open spec fn parameter_type_or(node: Node, placeholder: Seq<char>) -> Seq<char> {
    match parameter_type(node) {
        Some(t) => t,
        None => placeholder,
    }
}

/// The field that documents one parameter.
pub open spec fn parameter_field(entry: Node) -> FieldView {
    field_view(
        escaped(text_or(entry.child("name"@), Seq::<char>::empty())),
        parameter_type_or(entry, "unknown\\_type"@),
        is_true(entry.child("required"@)),
        markdown_markup(text_or(entry.child("description"@), Seq::<char>::empty())),
        text_or(entry.child("example"@), Seq::<char>::empty()),
    )
}

/// Whether a parameter is sent in the query: its `in` is `query`.
pub open spec fn is_query(entry: Node) -> bool {
    entry.child("in"@).text() == Some("query"@)
}

/// Whether a parameter is sent as a header: its `in` is `header`.
pub open spec fn is_header(entry: Node) -> bool {
    entry.child("in"@).text() == Some("header"@)
}

/// The fields of the query parameters among `entries`, in order.
pub open spec fn query_fields(entries: Seq<Node>) -> Seq<FieldView>
    decreases entries.len(),
{
    if entries.len() == 0 {
        Seq::<FieldView>::empty()
    } else {
        let before = query_fields(entries.drop_last());
        if is_query(entries.last()) {
            before.push(parameter_field(entries.last()))
        } else {
            before
        }
    }
}

/// The fields of the header parameters among `entries`, in order.
pub open spec fn header_fields(entries: Seq<Node>) -> Seq<FieldView>
    decreases entries.len(),
{
    if entries.len() == 0 {
        Seq::<FieldView>::empty()
    } else {
        let before = header_fields(entries.drop_last());
        if is_header(entries.last()) {
            before.push(parameter_field(entries.last()))
        } else {
            before
        }
    }
}

/// The declared parameters of an operation.
pub open spec fn parameters_of(details: Node) -> Seq<Node> {
    match details.child("parameters"@).items() {
        Some(list) => list,
        None => Seq::<Node>::empty(),
    }
}

/// The fields of the request body of an operation: one where a request
/// body is declared, none otherwise.
pub open spec fn body_fields(details: Node) -> Seq<FieldView> {
    let body = details.child("requestBody"@);
    if body is Mapping {
        seq![
            field_view(
                Seq::<char>::empty(),
                parameter_type_or(
                    body.child("content"@).child("application/json"@),
                    "unknown type"@,
                ),
                is_true(body.child("required"@)),
                markdown_markup(text_or(body.child("description"@), "N/A"@)),
                text_or(body.child("example"@), Seq::<char>::empty()),
            ),
        ]
    } else {
        Seq::<FieldView>::empty()
    }
}

/// The type of the body of a response: that of its JSON content where it
/// has one, else that of its own `schema`; `None` where it has neither.
pub open spec fn response_type(node: Node) -> Option<Seq<char>> {
    let json = node.child("content"@).child("application/json"@);
    if !(json is Absent) {
        Some(parameter_type_or(json, "unkown type"@))
    } else if !(node.child("schema"@) is Absent) {
        Some(parameter_type_or(node, "unknown type"@))
    } else {
        None
    }
}

/// The first content type that a response declares, as a node.
pub open spec fn first_content_key(node: Node) -> Option<Node> {
    match node.child("content"@).entries() {
        Some(kinds) => if kinds.len() > 0 {
            Some(kinds[0].0)
        } else {
            None
        },
        None => None,
    }
}

/// Whether a response, given as a pair of status code and node, has what
/// is needed of it: the code is text, it has a text `description`, and
/// where neither JSON content nor a schema gives its type, the first
/// content type it declares is text.
pub open spec fn response_ok(entry: (Node, Node)) -> bool {
    &&& entry.0.text() is Some
    &&& entry.1.child("description"@).text() is Some
    &&& response_type(entry.1) is None ==> match first_content_key(entry.1) {
        Some(kind) => kind.text() is Some,
        None => true,
    }
}

/// The response that documents the pair `entry` of the operation
/// `details`. A response with a type has one field for its body. A
/// response without one has no field and takes the first content type
/// that it declares.
pub open spec fn response_view(entry: (Node, Node), details: Node) -> ResponseView {
    let code = entry.0.text().unwrap();
    let node = entry.1;
    let description = markdown_markup(node.child("description"@).text().unwrap());
    let filed = ResponseView {
        description,
        status_code: filed_code(code),
        status_string: filed_phrase(code),
        error: code != "200"@,
        ..fresh_response()
    };
    match response_type(node) {
        Some(shown) => ResponseView {
            params: seq![
                field_view(
                    Seq::<char>::empty(),
                    shown,
                    is_true(details.child("requestBody"@).child("required"@)),
                    description,
                    text_or(node.child("example"@), Seq::<char>::empty()),
                ),
            ],
            ..filed
        },
        None => match first_content_key(node) {
            Some(kind) => ResponseView {
                content_type: kind.text().unwrap(),
                application_json: contains(kind.text().unwrap(), "application/json"@),
                ..filed
            },
            None => filed,
        },
    }
}

/// The declared responses of an operation, as pairs of status code and
/// node.
pub open spec fn responses_in(details: Node) -> Seq<(Node, Node)> {
    match details.child("responses"@).entries() {
        Some(pairs) => pairs,
        None => Seq::<(Node, Node)>::empty(),
    }
}

/// The responses of an operation.
pub open spec fn responses_of(details: Node) -> Seq<ResponseView> {
    Seq::new(
        responses_in(details).len(),
        |i: int| response_view(responses_in(details)[i], details),
    )
}

/// Whether every declared response of an operation is in order.
pub open spec fn responses_ok(details: Node) -> bool {
    forall|i: int|
        0 <= i < responses_in(details).len() ==> response_ok(#[trigger] responses_in(details)[i])
}

/// Whether an operation, given as a pair of verb and node, has what is
/// needed of it: the verb is text and each response is in order.
pub open spec fn operation_ok(operation: (Node, Node)) -> bool {
    &&& operation.0.text() is Some
    &&& responses_ok(operation.1)
}

/// The method that documents the operation `operation` of `path`.
pub open spec fn method_view(path: Seq<char>, operation: (Node, Node)) -> MethodView {
    MethodView {
        method: operation.0.text().unwrap(),
        path,
        summary: text_or(operation.1.child("summary"@), Seq::<char>::empty()),
        description: markdown_markup(
            text_or(operation.1.child("description"@), Seq::<char>::empty()),
        ),
    }
}

/// The header fields of all of `operations`.
pub open spec fn all_headers(operations: Seq<(Node, Node)>) -> Seq<FieldView>
    decreases operations.len(),
{
    if operations.len() == 0 {
        Seq::<FieldView>::empty()
    } else {
        all_headers(operations.drop_last()) + header_fields(parameters_of(operations.last().1))
    }
}

/// The query fields of all of `operations`.
pub open spec fn all_queries(operations: Seq<(Node, Node)>) -> Seq<FieldView>
    decreases operations.len(),
{
    if operations.len() == 0 {
        Seq::<FieldView>::empty()
    } else {
        all_queries(operations.drop_last()) + query_fields(parameters_of(operations.last().1))
    }
}

/// The body fields of all of `operations`.
pub open spec fn all_bodies(operations: Seq<(Node, Node)>) -> Seq<FieldView>
    decreases operations.len(),
{
    if operations.len() == 0 {
        Seq::<FieldView>::empty()
    } else {
        all_bodies(operations.drop_last()) + body_fields(operations.last().1)
    }
}

/// The responses of all of `operations`.
pub open spec fn all_responses(operations: Seq<(Node, Node)>) -> Seq<ResponseView>
    decreases operations.len(),
{
    if operations.len() == 0 {
        Seq::<ResponseView>::empty()
    } else {
        all_responses(operations.drop_last()) + responses_of(operations.last().1)
    }
}

/// The operations of a path, as pairs of verb and node.
pub open spec fn operations_in(item: Node) -> Seq<(Node, Node)> {
    match item.entries() {
        Some(pairs) => pairs,
        None => Seq::<(Node, Node)>::empty(),
    }
}

/// A group of fields, or nothing where there is no field.
pub open spec fn group_of(fields: Seq<FieldView>) -> Option<Seq<FieldView>> {
    if fields.len() > 0 {
        Some(fields)
    } else {
        None
    }
}

/// Whether a path, given as a pair of path and node, has what is needed
/// of it: the path is text and each operation is in order.
pub open spec fn path_ok(entry: (Node, Node)) -> bool {
    &&& entry.0.text() is Some
    &&& forall|i: int|
        0 <= i < operations_in(entry.1).len() ==> operation_ok(
            #[trigger] operations_in(entry.1)[i],
        )
}

/// The endpoint that documents one path: its operations in order, the
/// description of the last of them, and the parameters, bodies and
/// responses of all of them together.
pub open spec fn request_view(entry: (Node, Node)) -> RequestView {
    let path = entry.0.text().unwrap();
    let operations = operations_in(entry.1);
    RequestView {
        title: path,
        methods: Seq::new(operations.len(), |i: int| method_view(path, operations[i])),
        description: if operations.len() > 0 {
            method_view(path, operations.last()).description
        } else {
            Seq::<char>::empty()
        },
        request_headers: group_of(all_headers(operations)),
        query_parameters: group_of(all_queries(operations)),
        response_body: group_of(all_bodies(operations)),
        responses: all_responses(operations),
    }
}

/// Whether `paths` is a mapping of paths that are all in order.
pub open spec fn paths_ok(paths: Node) -> bool {
    match paths.entries() {
        Some(pairs) => forall|i: int| 0 <= i < pairs.len() ==> path_ok(#[trigger] pairs[i]),
        None => false,
    }
}

/// The endpoints of a mapping of paths, in document order.
pub open spec fn requests_of(paths: Node) -> Seq<RequestView> {
    let pairs = paths.entries().unwrap();
    Seq::new(pairs.len(), |i: int| request_view(pairs[i]))
}

/// The text of `node`, or `fallback` where it is no text.
pub fn text_of_or(node: &Node, fallback: &str) -> (r: String)
    ensures
        r@ == text_or(*node, fallback@),
{
    match node.as_str() {
        Some(t) => String::from_str(t),
        None => String::from_str(fallback),
    }
}

/// Whether `node` is the boolean `true`.
pub fn is_set(node: &Node) -> (r: bool)
    ensures
        r == is_true(*node),
{
    match node.as_bool() {
        Some(b) => b,
        None => false,
    }
}

fn type_name_or(node: &Node, placeholder: &str) -> (r: String)
    ensures
        r@ == parameter_type_or(*node, placeholder@),
{
    match get_type_name(node) {
        Ok(name) => name,
        Err(_) => String::from_str(placeholder),
    }
}

fn empty_text() -> (r: String)
    ensures
        r@ == Seq::<char>::empty(),
{
    String::new()
}

fn field_of_parameter(entry: &Node) -> (r: Field)
    ensures
        r@ == parameter_field(*entry),
{
    proof {
        reveal_strlit("");
    }
    assert(""@ == Seq::<char>::empty());
    let name = text_of_or(entry.get("name"), "");
    let description = text_of_or(entry.get("description"), "");
    Field::new(
        replace_text(name.as_str(), "_", "\\_"),
        type_name_or(entry, "unknown\\_type"),
        is_set(entry.get("required")),
        markdown_to_latex(description.as_str()),
        text_of_or(entry.get("example"), ""),
    )
}

/// Sorts the parameters in `list` into the header and the query group by
/// their place; a parameter of any other place is dropped.
pub fn collect_parameters(
    list: &Vec<Node>,
    headers: &mut RequestHeader,
    queries: &mut QueryParameter,
)
    ensures
        final(headers)@ == old(headers)@ + header_fields(list@),
        final(queries)@ == old(queries)@ + query_fields(list@),
{
    let ghost headers_before = headers@;
    let ghost queries_before = queries@;
    let mut k: usize = 0;
    while k < list.len()
        invariant
            k <= list.len(),
            headers@ == headers_before + header_fields(list@.take(k as int)),
            queries@ == queries_before + query_fields(list@.take(k as int)),
        decreases list.len() - k,
    {
        assert(list@.take(k + 1).drop_last() == list@.take(k as int));
        let entry = &list[k];
        let field = field_of_parameter(entry);
        match entry.get("in").as_str() {
            Some(place) => {
                proof {
                    reveal_strlit("query");
                    reveal_strlit("header");
                    assert("query"@.len() != "header"@.len());
                }
                if same_text(place, "query") {
                    queries.add(field);
                } else if same_text(place, "header") {
                    headers.add(field);
                }
            },
            None => {},
        }
        k = k + 1;
    }
    assert(list@.take(list.len() as int) == list@);
}

/// Sorts the declared parameters of an operation into the header and the
/// query group.
pub fn collect_operation_parameters(
    details: &Node,
    headers: &mut RequestHeader,
    queries: &mut QueryParameter,
)
    ensures
        final(headers)@ == old(headers)@ + header_fields(parameters_of(*details)),
        final(queries)@ == old(queries)@ + query_fields(parameters_of(*details)),
{
    match details.get("parameters").as_items() {
        Some(list) => {
            collect_parameters(list, headers, queries);
        },
        None => {
        },
    }
}

/// Adds the field of the request body of an operation, where it declares
/// one.
pub fn collect_body(details: &Node, bodies: &mut ResponseBody)
    ensures
        final(bodies)@ == old(bodies)@ + body_fields(*details),
{
    proof {
        reveal_strlit("");
    }
    assert(""@ == Seq::<char>::empty());
    let body = details.get("requestBody");
    match body.as_entries() {
        Some(_) => {
            let description = text_of_or(body.get("description"), "N/A");
            let field = Field::new(
                empty_text(),
                type_name_or(body.get("content").get("application/json"), "unknown type"),
                is_set(body.get("required")),
                markdown_to_latex(description.as_str()),
                text_of_or(body.get("example"), ""),
            );
            bodies.add(field);
        },
        None => {
        },
    }
}

fn type_of_response(node: &Node) -> (r: Option<String>)
    ensures
        text_of(r) == response_type(*node),
{
    let json = node.get("content").get("application/json");
    if !json.is_absent() {
        Some(type_name_or(json, "unkown type"))
    } else if !node.get("schema").is_absent() {
        Some(type_name_or(node, "unknown type"))
    } else {
        None
    }
}

/// Builds the response that documents one declared response of the
/// operation `details`; `None` where the response lacks something.
pub fn response_of(entry: &(Node, Node), details: &Node) -> (r: Option<Response>)
    ensures
        match r {
            Some(response) => response_ok(*entry) && response@ == response_view(*entry, *details),
            None => !response_ok(*entry),
        },
{
    proof {
        reveal_strlit("");
    }
    assert(""@ == Seq::<char>::empty());
    let code = match entry.0.as_str() {
        Some(code) => code,
        None => {
            return None;
        },
    };
    let node = &entry.1;
    let raw = match node.get("description").as_str() {
        Some(raw) => raw,
        None => {
            return None;
        },
    };
    let mut response = Response::new();
    let shown = type_of_response(node);
    if shown.is_none() {
        match node.get("content").as_entries() {
            Some(kinds) => {
                if kinds.len() > 0 {
                    match kinds[0].0.as_str() {
                        Some(kind) => {
                            response.set_content_type(String::from_str(kind));
                        },
                        None => {
                            return None;
                        },
                    }
                }
            },
            None => {},
        }
    }
    let description = markdown_to_latex(raw);
    response.set_description(description.clone());
    response.set_status_code(String::from_str(code));
    match shown {
        Some(name) => {
            let field = Field::new(
                empty_text(),
                name,
                is_set(details.get("requestBody").get("required")),
                description,
                text_of_or(node.get("example"), ""),
            );
            response.add(field);
        },
        None => {},
    }
    Some(response)
}

/// Builds the responses of an operation, in document order; `None` where
/// one of them lacks something.
pub fn responses_of_operation(details: &Node) -> (r: Option<Vec<Response>>)
    ensures
        match r {
            Some(responses) => responses_ok(*details) && views(responses@) == responses_of(
                *details,
            ),
            None => !responses_ok(*details),
        },
{
    let mut responses: Vec<Response> = Vec::new();
    match details.get("responses").as_entries() {
        Some(pairs) => {
            let mut k: usize = 0;
            while k < pairs.len()
                invariant
                    k <= pairs.len(),
                    responses_in(*details) == pairs@,
                    forall|i: int| 0 <= i < k ==> response_ok(#[trigger] pairs@[i]),
                    responses.len() == k,
                    views(responses@) == responses_of(*details).take(k as int),
                decreases pairs.len() - k,
            {
                match response_of(&pairs[k], details) {
                    Some(response) => {
                        proof {
                            lemma_views_push(responses@, response);
                        }
                        responses.push(response);
                    },
                    None => {
                        return None;
                    },
                }
                k = k + 1;
            }
        },
        None => {
        },
    }
    Some(responses)
}

/// Builds the method that documents one operation of `path`; `None`
/// where its verb is no text.
pub fn method_of(path: &str, operation: &(Node, Node)) -> (r: Option<Method>)
    ensures
        match r {
            Some(method) => operation.0.text() is Some && method@ == method_view(
                path@,
                *operation,
            ),
            None => operation.0.text() is None,
        },
{
    proof {
        reveal_strlit("");
    }
    assert(""@ == Seq::<char>::empty());
    match operation.0.as_str() {
        Some(verb) => {
            let description = text_of_or(operation.1.get("description"), "");
            Some(
                Method::new(
                    String::from_str(verb),
                    String::from_str(path),
                    text_of_or(operation.1.get("summary"), ""),
                    markdown_to_latex(description.as_str()),
                ),
            )
        },
        None => None,
    }
}

/// Builds the endpoint that documents one path; `None` where the path or
/// one of its operations lacks something.
pub fn request_of(entry: &(Node, Node)) -> (r: Option<Request>)
    ensures
        match r {
            Some(request) => path_ok(*entry) && request@ == request_view(*entry),
            None => !path_ok(*entry),
        },
{
    let path = match entry.0.as_str() {
        Some(path) => path,
        None => {
            return None;
        },
    };
    let mut headers = RequestHeader::new();
    let mut queries = QueryParameter::new();
    let mut bodies = ResponseBody::new();
    let mut responses: Vec<Response> = Vec::new();
    let mut description = String::new();
    let mut methods: Vec<Method> = Vec::new();
    let ghost operations = operations_in(entry.1);
    match entry.1.as_entries() {
        Some(pairs) => {
            let mut k: usize = 0;
            while k < pairs.len()
                invariant
                    k <= pairs.len(),
                    operations == pairs@,
                    operations == operations_in(entry.1),
                    entry.0.text() == Some(path@),
                    forall|i: int| 0 <= i < k ==> operation_ok(#[trigger] operations[i]),
                    methods.len() == k,
                    views(methods@) == Seq::new(
                        k as nat,
                        |i: int| method_view(path@, operations[i]),
                    ),
                    description@ == if k > 0 {
                        method_view(path@, operations[k - 1]).description
                    } else {
                        Seq::<char>::empty()
                    },
                    headers@ == all_headers(operations.take(k as int)),
                    queries@ == all_queries(operations.take(k as int)),
                    bodies@ == all_bodies(operations.take(k as int)),
                    views(responses@) == all_responses(operations.take(k as int)),
                decreases pairs.len() - k,
            {
                assert(operations.take(k + 1).drop_last() == operations.take(k as int));
                let operation = &pairs[k];
                let details = &operation.1;
                match method_of(path, operation) {
                    Some(method) => {
                        description = method.description.clone();
                        proof {
                            lemma_views_push(methods@, method);
                        }
                        methods.push(method);
                    },
                    None => {
                        return None;
                    },
                }
                collect_operation_parameters(details, &mut headers, &mut queries);
                collect_body(details, &mut bodies);
                match responses_of_operation(details) {
                    Some(mut found) => {
                        proof {
                            lemma_views_add(responses@, found@);
                        }
                        responses.append(&mut found);
                    },
                    None => {
                        return None;
                    },
                }
                k = k + 1;
            }
            assert(operations.take(pairs.len() as int) == operations);
        },
        None => {
            assert(views(methods@) =~= Seq::new(0, |i: int| method_view(path@, operations[i])));
            assert(views(responses@) =~= all_responses(operations));
        },
    }
    let request_headers = if headers.required() {
        Some(headers)
    } else {
        None
    };
    let query_parameters = if queries.required() {
        Some(queries)
    } else {
        None
    };
    let response_body = if bodies.required() {
        Some(bodies)
    } else {
        None
    };
    Some(
        Request::new(
            String::from_str(path),
            methods,
            description,
            request_headers,
            query_parameters,
            response_body,
            responses,
        ),
    )
}

/// Builds the endpoints of the API from the mapping of its paths, in
/// document order. Fails exactly where `paths` is no mapping or one of
/// the paths lacks something.
pub fn try_get_paths(paths: &Node) -> (r: Result<Vec<Request>, MalformedDocument>)
    ensures
        match r {
            Ok(requests) => paths_ok(*paths) && views(requests@) == requests_of(*paths),
            Err(_) => !paths_ok(*paths),
        },
{
    match paths.as_entries() {
        Some(pairs) => {
            let mut result: Vec<Request> = Vec::new();
            let mut k: usize = 0;
            while k < pairs.len()
                invariant
                    k <= pairs.len(),
                    paths.entries() == Some(pairs@),
                    forall|i: int| 0 <= i < k ==> path_ok(#[trigger] pairs@[i]),
                    result.len() == k,
                    views(result@) == Seq::new(k as nat, |i: int| request_view(pairs@[i])),
                decreases pairs.len() - k,
            {
                match request_of(&pairs[k]) {
                    Some(request) => {
                        proof {
                            lemma_views_push(result@, request);
                        }
                        result.push(request);
                    },
                    None => {
                        assert(!path_ok(paths.entries().unwrap()[k as int]));
                        return Err(MalformedDocument {  });
                    },
                }
                k = k + 1;
            }
            Ok(result)
        },
        None => Err(MalformedDocument {  }),
    }
}

/// Builds the endpoints of the API from the mapping of its paths, in
/// document order. `paths` has to be a mapping of paths that are all in
/// order; `try_get_paths` tells whether it is.
pub fn get_paths(paths: &Node) -> (r: Vec<Request>)
    requires
        paths_ok(*paths),
    ensures
        views(r@) == requests_of(*paths),
{
    try_get_paths(paths).unwrap()
}

} // verus!
