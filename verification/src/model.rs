//! The documentation model: what is handed to the renderer.
use crate::text::{contains, contains_text, replace_text, replaced, same_text};
use vstd::prelude::*;
use vstd::string::*;

verus! {

/// The views of the elements of a sequence.
pub open spec fn views<T: View>(s: Seq<T>) -> Seq<T::V> {
    Seq::new(s.len(), |i: int| s[i]@)
}

/// The views of a sequence grow with it.
pub proof fn lemma_views_push<T: View>(s: Seq<T>, x: T)
    ensures
        views(s.push(x)) == views(s).push(x@),
{
}

/// The views of two sequences joined are the views of each, joined.
pub proof fn lemma_views_add<T: View>(a: Seq<T>, b: Seq<T>)
    ensures
        views(a + b) == views(a) + views(b),
{
}

/// A declared type without its container decorations: square brackets,
/// the `Map<string,` prefix and closing angle brackets are removed, in
/// this order.
pub open spec fn pure_type_of(param_type: Seq<char>) -> Seq<char> {
    let none = Seq::<char>::empty();
    replaced(
        replaced(replaced(replaced(param_type, "["@, none), "]"@, none), "Map<string,"@, none),
        ">"@,
        none,
    )
}

/// One parameter, property, body or enum value.
#[derive(Debug)]
pub struct Field {
    pub field: String,
    pub param_type: String,
    pub required: bool,
    pub description: String,
    pub example: String,
    pub pure_type: String,
}

/// What a `Field` holds.
pub struct FieldView {
    pub field: Seq<char>,
    pub param_type: Seq<char>,
    pub required: bool,
    pub description: Seq<char>,
    pub example: Seq<char>,
    pub pure_type: Seq<char>,
}

impl View for Field {
    type V = FieldView;

    open spec fn view(&self) -> FieldView {
        FieldView {
            field: self.field@,
            param_type: self.param_type@,
            required: self.required,
            description: self.description@,
            example: self.example@,
            pure_type: self.pure_type@,
        }
    }
}

/// The field with the given contents; its pure type follows from its
/// declared type.
pub open spec fn field_view(
    field: Seq<char>,
    param_type: Seq<char>,
    required: bool,
    description: Seq<char>,
    example: Seq<char>,
) -> FieldView {
    FieldView {
        field,
        param_type,
        required,
        description,
        example,
        pure_type: pure_type_of(param_type),
    }
}

impl Field {
    pub fn new(
        field: String,
        param_type: String,
        required: bool,
        description: String,
        example: String,
    ) -> (r: Field)
        ensures
            r@ == field_view(field@, param_type@, required, description@, example@),
    {
        proof {
            reveal_strlit("");
        }
        assert(""@ == Seq::<char>::empty());
        let open = replace_text(param_type.as_str(), "[", "");
        let closed = replace_text(open.as_str(), "]", "");
        let unmapped = replace_text(closed.as_str(), "Map<string,", "");
        let pure_type = replace_text(unmapped.as_str(), ">", "");
        Field { field, param_type, required, description, example, pure_type }
    }
}

/// One operation of an endpoint.
#[derive(Debug)]
pub struct Method {
    pub method: String,
    pub path: String,
    pub summary: String,
    pub description: String,
}

/// What a `Method` holds.
pub struct MethodView {
    pub method: Seq<char>,
    pub path: Seq<char>,
    pub summary: Seq<char>,
    pub description: Seq<char>,
}

impl View for Method {
    type V = MethodView;

    open spec fn view(&self) -> MethodView {
        MethodView {
            method: self.method@,
            path: self.path@,
            summary: self.summary@,
            description: self.description@,
        }
    }
}

impl Method {
    pub fn new(method: String, path: String, summary: String, description: String) -> (r: Method)
        ensures
            r@ == (MethodView {
                method: method@,
                path: path@,
                summary: summary@,
                description: description@,
            }),
    {
        Method { method, path, summary, description }
    }
}

/// The header parameters of an endpoint.
#[derive(Debug)]
pub struct RequestHeader {
    pub headers: Vec<Field>,
}

impl View for RequestHeader {
    type V = Seq<FieldView>;

    open spec fn view(&self) -> Seq<FieldView> {
        views(self.headers@)
    }
}

impl RequestHeader {
    pub fn new() -> (r: RequestHeader)
        ensures
            r@ == Seq::<FieldView>::empty(),
    {
        RequestHeader { headers: Vec::new() }
    }

    pub fn add(&mut self, field: Field)
        ensures
            final(self)@ == old(self)@.push(field@),
    {
        self.headers.push(field);
    }

    /// Whether there is a header to show.
    pub fn required(&self) -> (r: bool)
        ensures
            r == (self@.len() > 0),
    {
        self.headers.len() > 0
    }
}

/// The request bodies of an endpoint.
#[derive(Debug)]
pub struct ResponseBody {
    pub params: Vec<Field>,
}

impl View for ResponseBody {
    type V = Seq<FieldView>;

    open spec fn view(&self) -> Seq<FieldView> {
        views(self.params@)
    }
}

impl ResponseBody {
    pub fn new() -> (r: ResponseBody)
        ensures
            r@ == Seq::<FieldView>::empty(),
    {
        ResponseBody { params: Vec::new() }
    }

    pub fn add(&mut self, field: Field)
        ensures
            final(self)@ == old(self)@.push(field@),
    {
        self.params.push(field);
    }

    /// Whether there is a body to show.
    pub fn required(&self) -> (r: bool)
        ensures
            r == (self@.len() > 0),
    {
        self.params.len() > 0
    }
}

/// The query parameters of an endpoint.
#[derive(Debug)]
pub struct QueryParameter {
    pub params: Vec<Field>,
}

impl View for QueryParameter {
    type V = Seq<FieldView>;

    open spec fn view(&self) -> Seq<FieldView> {
        views(self.params@)
    }
}

impl QueryParameter {
    pub fn new() -> (r: QueryParameter)
        ensures
            r@ == Seq::<FieldView>::empty(),
    {
        QueryParameter { params: Vec::new() }
    }

    pub fn add(&mut self, field: Field)
        ensures
            final(self)@ == old(self)@.push(field@),
    {
        self.params.push(field);
    }

    /// Whether there is a query parameter to show.
    pub fn required(&self) -> (r: bool)
        ensures
            r == (self@.len() > 0),
    {
        self.params.len() > 0
    }
}

/// A status code with its phrase.
#[derive(Clone, Copy, Debug)]
pub enum HttpStatus {
    Status(&'static str, &'static str),
}

impl HttpStatus {
    /// The status code.
    pub open spec fn code(self) -> Seq<char> {
        self->0@
    }

    /// The phrase shown for the status.
    pub open spec fn phrase(self) -> Seq<char> {
        self->1@
    }
}

/// The status under which a status code is filed. Every code beside 200,
/// 400 and 403 is filed under 500.
pub open spec fn filed_code(status_code: Seq<char>) -> Seq<char> {
    if status_code == "200"@ {
        "200"@
    } else if status_code == "400"@ {
        "400"@
    } else if status_code == "403"@ {
        "403"@
    } else {
        "500"@
    }
}

/// The phrase of the status under which a status code is filed.
pub open spec fn filed_phrase(status_code: Seq<char>) -> Seq<char> {
    if status_code == "200"@ {
        "Success"@
    } else if status_code == "400"@ {
        "Bad Request"@
    } else if status_code == "403"@ {
        "Forbidden"@
    } else {
        "Internal Server Error"@
    }
}

/// The first status of `table` that has the code `code`.
pub open spec fn status_in(table: Seq<HttpStatus>, code: Seq<char>) -> Option<HttpStatus>
    decreases table.len(),
{
    if table.len() == 0 {
        None
    } else if table[0].code() == code {
        Some(table[0])
    } else {
        status_in(table.skip(1), code)
    }
}

/// The statuses that have a phrase of their own.
pub open spec fn known_statuses() -> Seq<HttpStatus> {
    seq![
        HttpStatus::Status("200", "Success"),
        HttpStatus::Status("400", "Bad Request"),
        HttpStatus::Status("403", "Forbidden"),
    ]
}

/// The table of the statuses that have a phrase of their own.
pub fn status_table() -> (r: Vec<HttpStatus>)
    ensures
        r@ == known_statuses(),
{
    let mut table: Vec<HttpStatus> = Vec::new();
    table.push(HttpStatus::Status("200", "Success"));
    table.push(HttpStatus::Status("400", "Bad Request"));
    table.push(HttpStatus::Status("403", "Forbidden"));
    table
}

/// Looks a status code up in `table`.
pub fn find_status(table: &Vec<HttpStatus>, code: &str) -> (r: Option<HttpStatus>)
    ensures
        r == status_in(table@, code@),
{
    let mut i: usize = 0;
    assert(table@.skip(0) == table@);
    while i < table.len()
        invariant
            i <= table.len(),
            status_in(table@.skip(i as int), code@) == status_in(table@, code@),
        decreases table.len() - i,
    {
        assert(table@.skip(i as int).skip(1) == table@.skip(i + 1));
        match table[i] {
            HttpStatus::Status(listed, _) => {
                if same_text(listed, code) {
                    return Some(table[i]);
                }
            },
        }
        i = i + 1;
    }
    None
}

/// Looks a status code up in the table of known statuses; a code without
/// an entry is filed under 500.
pub fn get_status_string_from_code(status_code: String) -> (r: HttpStatus)
    ensures
        r.code() == filed_code(status_code@),
        r.phrase() == filed_phrase(status_code@),
{
    let table = status_table();
    proof {
        reveal_with_fuel(status_in, 4);
        reveal_strlit("200");
        reveal_strlit("400");
        reveal_strlit("403");
    }
    match find_status(&table, status_code.as_str()) {
        Some(status) => status,
        None => HttpStatus::Status("500", "Internal Server Error"),
    }
}

/// One response of an endpoint.
#[derive(Debug)]
pub struct Response {
    pub params: Vec<Field>,
    pub application_json: bool,
    pub content_type: String,
    pub description: String,
    pub status_code: String,
    pub status_string: String,
    pub error: bool,
}

/// What a `Response` holds.
pub struct ResponseView {
    pub params: Seq<FieldView>,
    pub application_json: bool,
    pub content_type: Seq<char>,
    pub description: Seq<char>,
    pub status_code: Seq<char>,
    pub status_string: Seq<char>,
    pub error: bool,
}

impl View for Response {
    type V = ResponseView;

    open spec fn view(&self) -> ResponseView {
        ResponseView {
            params: views(self.params@),
            application_json: self.application_json,
            content_type: self.content_type@,
            description: self.description@,
            status_code: self.status_code@,
            status_string: self.status_string@,
            error: self.error,
        }
    }
}

/// The response that `Response::new` makes: a successful JSON response
/// without fields or description.
pub open spec fn fresh_response() -> ResponseView {
    ResponseView {
        params: Seq::<FieldView>::empty(),
        application_json: true,
        content_type: "application/json"@,
        description: Seq::<char>::empty(),
        status_code: "200"@,
        status_string: "Success"@,
        error: false,
    }
}

impl Response {
    pub fn new() -> (r: Response)
        ensures
            r@ == fresh_response(),
    {
        let r = Response {
            status_code: String::from_str("200"),
            status_string: String::from_str("Success"),
            params: Vec::new(),
            application_json: true,
            content_type: String::from_str("application/json"),
            description: String::new(),
            error: false,
        };
        assert(r@.params =~= Seq::<FieldView>::empty());
        r
    }

    pub fn add(&mut self, field: Field)
        ensures
            final(self)@ == (ResponseView { params: old(self)@.params.push(field@), ..old(self)@ }),
    {
        self.params.push(field);
        assert(views(self.params@) =~= views(old(self).params@).push(field@));
    }

    /// Whether there is a field to show.
    pub fn required(&self) -> (r: bool)
        ensures
            r == (self@.params.len() > 0),
    {
        self.params.len() > 0
    }

    /// Sets the content type; the response counts as JSON where the
    /// content type holds `application/json`.
    pub fn set_content_type(&mut self, content_type: String)
        ensures
            final(self)@ == (ResponseView {
                content_type: content_type@,
                application_json: contains(content_type@, "application/json"@),
                ..old(self)@
            }),
    {
        self.application_json = contains_text(content_type.as_str(), "application/json");
        self.content_type = content_type;
    }

    pub fn set_description(&mut self, desc: String)
        ensures
            final(self)@ == (ResponseView { description: desc@, ..old(self)@ }),
    {
        self.description = desc;
    }

    /// Files the response under a known status. It is an error response
    /// unless its code is 200.
    pub fn set_status_code(&mut self, code: String)
        ensures
            final(self)@ == (ResponseView {
                status_code: filed_code(code@),
                status_string: filed_phrase(code@),
                error: code@ != "200"@,
                ..old(self)@
            }),
    {
        match get_status_string_from_code(code) {
            HttpStatus::Status(status_code, status_string) => {
                self.status_code = String::from_str(status_code);
                self.status_string = String::from_str(status_string);
            },
        }
        let filed = self.status_code.as_str();
        if same_text(filed, "200") || same_text(filed, "302") {
            self.error = false;
        } else {
            self.error = true;
        }
        proof {
            reveal_strlit("200");
            reveal_strlit("302");
            reveal_strlit("400");
            reveal_strlit("403");
            reveal_strlit("500");
            assert("400"@[0] != "200"@[0]);
            assert("403"@[0] != "200"@[0]);
            assert("500"@[0] != "200"@[0]);
        }
    }
}

/// A named schema: its properties, or the values of an enumeration.
#[derive(Debug)]
pub struct Schema {
    pub name: String,
    pub fields: Vec<Field>,
    pub enum_fields: Vec<Field>,
    pub is_enum: bool,
}

/// What a `Schema` holds.
pub struct SchemaView {
    pub name: Seq<char>,
    pub fields: Seq<FieldView>,
    pub enum_fields: Seq<FieldView>,
    pub is_enum: bool,
}

impl View for Schema {
    type V = SchemaView;

    open spec fn view(&self) -> SchemaView {
        SchemaView {
            name: self.name@,
            fields: views(self.fields@),
            enum_fields: views(self.enum_fields@),
            is_enum: self.is_enum,
        }
    }
}

impl Schema {
    /// A schema is an enumeration where it has enum values.
    pub fn new(name: String, fields: Vec<Field>, enum_fields: Vec<Field>) -> (r: Schema)
        ensures
            r@ == (SchemaView {
                name: name@,
                fields: views(fields@),
                enum_fields: views(enum_fields@),
                is_enum: enum_fields@.len() > 0,
            }),
    {
        let is_enum = enum_fields.len() > 0;
        Schema { name, fields, enum_fields, is_enum }
    }
}

/// One path of the API with all that is documented for it.
#[derive(Debug)]
pub struct Request {
    pub title: String,
    pub methods: Vec<Method>,
    pub description: String,
    pub request_headers: Option<RequestHeader>,
    pub query_parameters: Option<QueryParameter>,
    pub response_body: Option<ResponseBody>,
    pub responses: Vec<Response>,
}

/// What a `Request` holds.
pub struct RequestView {
    pub title: Seq<char>,
    pub methods: Seq<MethodView>,
    pub description: Seq<char>,
    pub request_headers: Option<Seq<FieldView>>,
    pub query_parameters: Option<Seq<FieldView>>,
    pub response_body: Option<Seq<FieldView>>,
    pub responses: Seq<ResponseView>,
}

/// The view of an optional group of fields.
pub open spec fn group_view<T: View>(group: Option<T>) -> Option<T::V> {
    match group {
        Some(g) => Some(g@),
        None => None,
    }
}

impl View for Request {
    type V = RequestView;

    open spec fn view(&self) -> RequestView {
        RequestView {
            title: self.title@,
            methods: views(self.methods@),
            description: self.description@,
            request_headers: group_view(self.request_headers),
            query_parameters: group_view(self.query_parameters),
            response_body: group_view(self.response_body),
            responses: views(self.responses@),
        }
    }
}

impl Request {
    pub fn new(
        title: String,
        methods: Vec<Method>,
        description: String,
        request_headers: Option<RequestHeader>,
        query_parameters: Option<QueryParameter>,
        response_body: Option<ResponseBody>,
        responses: Vec<Response>,
    ) -> (r: Request)
        ensures
            r@ == (RequestView {
                title: title@,
                methods: views(methods@),
                description: description@,
                request_headers: group_view(request_headers),
                query_parameters: group_view(query_parameters),
                response_body: group_view(response_body),
                responses: views(responses@),
            }),
    {
        Request {
            title,
            methods,
            description,
            request_headers,
            query_parameters,
            response_body,
            responses,
        }
    }
}

/// The whole documentation of one API.
#[derive(Debug)]
pub struct Documentation {
    pub title: String,
    pub host: String,
    pub base_url: String,
    pub requests: Vec<Request>,
    pub schemas: Vec<Schema>,
}

/// What a `Documentation` holds.
pub struct DocumentationView {
    pub title: Seq<char>,
    pub host: Seq<char>,
    pub base_url: Seq<char>,
    pub requests: Seq<RequestView>,
    pub schemas: Seq<SchemaView>,
}

impl View for Documentation {
    type V = DocumentationView;

    open spec fn view(&self) -> DocumentationView {
        DocumentationView {
            title: self.title@,
            host: self.host@,
            base_url: self.base_url@,
            requests: views(self.requests@),
            schemas: views(self.schemas@),
        }
    }
}

} // verus!
