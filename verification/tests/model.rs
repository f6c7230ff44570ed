use rusty_swagger::model::{
    find_status, get_status_string_from_code, status_table, Field, HttpStatus, Method, QueryParameter, Request,
    RequestHeader, Response, ResponseBody, Schema,
};

fn field(name: &str, param_type: &str) -> Field {
    Field::new(name.to_string(), param_type.to_string(), false, String::new(), String::new())
}

#[test]
fn field_pure_type_drops_decorations() {
    assert_eq!(field("a", "Pet[]").pure_type, "Pet");
    assert_eq!(field("a", "Map<string,Pet>").pure_type, "Pet");
    assert_eq!(field("a", "Map<string,Pet[]>").pure_type, "Pet");
    assert_eq!(field("a", "string").pure_type, "string");
    assert_eq!(field("a", "").pure_type, "");
    let f = Field::new("n".to_string(), "T[]".to_string(), true, "d".to_string(), "e".to_string());
    assert_eq!(f.field, "n");
    assert_eq!(f.param_type, "T[]");
    assert!(f.required);
    assert_eq!(f.description, "d");
    assert_eq!(f.example, "e");
}

#[test]
fn status_table_knows_three_codes() {
    let HttpStatus::Status(code, phrase) = get_status_string_from_code("200".to_string());
    assert_eq!((code, phrase), ("200", "Success"));
    let HttpStatus::Status(code, phrase) = get_status_string_from_code("400".to_string());
    assert_eq!((code, phrase), ("400", "Bad Request"));
    let HttpStatus::Status(code, phrase) = get_status_string_from_code("403".to_string());
    assert_eq!((code, phrase), ("403", "Forbidden"));
    let HttpStatus::Status(code, phrase) = get_status_string_from_code("404".to_string());
    assert_eq!((code, phrase), ("500", "Internal Server Error"));
    let HttpStatus::Status(code, phrase) = get_status_string_from_code("".to_string());
    assert_eq!((code, phrase), ("500", "Internal Server Error"));
}

#[test]
fn status_lookup_takes_the_first_entry() {
    let table = status_table();
    assert_eq!(table.len(), 3);
    let HttpStatus::Status(code, phrase) = find_status(&table, "403").unwrap();
    assert_eq!((code, phrase), ("403", "Forbidden"));
    assert!(find_status(&table, "500").is_none());
    assert!(find_status(&table, "").is_none());
    assert!(find_status(&Vec::new(), "200").is_none());
    let own = vec![
        HttpStatus::Status("404", "Not Found"),
        HttpStatus::Status("404", "Gone"),
        HttpStatus::Status("200", "Fine"),
    ];
    let HttpStatus::Status(code, phrase) = find_status(&own, "404").unwrap();
    assert_eq!((code, phrase), ("404", "Not Found"));
    let HttpStatus::Status(_, phrase) = find_status(&own, "200").unwrap();
    assert_eq!(phrase, "Fine");
}

#[test]
fn new_response_is_a_successful_json_response() {
    let r = Response::new();
    assert_eq!(r.status_code, "200");
    assert_eq!(r.status_string, "Success");
    assert!(r.params.is_empty());
    assert!(r.application_json);
    assert_eq!(r.content_type, "application/json");
    assert_eq!(r.description, "");
    assert!(!r.error);
    assert!(!r.required());
}

#[test]
fn only_status_200_is_no_error() {
    let mut r = Response::new();
    r.set_status_code("404".to_string());
    assert!(r.error);
    assert_eq!(r.status_code, "500");
    assert_eq!(r.status_string, "Internal Server Error");
    r.set_status_code("200".to_string());
    assert!(!r.error);
    assert_eq!(r.status_code, "200");
    assert_eq!(r.status_string, "Success");
    for code in ["302", "400", "403", "500", "201", "", "2000"] {
        let mut r = Response::new();
        r.set_status_code(code.to_string());
        assert!(r.error);
    }
    let mut r = Response::new();
    r.set_status_code("403".to_string());
    assert_eq!(r.status_code, "403");
    assert_eq!(r.status_string, "Forbidden");
}

#[test]
fn response_setters_change_one_thing() {
    let mut r = Response::new();
    r.set_content_type("text/plain".to_string());
    assert!(!r.application_json);
    assert_eq!(r.content_type, "text/plain");
    r.set_content_type("application/json; charset=utf-8".to_string());
    assert!(r.application_json);
    r.set_description("desc".to_string());
    assert_eq!(r.description, "desc");
    r.add(field("a", "b"));
    assert!(r.required());
    assert_eq!(r.params.len(), 1);
    assert_eq!(r.status_code, "200");
    assert!(!r.error);
}

#[test]
fn groups_collect_fields_in_order() {
    let mut headers = RequestHeader::new();
    assert!(!headers.required());
    headers.add(field("a", "x"));
    headers.add(field("b", "y"));
    assert!(headers.required());
    assert_eq!(headers.headers[0].field, "a");
    assert_eq!(headers.headers[1].field, "b");
    let mut query = QueryParameter::new();
    assert!(!query.required());
    query.add(field("q", "x"));
    assert!(query.required());
    assert_eq!(query.params[0].field, "q");
    let mut body = ResponseBody::new();
    assert!(!body.required());
    body.add(field("", "Pet"));
    assert!(body.required());
    assert_eq!(body.params[0].param_type, "Pet");
}

#[test]
fn schema_with_enum_values_is_an_enum() {
    let s = Schema::new("Color".to_string(), vec![], vec![field("RED", "")]);
    assert!(s.is_enum);
    assert!(s.fields.is_empty());
    assert_eq!(s.enum_fields.len(), 1);
    let s = Schema::new("Pet".to_string(), vec![field("name", "string")], vec![]);
    assert!(!s.is_enum);
    assert_eq!(s.name, "Pet");
    assert_eq!(s.fields.len(), 1);
}

#[test]
fn request_and_method_keep_their_parts() {
    let m = Method::new("get".to_string(), "/pets".to_string(), "s".to_string(), "d".to_string());
    assert_eq!(m.method, "get");
    assert_eq!(m.path, "/pets");
    assert_eq!(m.summary, "s");
    assert_eq!(m.description, "d");
    let r = Request::new(
        "/pets".to_string(),
        vec![m],
        "d".to_string(),
        None,
        Some(QueryParameter::new()),
        None,
        vec![Response::new()],
    );
    assert_eq!(r.title, "/pets");
    assert_eq!(r.methods.len(), 1);
    assert_eq!(r.description, "d");
    assert!(r.request_headers.is_none());
    assert!(r.query_parameters.is_some());
    assert!(r.response_body.is_none());
    assert_eq!(r.responses.len(), 1);
}
