//! The builder of the documentation model: schemas and the document root.
use crate::builder::{
    escaped, paths_ok, requests_of, text_of_or, text_or, try_get_paths, MalformedDocument,
};
use crate::markdown::{markdown_markup, markdown_to_latex};
use crate::model::{
    field_view, lemma_views_push, views, Documentation, DocumentationView, Field, FieldView,
    Schema, SchemaView,
};
use crate::names::{shorten_type_name, shortened};
use crate::node::Node;
use crate::text::{replace_text, same_text};
use crate::types::{get_type_name_without_schema, property_type};
use vstd::prelude::*;
use vstd::string::*;

verus! {

/// The entries of the `required` list of a schema.
pub open spec fn required_names(schema: Node) -> Seq<Node> {
    match schema.child("required"@).items() {
        Some(list) => list,
        None => Seq::<Node>::empty(),
    }
}

/// Whether every node of `list` is a text.
pub open spec fn all_text(list: Seq<Node>) -> bool {
    forall|i: int| 0 <= i < list.len() ==> (#[trigger] list[i]).text() is Some
}

/// Whether every key of `pairs` is a text.
pub open spec fn all_keys_text(pairs: Seq<(Node, Node)>) -> bool {
    forall|i: int| 0 <= i < pairs.len() ==> (#[trigger] pairs[i]).0.text() is Some
}

/// Whether `name` is one of `names`.
pub open spec fn is_listed(names: Seq<Node>, name: Seq<char>) -> bool {
    exists|i: int| 0 <= i < names.len() && (#[trigger] names[i]).text() == Some(name)
}

/// The type of a property-style node, or `unknown type` where the node
/// declares none.
pub open spec fn property_type_or_unknown(node: Node) -> Seq<char> {
    match property_type(node) {
        Some(t) => t,
        None => "unknown type"@,
    }
}

/// The field that documents the property `property` of a schema whose
/// required properties are `required`.
pub open spec fn property_field(property: (Node, Node), required: Seq<Node>) -> FieldView {
    let name = property.0.text().unwrap();
    field_view(
        shortened(escaped(name)),
        property_type_or_unknown(property.1),
        is_listed(required, name),
        match property.1.child("description"@).text() {
            Some(description) => markdown_markup(description),
            None => Seq::<char>::empty(),
        },
        text_or(property.1.child("example"@), Seq::<char>::empty()),
    )
}

/// The field that documents one value of an enumeration.
pub open spec fn enum_field(value: Node) -> FieldView {
    field_view(
        escaped(value.text().unwrap()),
        Seq::<char>::empty(),
        false,
        Seq::<char>::empty(),
        Seq::<char>::empty(),
    )
}

/// Whether a schema, given as a pair of name and node, has what is needed
/// of it: its name and the entries of its `required` list are texts, and
/// so are the names of its properties or, where it has no map of
/// properties, the values of its `enum` list.
pub open spec fn schema_ok(entry: (Node, Node)) -> bool {
    &&& entry.0.text() is Some
    &&& all_text(required_names(entry.1))
    &&& match entry.1.child("properties"@).entries() {
        Some(properties) => all_keys_text(properties),
        None => match entry.1.child("enum"@).items() {
            Some(values) => all_text(values),
            None => true,
        },
    }
}

/// The entity that documents one schema. A schema with a map of
/// properties has one field for each of them. Any other schema with an
/// `enum` list is an enumeration with one field for each value. A schema
/// of neither shape has no fields.
pub open spec fn schema_view(entry: (Node, Node)) -> SchemaView {
    let name = shortened(entry.0.text().unwrap());
    let none = Seq::<FieldView>::empty();
    match entry.1.child("properties"@).entries() {
        Some(properties) => SchemaView {
            name,
            fields: Seq::new(
                properties.len(),
                |i: int| property_field(properties[i], required_names(entry.1)),
            ),
            enum_fields: none,
            is_enum: false,
        },
        None => match entry.1.child("enum"@).items() {
            Some(values) => SchemaView {
                name,
                fields: none,
                enum_fields: Seq::new(values.len(), |i: int| enum_field(values[i])),
                is_enum: true,
            },
            None => SchemaView { name, fields: none, enum_fields: none, is_enum: false },
        },
    }
}

/// Whether `models` is a mapping of schemas that are all in order.
pub open spec fn schemas_ok(models: Node) -> bool {
    match models.entries() {
        Some(pairs) => forall|i: int| 0 <= i < pairs.len() ==> schema_ok(#[trigger] pairs[i]),
        None => false,
    }
}

/// The entities of a mapping of schemas, in document order.
pub open spec fn schemas_of(models: Node) -> Seq<SchemaView> {
    let pairs = models.entries().unwrap();
    Seq::new(pairs.len(), |i: int| schema_view(pairs[i]))
}

/// Where the schemas of a document stand: under `components.schemas`, or
/// under `definitions` where that is absent.
pub open spec fn schemas_root(root: Node) -> Node {
    if root.child("components"@).child("schemas"@) is Absent {
        root.child("definitions"@)
    } else {
        root.child("components"@).child("schemas"@)
    }
}

/// Whether a document has what is needed of it: a text title, paths that
/// are in order and schemas that are in order.
pub open spec fn document_ok(root: Node) -> bool {
    &&& root.child("info"@).child("title"@).text() is Some
    &&& paths_ok(root.child("paths"@))
    &&& schemas_ok(schemas_root(root))
}

/// The documentation of a document.
pub open spec fn document_view(root: Node) -> DocumentationView {
    DocumentationView {
        title: root.child("info"@).child("title"@).text().unwrap(),
        host: text_or(root.child("servers"@).element(0).child("url"@), "-"@),
        base_url: Seq::<char>::empty(),
        requests: requests_of(root.child("paths"@)),
        schemas: schemas_of(schemas_root(root)),
    }
}

/// Whether every node of `list` is a text.
pub fn every_node_is_text(list: &Vec<Node>) -> (r: bool)
    ensures
        r == all_text(list@),
{
    let mut k: usize = 0;
    while k < list.len()
        invariant
            k <= list.len(),
            forall|i: int| 0 <= i < k ==> (#[trigger] list@[i]).text() is Some,
        decreases list.len() - k,
    {
        if list[k].as_str().is_none() {
            return false;
        }
        k = k + 1;
    }
    true
}

/// Whether the text `name` is one of `names`.
pub fn is_name_listed(names: &Vec<Node>, name: &str) -> (r: bool)
    ensures
        r == is_listed(names@, name@),
{
    let mut k: usize = 0;
    while k < names.len()
        invariant
            k <= names.len(),
            forall|i: int| 0 <= i < k ==> (#[trigger] names@[i]).text() != Some(name@),
        decreases names.len() - k,
    {
        match names[k].as_str() {
            Some(listed) => {
                if same_text(listed, name) {
                    return true;
                }
            },
            None => {},
        }
        k = k + 1;
    }
    false
}

fn field_of_property(property: &(Node, Node), required: &Vec<Node>) -> (r: Option<Field>)
    ensures
        match r {
            Some(field) => property.0.text() is Some && field@ == property_field(
                *property,
                required@,
            ),
            None => property.0.text() is None,
        },
{
    proof {
        reveal_strlit("");
    }
    assert(""@ == Seq::<char>::empty());
    match property.0.as_str() {
        Some(name) => {
            let node = &property.1;
            let escaped_name = replace_text(name, "_", "\\_");
            let shown = match get_type_name_without_schema(node) {
                Ok(shown) => shown,
                Err(_) => String::from_str("unknown type"),
            };
            let description = match node.get("description").as_str() {
                Some(raw) => markdown_to_latex(raw),
                None => String::new(),
            };
            Some(
                Field::new(
                    shorten_type_name(escaped_name.as_str()),
                    shown,
                    is_name_listed(required, name),
                    description,
                    text_of_or(node.get("example"), ""),
                ),
            )
        },
        None => None,
    }
}

fn fields_of_properties(properties: &Vec<(Node, Node)>, required: &Vec<Node>) -> (r: Option<
    Vec<Field>,
>)
    ensures
        match r {
            Some(fields) => all_keys_text(properties@) && views(fields@) == Seq::new(
                properties@.len(),
                |i: int| property_field(properties@[i], required@),
            ),
            None => !all_keys_text(properties@),
        },
{
    let mut fields: Vec<Field> = Vec::new();
    let mut k: usize = 0;
    while k < properties.len()
        invariant
            k <= properties.len(),
            fields.len() == k,
            forall|i: int| 0 <= i < k ==> (#[trigger] properties@[i]).0.text() is Some,
            views(fields@) == Seq::new(
                k as nat,
                |i: int| property_field(properties@[i], required@),
            ),
        decreases properties.len() - k,
    {
        match field_of_property(&properties[k], required) {
            Some(field) => {
                proof {
                    lemma_views_push(fields@, field);
                }
                fields.push(field);
            },
            None => {
                return None;
            },
        }
        k = k + 1;
    }
    Some(fields)
}

fn fields_of_values(values: &Vec<Node>) -> (r: Option<Vec<Field>>)
    ensures
        match r {
            Some(fields) => all_text(values@) && views(fields@) == Seq::new(
                values@.len(),
                |i: int| enum_field(values@[i]),
            ),
            None => !all_text(values@),
        },
{
    let mut fields: Vec<Field> = Vec::new();
    let mut k: usize = 0;
    while k < values.len()
        invariant
            k <= values.len(),
            fields.len() == k,
            forall|i: int| 0 <= i < k ==> (#[trigger] values@[i]).text() is Some,
            views(fields@) == Seq::new(k as nat, |i: int| enum_field(values@[i])),
        decreases values.len() - k,
    {
        match values[k].as_str() {
            Some(name) => {
                let field = Field::new(
                    replace_text(name, "_", "\\_"),
                    String::new(),
                    false,
                    String::new(),
                    String::new(),
                );
                proof {
                    lemma_views_push(fields@, field);
                }
                fields.push(field);
            },
            None => {
                return None;
            },
        }
        k = k + 1;
    }
    Some(fields)
}

/// Builds the entity that documents one schema; `None` where the schema
/// lacks something.
pub fn schema_of(entry: &(Node, Node)) -> (r: Option<Schema>)
    ensures
        match r {
            Some(schema) => schema_ok(*entry) && schema@ == schema_view(*entry),
            None => !schema_ok(*entry),
        },
{
    let name = match entry.0.as_str() {
        Some(name) => name,
        None => {
            return None;
        },
    };
    let node = &entry.1;
    let unlisted: Vec<Node> = Vec::new();
    let required = match node.get("required").as_items() {
        Some(list) => list,
        None => &unlisted,
    };
    if !every_node_is_text(required) {
        return None;
    }
    match node.get("properties").as_entries() {
        Some(properties) => {
            match fields_of_properties(properties, required) {
                Some(fields) => {
                    let schema = Schema::new(shorten_type_name(name), fields, Vec::new());
                    assert(schema@.enum_fields =~= Seq::<FieldView>::empty());
                    Some(schema)
                },
                None => None,
            }
        },
        None => match node.get("enum").as_items() {
            Some(values) => {
                match fields_of_values(values) {
                    Some(fields) => {
                        let mut schema = Schema::new(shorten_type_name(name), Vec::new(), fields);
                        schema.is_enum = true;
                        assert(schema@.fields =~= Seq::<FieldView>::empty());
                        Some(schema)
                    },
                    None => None,
                }
            },
            None => {
                let schema = Schema::new(shorten_type_name(name), Vec::new(), Vec::new());
                assert(schema@.fields =~= Seq::<FieldView>::empty());
                Some(schema)
            },
        },
    }
}

/// Builds the entities of a mapping of schemas, in document order. Fails
/// exactly where `models` is no mapping or one of the schemas lacks
/// something.
pub fn try_get_schemas(models: &Node) -> (r: Result<Vec<Schema>, MalformedDocument>)
    ensures
        match r {
            Ok(schemas) => schemas_ok(*models) && views(schemas@) == schemas_of(*models),
            Err(_) => !schemas_ok(*models),
        },
{
    match models.as_entries() {
        Some(pairs) => {
            let mut result: Vec<Schema> = Vec::new();
            let mut k: usize = 0;
            while k < pairs.len()
                invariant
                    k <= pairs.len(),
                    models.entries() == Some(pairs@),
                    forall|i: int| 0 <= i < k ==> schema_ok(#[trigger] pairs@[i]),
                    result.len() == k,
                    views(result@) == Seq::new(k as nat, |i: int| schema_view(pairs@[i])),
                decreases pairs.len() - k,
            {
                match schema_of(&pairs[k]) {
                    Some(schema) => {
                        proof {
                            lemma_views_push(result@, schema);
                        }
                        result.push(schema);
                    },
                    None => {
                        assert(!schema_ok(models.entries().unwrap()[k as int]));
                        return Err(MalformedDocument {  });
                    },
                }
                k = k + 1;
            }
            Ok(result)
        },
        None => Err(MalformedDocument {  }),
    }
}

impl Documentation {
    /// Builds the documentation of the API that `document_root`
    /// describes. Fails exactly where the document has no text title, its
    /// paths are not in order or its schemas are not in order.
    pub fn try_new(document_root: &Node) -> (r: Result<Documentation, MalformedDocument>)
        ensures
            match r {
                Ok(documentation) => document_ok(*document_root) && documentation@
                    == document_view(*document_root),
                Err(_) => !document_ok(*document_root),
            },
    {
        let title = match document_root.get("info").get("title").as_str() {
            Some(title) => title,
            None => {
                return Err(MalformedDocument {  });
            },
        };
        let host = text_of_or(document_root.get("servers").at(0).get("url"), "-");
        let requests = match try_get_paths(document_root.get("paths")) {
            Ok(requests) => requests,
            Err(e) => {
                return Err(e);
            },
        };
        let models = if document_root.get("components").get("schemas").is_absent() {
            document_root.get("definitions")
        } else {
            document_root.get("components").get("schemas")
        };
        let schemas = match try_get_schemas(models) {
            Ok(schemas) => schemas,
            Err(e) => {
                return Err(e);
            },
        };
        Ok(
            Documentation {
                title: String::from_str(title),
                host,
                base_url: String::new(),
                requests,
                schemas,
            },
        )
    }
}

impl Documentation {
    /// Builds the documentation of the API that `document_root`
    /// describes. The document has to have a text title, paths that are
    /// in order and schemas that are in order; `try_new` tells whether it
    /// has.
    pub fn new(document_root: &Node) -> (r: Documentation)
        requires
            document_ok(*document_root),
        ensures
            r@ == document_view(*document_root),
    {
        Documentation::try_new(document_root).unwrap()
    }
}

/// A schema with an `enum` list and no map of properties is documented as
/// an enumeration without property fields.
pub proof fn enumeration_has_no_property_fields(entry: (Node, Node))
    requires
        entry.1.child("enum"@).items() is Some,
        entry.1.child("properties"@).entries() is None,
    ensures
        schema_view(entry).is_enum,
        schema_view(entry).fields.len() == 0,
{
}

} // verus!
