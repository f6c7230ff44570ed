//! The type resolver: from a schema node to the type name shown for it.
use crate::names::{shorten_type_name, shortened};
use crate::node::Node;
use crate::text::{last_segment, replace_text, replaced, same_text, tail_after, text_of};
use vstd::prelude::*;
use vstd::string::*;

verus! {

/// The failure of the resolver: the node declares no type.
#[derive(Debug, Clone, Copy)]
pub struct TypeNotFound {}

impl TypeNotFound {
    /// The text shown for this failure.
    pub fn message(&self) -> (r: String)
        ensures
            r@ == "Could not find type"@,
    {
        String::from_str("Could not find type")
    }
}

/// How much of a reference is cut away before its name is shortened.
#[derive(Clone, Copy, Debug)]
pub enum RefRule {
    /// Everything up to and including the last `/`: the rule for the
    /// schema of a parameter.
    PathTail,
    /// Every occurrence of `#/components/schemas/`: the rule for a
    /// property.
    SchemaPrefix,
}

/// The reference `reference` without what `rule` cuts away.
pub open spec fn stripped(reference: Seq<char>, rule: RefRule) -> Seq<char> {
    match rule {
        RefRule::PathTail => last_segment(reference, '/'),
        RefRule::SchemaPrefix => replaced(
            reference,
            "#/components/schemas/"@,
            Seq::<char>::empty(),
        ),
    }
}

/// The name shown for a reference.
pub open spec fn referenced_name(reference: Seq<char>, rule: RefRule) -> Seq<char> {
    shortened(stripped(reference, rule))
}

/// The element type of an array, read from its `items` node: the declared
/// `type`, else the name behind `$ref`, else a placeholder.
pub open spec fn element_type(items: Node, rule: RefRule) -> Seq<char> {
    match items.child("type"@).text() {
        Some(t) => t,
        None => match items.child("$ref"@).text() {
            Some(r) => referenced_name(r, rule),
            None => "unknown property"@,
        },
    }
}

/// The value type of a free-form object, read from its
/// `additionalProperties` node and not shortened yet: what is left of
/// `$ref`, else the declared `type`, else a placeholder.
pub open spec fn value_type(extra: Node, rule: RefRule) -> Seq<char> {
    match extra.child("$ref"@).text() {
        Some(r) => stripped(r, rule),
        None => match extra.child("type"@).text() {
            Some(t) => t,
            None => "unknown type"@,
        },
    }
}

/// The type that `node` itself declares. A `type` of `array` gives the
/// element type followed by `[]`; a `type` of `object` gives
/// `Map<string,V>` with the shortened value type for `V`; any other `type`
/// stands for itself. Without a `type`, a `$ref` gives the name it refers
/// to. A node with neither declares nothing.
pub open spec fn declared_type(node: Node, rule: RefRule) -> Option<Seq<char>> {
    match node.child("type"@).text() {
        Some(t) => Some(
            if t == "array"@ {
                element_type(node.child("items"@), rule) + "[]"@
            } else if t == "object"@ {
                "Map<string,"@ + shortened(value_type(node.child("additionalProperties"@), rule))
                    + ">"@
            } else {
                t
            },
        ),
        None => match node.child("$ref"@).text() {
            Some(r) => Some(referenced_name(r, rule)),
            None => None,
        },
    }
}

/// The type of a parameter-style node: what its `schema` child declares,
/// with the tail of the path kept of a reference; where that child declares
/// nothing, the `type` written on the node itself.
pub open spec fn parameter_type(node: Node) -> Option<Seq<char>> {
    match declared_type(node.child("schema"@), RefRule::PathTail) {
        Some(t) => Some(t),
        None => node.child("type"@).text(),
    }
}

/// The type of a property-style node: what the node itself declares, with
/// the schema prefix cut from a reference.
pub open spec fn property_type(node: Node) -> Option<Seq<char>> {
    declared_type(node, RefRule::SchemaPrefix)
}

fn strip_reference(reference: &str, rule: RefRule) -> (r: String)
    ensures
        r@ == stripped(reference@, rule),
{
    match rule {
        RefRule::PathTail => tail_after(reference, '/'),
        RefRule::SchemaPrefix => {
            let r = replace_text(reference, "#/components/schemas/", "");
            proof {
                reveal_strlit("");
                assert(""@ == Seq::<char>::empty());
            }
            r
        },
    }
}

fn name_of_reference(reference: &str, rule: RefRule) -> (r: String)
    ensures
        r@ == referenced_name(reference@, rule),
{
    let cut = strip_reference(reference, rule);
    shorten_type_name(cut.as_str())
}

fn element_type_of(items: &Node, rule: RefRule) -> (r: String)
    ensures
        r@ == element_type(*items, rule),
{
    match items.get("type").as_str() {
        Some(t) => String::from_str(t),
        None => match items.get("$ref").as_str() {
            Some(reference) => name_of_reference(reference, rule),
            None => String::from_str("unknown property"),
        },
    }
}

fn value_type_of(extra: &Node, rule: RefRule) -> (r: String)
    ensures
        r@ == value_type(*extra, rule),
{
    match extra.get("$ref").as_str() {
        Some(reference) => strip_reference(reference, rule),
        None => match extra.get("type").as_str() {
            Some(t) => String::from_str(t),
            None => String::from_str("unknown type"),
        },
    }
}

/// Resolves the type that `node` itself declares.
pub fn declared_type_of(node: &Node, rule: RefRule) -> (r: Option<String>)
    ensures
        text_of(r) == declared_type(*node, rule),
{
    match node.get("type").as_str() {
        Some(t) => {
            if same_text(t, "array") {
                let mut name = element_type_of(node.get("items"), rule);
                name.append("[]");
                Some(name)
            } else if same_text(t, "object") {
                let value = value_type_of(node.get("additionalProperties"), rule);
                let mut name = String::from_str("Map<string,");
                name.append(shorten_type_name(value.as_str()).as_str());
                name.append(">");
                Some(name)
            } else {
                Some(String::from_str(t))
            }
        },
        None => match node.get("$ref").as_str() {
            Some(reference) => Some(name_of_reference(reference, rule)),
            None => None,
        },
    }
}

/// Resolves the type of a parameter-style node, whose schema is wrapped in
/// a `schema` child. Fails exactly where neither that child nor the node
/// itself declares a type.
pub fn get_type_name(schema: &Node) -> (r: Result<String, TypeNotFound>)
    ensures
        match r {
            Ok(name) => parameter_type(*schema) == Some(name@),
            Err(_) => parameter_type(*schema) is None,
        },
{
    match declared_type_of(schema.get("schema"), RefRule::PathTail) {
        Some(name) => Ok(name),
        None => match schema.get("type").as_str() {
            Some(t) => Ok(String::from_str(t)),
            None => Err(TypeNotFound {  }),
        },
    }
}

/// Resolves the type of a property-style node, which carries its schema
/// itself. Fails exactly where the node declares neither a `type` nor a
/// `$ref`.
pub fn get_type_name_without_schema(prop: &Node) -> (r: Result<String, TypeNotFound>)
    ensures
        match r {
            Ok(name) => property_type(*prop) == Some(name@),
            Err(_) => property_type(*prop) is None,
        },
{
    match declared_type_of(prop, RefRule::SchemaPrefix) {
        Some(name) => Ok(name),
        None => Err(TypeNotFound {  }),
    }
}

/// An array whose items declare the type `t` resolves to `t` followed by
/// `[]`, under either rule for references.
pub proof fn array_of_typed_items(node: Node, t: Seq<char>, rule: RefRule)
    requires
        node.child("type"@).text() == Some("array"@),
        node.child("items"@).child("type"@).text() == Some(t),
    ensures
        declared_type(node, rule) == Some(t + "[]"@),
        property_type(node) == Some(t + "[]"@),
{
}

/// A parameter whose wrapped schema is an array with items of the declared
/// type `t` resolves to `t` followed by `[]`.
pub proof fn parameter_array_of_typed_items(node: Node, t: Seq<char>)
    requires
        node.child("schema"@).child("type"@).text() == Some("array"@),
        node.child("schema"@).child("items"@).child("type"@).text() == Some(t),
    ensures
        parameter_type(node) == Some(t + "[]"@),
{
}

/// The value type that a free-form object shows: the shortened form of
/// what its `additionalProperties` node gives.
pub open spec fn shown_value_type(node: Node, rule: RefRule) -> Seq<char> {
    shortened(value_type(node.child("additionalProperties"@), rule))
}

/// A free-form object whose additional properties declare the type `t`
/// resolves to `Map<string,t>`, provided that the value type it shows is
/// `t` itself: no reference stands in the way and shortening leaves `t`
/// as it is.
pub proof fn object_of_typed_values(node: Node, t: Seq<char>, rule: RefRule)
    requires
        node.child("type"@).text() == Some("object"@),
        node.child("additionalProperties"@).child("type"@).text() == Some(t),
        shown_value_type(node, rule) == t,
    ensures
        declared_type(node, rule) == Some("Map<string,"@ + t + ">"@),
{
    reveal_strlit("array");
    reveal_strlit("object");
    assert("array"@.len() != "object"@.len());
}

/// A parameter whose wrapped schema is a free-form object with values of
/// the declared type `t` resolves to `Map<string,t>`, provided that the
/// value type shown is `t` itself.
pub proof fn parameter_object_of_typed_values(node: Node, t: Seq<char>)
    requires
        node.child("schema"@).child("type"@).text() == Some("object"@),
        node.child("schema"@).child("additionalProperties"@).child("type"@).text() == Some(t),
        shown_value_type(node.child("schema"@), RefRule::PathTail) == t,
    ensures
        parameter_type(node) == Some("Map<string,"@ + t + ">"@),
{
    object_of_typed_values(node.child("schema"@), t, RefRule::PathTail);
}

/// Without a reference under `additionalProperties`, and with a declared
/// value type `t` that holds no dot, the value type shown is `t`.
pub proof fn plain_value_type_is_shown(node: Node, t: Seq<char>, rule: RefRule)
    requires
        node.child("additionalProperties"@).child("$ref"@).text() is None,
        node.child("additionalProperties"@).child("type"@).text() == Some(t),
        !t.contains('.'),
    ensures
        shown_value_type(node, rule) == t,
{
}

} // verus!
