//! The read-only tree in which an API description reaches the library.
use crate::text::same_text;
use vstd::prelude::*;

verus! {

/// One node of a parsed API description.
#[derive(Debug)]
pub enum Node {
    /// A text scalar.
    Text(String),
    /// A boolean scalar.
    Boolean(bool),
    /// An integer scalar.
    Integer(i64),
    /// A sequence of nodes.
    Array(Vec<Node>),
    /// Key and value pairs, in document order.
    Mapping(Vec<(Node, Node)>),
    /// Any scalar of another kind.
    Other,
    /// What a lookup gives where nothing is stored.
    Absent,
}

/// The value of the first pair in `entries` whose key is the text `key`;
/// `Absent` where there is none.
pub open spec fn value_for(entries: Seq<(Node, Node)>, key: Seq<char>) -> Node
    decreases entries.len(),
{
    if entries.len() == 0 {
        Node::Absent
    } else if entries[0].0.text() == Some(key) {
        entries[0].1
    } else {
        value_for(entries.skip(1), key)
    }
}

/// The value of the first pair in `entries` whose key is the integer
/// `index`; `Absent` where there is none.
pub open spec fn value_at(entries: Seq<(Node, Node)>, index: int) -> Node
    decreases entries.len(),
{
    if entries.len() == 0 {
        Node::Absent
    } else if entries[0].0.number() == Some(index) {
        entries[0].1
    } else {
        value_at(entries.skip(1), index)
    }
}

impl Node {
    /// The text of a text scalar.
    pub open spec fn text(self) -> Option<Seq<char>> {
        match self {
            Node::Text(s) => Some(s@),
            _ => None,
        }
    }

    /// The value of a boolean scalar.
    pub open spec fn flag(self) -> Option<bool> {
        match self {
            Node::Boolean(b) => Some(b),
            _ => None,
        }
    }

    /// The value of an integer scalar.
    pub open spec fn number(self) -> Option<int> {
        match self {
            Node::Integer(i) => Some(i as int),
            _ => None,
        }
    }

    /// The elements of an array.
    pub open spec fn items(self) -> Option<Seq<Node>> {
        match self {
            Node::Array(v) => Some(v@),
            _ => None,
        }
    }

    /// The pairs of a mapping.
    pub open spec fn entries(self) -> Option<Seq<(Node, Node)>> {
        match self {
            Node::Mapping(v) => Some(v@),
            _ => None,
        }
    }

    /// The node stored under the text key `key`: the value of the first
    /// such pair of a mapping, `Absent` in every other case.
    pub open spec fn child(self, key: Seq<char>) -> Node {
        match self {
            Node::Mapping(v) => value_for(v@, key),
            _ => Node::Absent,
        }
    }

    /// The node stored at `index`: that element of an array, the value
    /// under that integer key of a mapping, `Absent` in every other case.
    pub open spec fn element(self, index: int) -> Node {
        match self {
            Node::Array(v) => if 0 <= index < v@.len() {
                v@[index]
            } else {
                Node::Absent
            },
            Node::Mapping(v) => value_at(v@, index),
            _ => Node::Absent,
        }
    }

    /// The text of a text scalar.
    pub fn as_str(&self) -> (r: Option<&str>)
        ensures
            match r {
                Some(s) => self.text() == Some(s@),
                None => self.text() is None,
            },
    {
        match self {
            Node::Text(s) => Some(s.as_str()),
            _ => None,
        }
    }

    /// The value of a boolean scalar.
    pub fn as_bool(&self) -> (r: Option<bool>)
        ensures
            r == self.flag(),
    {
        match self {
            Node::Boolean(b) => Some(*b),
            _ => None,
        }
    }

    /// The elements of an array.
    pub fn as_items(&self) -> (r: Option<&Vec<Node>>)
        ensures
            match r {
                Some(v) => self.items() == Some(v@),
                None => self.items() is None,
            },
    {
        match self {
            Node::Array(v) => Some(v),
            _ => None,
        }
    }

    /// The pairs of a mapping.
    pub fn as_entries(&self) -> (r: Option<&Vec<(Node, Node)>>)
        ensures
            match r {
                Some(v) => self.entries() == Some(v@),
                None => self.entries() is None,
            },
    {
        match self {
            Node::Mapping(v) => Some(v),
            _ => None,
        }
    }

    /// Whether this is the node that a failed lookup gives.
    pub fn is_absent(&self) -> (r: bool)
        ensures
            r == (*self is Absent),
    {
        match self {
            Node::Absent => true,
            _ => false,
        }
    }

    /// Looks up a text key. Never fails: where nothing is stored under
    /// `key`, or this is no mapping, the result is `Absent`.
    pub fn get(&self, key: &str) -> (r: &Node)
        ensures
            *r == self.child(key@),
    {
        match self {
            Node::Mapping(entries) => {
                let mut i: usize = 0;
                assert(entries@.skip(0) == entries@);
                while i < entries.len()
                    invariant
                        i <= entries.len(),
                        self.child(key@) == value_for(entries@, key@),
                        value_for(entries@.skip(i as int), key@) == value_for(entries@, key@),
                    decreases entries.len() - i,
                {
                    assert(entries@.skip(i as int).skip(1) == entries@.skip(i + 1));
                    match &entries[i].0 {
                        Node::Text(k) => {
                            if same_text(k.as_str(), key) {
                                return &entries[i].1;
                            }
                        },
                        _ => {},
                    }
                    i = i + 1;
                }
                &Node::Absent
            },
            _ => &Node::Absent,
        }
    }

    /// Looks up an index. Never fails: where nothing is stored at `index`
    /// the result is `Absent`.
    pub fn at(&self, index: usize) -> (r: &Node)
        ensures
            *r == self.element(index as int),
    {
        match self {
            Node::Array(items) => {
                if index < items.len() {
                    &items[index]
                } else {
                    &Node::Absent
                }
            },
            Node::Mapping(entries) => {
                let mut i: usize = 0;
                assert(entries@.skip(0) == entries@);
                while i < entries.len()
                    invariant
                        i <= entries.len(),
                        self.element(index as int) == value_at(entries@, index as int),
                        value_at(entries@.skip(i as int), index as int) == value_at(
                            entries@,
                            index as int,
                        ),
                    decreases entries.len() - i,
                {
                    assert(entries@.skip(i as int).skip(1) == entries@.skip(i + 1));
                    match &entries[i].0 {
                        Node::Integer(k) => {
                            if *k >= 0 && *k as u64 == index as u64 {
                                return &entries[i].1;
                            }
                        },
                        _ => {},
                    }
                    i = i + 1;
                }
                &Node::Absent
            },
            _ => &Node::Absent,
        }
    }
}

} // verus!
