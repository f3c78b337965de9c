//! Parsed manifests.
//!
//! A manifest is read as a tree of [`Node`]s, modelled by [`Tree`]. The
//! rules of detection look only at texts, lists and tables, so every other
//! kind of value is kept as [`Node::Other`]. Parsing itself is the work of
//! the `toml` and `serde_json` crates.

use vstd::prelude::*;

use crate::text::{is_text, to_chars};

verus! {

/// A value of a parsed manifest.
#[derive(Debug)]
pub enum Node {
    /// A string.
    Text(String),
    /// An array, with its items in order.
    List(Vec<Node>),
    /// A table or object, with its entries in order.
    Table(Vec<(String, Node)>),
    /// A number, a boolean, a date or a null.
    Other,
}

/// The mathematical model of a [`Node`].
pub enum Tree {
    /// A string.
    Text(Seq<char>),
    /// An array, with its items in order.
    List(Seq<Tree>),
    /// A table or object, with its entries in order.
    Table(Seq<(Seq<char>, Tree)>),
    /// A number, a boolean, a date or a null.
    Other,
}

/// The models of a list of nodes.
pub open spec fn trees_of(nodes: Seq<Node>) -> Seq<Tree> {
    Seq::new(nodes.len(), |i: int| nodes[i]@)
}

/// The model of an optional node.
pub open spec fn tree_in(node: Option<Node>) -> Option<Tree> {
    match node {
        Some(n) => Some(n@),
        None => None,
    }
}

/// The model of the node that an optional reference refers to.
pub open spec fn tree_at(node: Option<&Node>) -> Option<Tree> {
    match node {
        Some(n) => Some(n@),
        None => None,
    }
}

/// The model of a node: the same tree, with the texts of its strings.
pub open spec fn tree_of(node: Node) -> Tree
    decreases node,
{
    match node {
        Node::Text(s) => Tree::Text(s@),
        Node::List(items) => Tree::List(
            Seq::new(
                items@.len(),
                |i: int|
                    if 0 <= i < items@.len() {
                        tree_of(items@[i])
                    } else {
                        Tree::Other
                    },
            ),
        ),
        Node::Table(entries) => Tree::Table(
            Seq::new(
                entries@.len(),
                |i: int|
                    if 0 <= i < entries@.len() {
                        (entries@[i].0@, tree_of(entries@[i].1))
                    } else {
                        (Seq::<char>::empty(), Tree::Other)
                    },
            ),
        ),
        Node::Other => Tree::Other,
    }
}

impl View for Node {
    type V = Tree;

    open spec fn view(&self) -> Tree {
        tree_of(*self)
    }
}

/// The value of the first entry named `key`.
pub open spec fn lookup(entries: Seq<(Seq<char>, Tree)>, key: Seq<char>) -> Option<Tree>
    decreases entries.len(),
{
    if entries.len() == 0 {
        None
    } else if entries[0].0 == key {
        Some(entries[0].1)
    } else {
        lookup(entries.drop_first(), key)
    }
}

impl Tree {
    /// The text of a string; nothing for any other value.
    pub open spec fn text(self) -> Option<Seq<char>> {
        match self {
            Tree::Text(s) => Some(s),
            _ => None,
        }
    }

    /// The value stored under `key` in a table; nothing where the value is
    /// no table or the table has no such key.
    pub open spec fn member(self, key: Seq<char>) -> Option<Tree> {
        match self {
            Tree::Table(entries) => lookup(entries, key),
            _ => None,
        }
    }

    /// The items of a list; nothing for any other value.
    pub open spec fn items(self) -> Option<Seq<Tree>> {
        match self {
            Tree::List(items) => Some(items),
            _ => None,
        }
    }
}

impl Node {
    /// The text of a string value.
    pub fn as_text(&self) -> (r: Option<&String>)
        ensures
            match r {
                Some(s) => self@.text() == Some(s@),
                None => self@.text() is None,
            },
    {
        match self {
            Node::Text(s) => Some(s),
            _ => None,
        }
    }

    /// The items of a list value.
    pub fn as_list(&self) -> (r: Option<&Vec<Node>>)
        ensures
            match r {
                Some(items) => self@.items() == Some(trees_of(items@)),
                None => self@.items() is None,
            },
    {
        match self {
            Node::List(items) => {
                assert(self@.items()->0 =~= trees_of(items@));
                Some(items)
            },
            _ => None,
        }
    }

    /// The value stored under `key`, if this is a table that has the key.
    /// Of several entries with the key the first is taken.
    pub fn get(&self, key: &str) -> (r: Option<&Node>)
        ensures
            tree_at(r) == self@.member(key@),
    {
        match self {
            Node::Table(entries) => {
                let ghost modelled = Seq::new(
                    entries@.len(),
                    |j: int| (entries@[j].0@, entries@[j].1@),
                );
                assert(self@ == Tree::Table(modelled)) by {
                    assert(self@->Table_0 =~= modelled);
                }
                let mut i: usize = 0;
                assert(modelled.skip(0) == modelled);
                while i < entries.len()
                    invariant
                        i <= entries.len(),
                        modelled == Seq::new(
                            entries@.len(),
                            |j: int| (entries@[j].0@, entries@[j].1@),
                        ),
                        self@.member(key@) == lookup(modelled.skip(i as int), key@),
                    decreases entries.len() - i,
                {
                    let name = to_chars(entries[i].0.as_str());
                    if is_text(name.as_slice(), key) {
                        return Some(&entries[i].1);
                    }
                    assert(modelled.skip(i as int).drop_first() == modelled.skip(i + 1));
                    i += 1;
                }
                None
            },
            _ => None,
        }
    }
}

/// The member `key` of an optional value.
pub open spec fn member_of(tree: Option<Tree>, key: Seq<char>) -> Option<Tree> {
    match tree {
        Some(t) => t.member(key),
        None => None,
    }
}

/// The text of an optional value.
pub open spec fn text_in(tree: Option<Tree>) -> Option<Seq<char>> {
    match tree {
        Some(t) => t.text(),
        None => None,
    }
}

/// `toml::Value`, a parsed TOML value. Nothing is known of what is inside
/// it: it is only carried from the parser to the conversion into a [`Node`].
#[verifier::external_type_specification]
#[verifier::external_body]
pub struct ExTomlValue(toml::Value);

/// `serde_json::Value`, a parsed JSON value. Nothing is known of what is
/// inside it: it is only carried from the parser to the conversion into a
/// [`Node`].
#[verifier::external_type_specification]
#[verifier::external_body]
pub struct ExJsonValue(serde_json::Value);

/// What `toml::from_str` reads from a text as a value: the document, or
/// nothing where the text is no well-formed TOML.
pub uninterp spec fn toml_document(text: Seq<char>) -> Option<toml::Value>;

/// What a `toml::Value` holds, as a tree.
pub uninterp spec fn toml_node(value: toml::Value) -> Tree;

/// What `serde_json::from_str` reads from a text as a value: the document,
/// or nothing where the text is no well-formed JSON.
pub uninterp spec fn json_document(text: Seq<char>) -> Option<serde_json::Value>;

/// What a `serde_json::Value` holds, as a tree.
pub uninterp spec fn json_node(value: serde_json::Value) -> Tree;

/// `toml::from_str`, reading a `toml::Value`. The result depends on the text
/// alone; an error of the parser becomes `None`.
#[verifier::external_body]
fn parse_toml(text: &str) -> (r: Option<toml::Value>)
    ensures
        r == toml_document(text@),
{
    toml::from_str::<toml::Value>(text).ok()
}

/// Copies a `toml::Value` into a tree of nodes, variant by variant: a string
/// as text, an array item by item, a table entry by entry in the order of
/// `toml::map::Map::iter`, and every other variant as `Other`.
#[verifier::external_body]
fn node_from_toml(value: &toml::Value) -> (node: Node)
    ensures
        node@ == toml_node(*value),
{
    match value {
        toml::Value::String(s) => Node::Text(s.clone()),
        toml::Value::Array(a) => Node::List(a.iter().map(node_from_toml).collect()),
        toml::Value::Table(t) => Node::Table(
            t.iter().map(|(k, v)| (k.clone(), node_from_toml(v))).collect(),
        ),
        toml::Value::Integer(_) => Node::Other,
        toml::Value::Float(_) => Node::Other,
        toml::Value::Boolean(_) => Node::Other,
        toml::Value::Datetime(_) => Node::Other,
    }
}

/// `serde_json::from_str`, reading a `serde_json::Value`. The result depends
/// on the text alone; an error of the parser becomes `None`.
#[verifier::external_body]
fn parse_json(text: &str) -> (r: Option<serde_json::Value>)
    ensures
        r == json_document(text@),
{
    serde_json::from_str::<serde_json::Value>(text).ok()
}

/// Copies a `serde_json::Value` into a tree of nodes, variant by variant: a
/// string as text, an array item by item, an object entry by entry in the
/// order of `serde_json::Map::iter`, and every other variant as `Other`.
#[verifier::external_body]
fn node_from_json(value: &serde_json::Value) -> (node: Node)
    ensures
        node@ == json_node(*value),
{
    match value {
        serde_json::Value::String(s) => Node::Text(s.clone()),
        serde_json::Value::Array(a) => Node::List(a.iter().map(node_from_json).collect()),
        serde_json::Value::Object(o) => Node::Table(
            o.iter().map(|(k, v)| (k.clone(), node_from_json(v))).collect(),
        ),
        serde_json::Value::Null => Node::Other,
        serde_json::Value::Bool(_) => Node::Other,
        serde_json::Value::Number(_) => Node::Other,
    }
}

/// The tree that a TOML text parses to.
pub open spec fn toml_tree(text: Seq<char>) -> Option<Tree> {
    match toml_document(text) {
        Some(value) => Some(toml_node(value)),
        None => None,
    }
}

/// The tree that a JSON text parses to.
pub open spec fn json_tree(text: Seq<char>) -> Option<Tree> {
    match json_document(text) {
        Some(value) => Some(json_node(value)),
        None => None,
    }
}

/// Parses a TOML document. A text that is no well-formed TOML gives `None`.
pub fn read_toml(text: &str) -> (r: Option<Node>)
    ensures
        tree_in(r) == toml_tree(text@),
{
    match parse_toml(text) {
        Some(value) => Some(node_from_toml(&value)),
        None => None,
    }
}

/// Parses a JSON document. A text that is no well-formed JSON gives `None`.
pub fn read_json(text: &str) -> (r: Option<Node>)
    ensures
        tree_in(r) == json_tree(text@),
{
    match parse_json(text) {
        Some(value) => Some(node_from_json(&value)),
        None => None,
    }
}

} // verus!
