//! JSON values as plain data, and how `serde_json` hands them out.
use serde_json::Value;
use vstd::prelude::*;

use crate::text::same_text;

verus! {

/// `serde_json::Value`, carried from the parser to where it is opened.
#[verifier::external_type_specification]
#[verifier::external_body]
pub struct ExValue(serde_json::Value);

/// What a JSON value is made of.
#[derive(Debug)]
pub enum Node {
    /// A string, without quotes and escapes.
    Str(String),
    /// The elements of an array, in order.
    Array(Vec<Json>),
    /// The members of an object, in the order in which its map hands them out.
    Object(Vec<(String, Json)>),
    /// `null`, a boolean or a number: known by its text alone.
    Other,
}

/// A JSON value with its compact rendering.
#[derive(Debug)]
pub struct Json {
    pub text: String,
    pub node: Node,
}

/// The model of a [`Node`].
pub enum NodeView {
    Str(Seq<char>),
    Array(Seq<JsonView>),
    Object(Seq<(Seq<char>, JsonView)>),
    Other,
}

/// The model of a [`Json`].
pub struct JsonView {
    pub text: Seq<char>,
    pub node: NodeView,
}

/// The model of a value: its rendering and the models of its parts.
pub open spec fn json_model(j: Json) -> JsonView
    decreases j,
{
    JsonView { text: j.text@, node: node_model(j.node) }
}

/// The model of what a value is made of.
pub open spec fn node_model(n: Node) -> NodeView
    decreases n,
{
    match n {
        Node::Str(s) => NodeView::Str(s@),
        Node::Array(items) => NodeView::Array(
            Seq::new(
                items@.len(),
                |i: int|
                    if 0 <= i < items@.len() {
                        json_model(items@[i])
                    } else {
                        arbitrary()
                    },
            ),
        ),
        Node::Object(fields) => NodeView::Object(
            Seq::new(
                fields@.len(),
                |i: int|
                    if 0 <= i < fields@.len() {
                        (fields@[i].0@, json_model(fields@[i].1))
                    } else {
                        arbitrary()
                    },
            ),
        ),
        Node::Other => NodeView::Other,
    }
}

impl View for Json {
    type V = JsonView;

    open spec fn view(&self) -> JsonView {
        json_model(*self)
    }
}

/// The model of a value that may be absent.
pub open spec fn maybe_json(o: Option<Json>) -> Option<JsonView> {
    match o {
        Some(j) => Some(j@),
        None => None,
    }
}

/// Copies a value with all its parts.
fn copy_json(j: &Json) -> (r: Json)
    ensures
        r@ == j@,
    decreases j,
{
    let node = match &j.node {
        Node::Str(s) => Node::Str(s.clone()),
        Node::Array(items) => {
            let mut out: Vec<Json> = Vec::new();
            let mut i: usize = 0;
            while i < items.len()
                invariant
                    i <= items.len(),
                    out.len() == i,
                    j.node == Node::Array(*items),
                    forall|k: int| 0 <= k < i ==> (#[trigger] out@[k])@ == items@[k]@,
                decreases items.len() - i,
            {
                assert(decreases_to!(j => j.node));
                assert(decreases_to!(j.node => j.node->Array_0));
                assert(decreases_to!(*items => items@));
                assert(decreases_to!(items@ => items@[i as int]));
                out.push(copy_json(&items[i]));
                i += 1;
            }
            let node = Node::Array(out);
            assert(node_model(node)->Array_0 =~= node_model(j.node)->Array_0);
            node
        },
        Node::Object(fields) => {
            let mut out: Vec<(String, Json)> = Vec::new();
            let mut i: usize = 0;
            while i < fields.len()
                invariant
                    i <= fields.len(),
                    out.len() == i,
                    j.node == Node::Object(*fields),
                    forall|k: int|
                        0 <= k < i ==> (#[trigger] out@[k]).0@ == fields@[k].0@ && out@[k].1@
                            == fields@[k].1@,
                decreases fields.len() - i,
            {
                assert(decreases_to!(j => j.node));
                assert(decreases_to!(j.node => j.node->Object_0));
                assert(decreases_to!(*fields => fields@));
                assert(decreases_to!(fields@ => fields@[i as int]));
                assert(decreases_to!(fields@[i as int] => fields@[i as int].1));
                out.push((fields[i].0.clone(), copy_json(&fields[i].1)));
                i += 1;
            }
            let node = Node::Object(out);
            assert(node_model(node)->Object_0 =~= node_model(j.node)->Object_0);
            node
        },
        Node::Other => Node::Other,
    };
    Json { text: j.text.clone(), node }
}

impl Clone for Json {
    fn clone(&self) -> (r: Self)
        ensures
            r@ == self@,
    {
        copy_json(self)
    }
}

/// One level of a `serde_json::Value`.
pub enum Opened<'a> {
    Str(&'a str),
    Array(Vec<&'a Value>),
    Object(Vec<(&'a String, &'a Value)>),
    Other,
}

/// The tree that a `serde_json::Value` holds: the rendering, the kind and the
/// parts of every value in it.
pub uninterp spec fn json_view(v: Value) -> JsonView;

/// The tree that `serde_json::from_str` reads from a text, if the text is JSON.
pub uninterp spec fn parsed_json(text: Seq<char>) -> Option<JsonView>;

/// What one opened level says of the tree.
pub open spec fn opened_view(o: Opened) -> NodeView {
    match o {
        Opened::Str(s) => NodeView::Str(s@),
        Opened::Array(items) => NodeView::Array(
            Seq::new(items@.len(), |i: int| json_view(*items@[i])),
        ),
        Opened::Object(fields) => NodeView::Object(
            Seq::new(fields@.len(), |i: int| (fields@[i].0@, json_view(*fields@[i].1))),
        ),
        Opened::Other => NodeView::Other,
    }
}

/// Calls `serde_json::from_str`: the value holds the tree that the text stands for,
/// and there is none exactly where the text is not JSON.
#[verifier::external_body]
fn parse_value(text: &str) -> (r: Option<Value>)
    ensures
        match r {
            Some(v) => parsed_json(text@) == Some(json_view(v)),
            None => parsed_json(text@) is None,
        },
{
    serde_json::from_str(text).ok()
}

/// Calls the `Display` of `serde_json::Value`: the compact rendering of the value.
#[verifier::external_body]
fn value_text(v: &Value) -> (r: String)
    ensures
        r@ == json_view(*v).text,
{
    v.to_string()
}

/// Tells the variants of `serde_json::Value` apart and hands out their parts; the
/// members of an object come in the order of its map.
#[verifier::external_body]
fn open_value<'a>(v: &'a Value) -> (r: Opened<'a>)
    ensures
        opened_view(r) == json_view(*v).node,
{
    match v {
        Value::String(s) => Opened::Str(s),
        Value::Array(items) => Opened::Array(items.iter().collect()),
        Value::Object(fields) => Opened::Object(fields.iter().collect()),
        Value::Null => Opened::Other,
        Value::Bool(_) => Opened::Other,
        Value::Number(_) => Opened::Other,
    }
}

/// Copies the tree out of a `serde_json::Value`.
pub fn json_from_value(v: &Value) -> (j: Json)
    ensures
        j@ == json_view(*v),
    decreases json_view(*v),
{
    let text = value_text(v);
    let node = match open_value(v) {
        Opened::Str(s) => Node::Str(s.to_owned()),
        Opened::Array(items) => {
            let mut out: Vec<Json> = Vec::new();
            let mut i: usize = 0;
            while i < items.len()
                invariant
                    i <= items.len(),
                    out.len() == i,
                    json_view(*v).node == opened_view(Opened::Array(items)),
                    forall|k: int| 0 <= k < i ==> (#[trigger] out@[k])@ == json_view(*items@[k]),
                decreases items.len() - i,
            {
                proof {
                    let parts = json_view(*v).node->Array_0;
                    assert(parts[i as int] == json_view(*items@[i as int]));
                    assert(decreases_to!(json_view(*v) => json_view(*v).node));
                    assert(decreases_to!(json_view(*v).node => parts));
                    assert(decreases_to!(parts => parts[i as int]));
                }
                out.push(json_from_value(items[i]));
                i += 1;
            }
            let node = Node::Array(out);
            assert(node_model(node)->Array_0 =~= json_view(*v).node->Array_0);
            node
        },
        Opened::Object(fields) => {
            let mut out: Vec<(String, Json)> = Vec::new();
            let mut i: usize = 0;
            while i < fields.len()
                invariant
                    i <= fields.len(),
                    out.len() == i,
                    json_view(*v).node == opened_view(Opened::Object(fields)),
                    forall|k: int|
                        0 <= k < i ==> (#[trigger] out@[k]).0@ == fields@[k].0@ && out@[k].1@
                            == json_view(*fields@[k].1),
                decreases fields.len() - i,
            {
                let (name, member) = fields[i];
                proof {
                    let parts = json_view(*v).node->Object_0;
                    assert(parts[i as int].1 == json_view(*member));
                    assert(decreases_to!(json_view(*v) => json_view(*v).node));
                    assert(decreases_to!(json_view(*v).node => parts));
                    assert(decreases_to!(parts => parts[i as int]));
                    assert(decreases_to!(parts[i as int] => parts[i as int].1));
                }
                out.push((name.clone(), json_from_value(member)));
                i += 1;
            }
            let node = Node::Object(out);
            assert(node_model(node)->Object_0 =~= json_view(*v).node->Object_0);
            node
        },
        Opened::Other => Node::Other,
    };
    Json { text, node }
}

/// Reads a JSON text, if it is one.
pub fn parse_json(text: &str) -> (r: Option<Json>)
    ensures
        maybe_json(r) == parsed_json(text@),
{
    match parse_value(text) {
        Some(v) => Some(json_from_value(&v)),
        None => None,
    }
}

/// Whether the value is an array.
pub open spec fn is_array(j: JsonView) -> bool {
    j.node is Array
}

/// The element of an array at an index; a value that is no array has none.
pub open spec fn at_index(j: JsonView, i: int) -> Option<JsonView> {
    match j.node {
        NodeView::Array(items) => if 0 <= i < items.len() {
            Some(items[i])
        } else {
            None
        },
        _ => None,
    }
}

/// The first member of that name.
pub open spec fn member(fields: Seq<(Seq<char>, JsonView)>, key: Seq<char>) -> Option<JsonView>
    decreases fields.len(),
{
    if fields.len() == 0 {
        None
    } else if fields[0].0 == key {
        Some(fields[0].1)
    } else {
        member(fields.drop_first(), key)
    }
}

/// The member of an object of that name; a value that is no object has none.
pub open spec fn at_key(j: JsonView, key: Seq<char>) -> Option<JsonView> {
    match j.node {
        NodeView::Object(fields) => member(fields, key),
        _ => None,
    }
}

/// The model of a value that may be absent.
pub open spec fn found(r: Option<&Json>) -> Option<JsonView> {
    match r {
        Some(j) => Some(j@),
        None => None,
    }
}

impl Json {
    /// Whether this is an array.
    pub fn is_array(&self) -> (r: bool)
        ensures
            r == is_array(self@),
    {
        match &self.node {
            Node::Array(_) => true,
            _ => false,
        }
    }

    /// The element at an index, where this is an array that has one.
    pub fn get_index(&self, i: usize) -> (r: Option<&Json>)
        ensures
            found(r) == at_index(self@, i as int),
    {
        match &self.node {
            Node::Array(items) => if i < items.len() {
                Some(&items[i])
            } else {
                None
            },
            _ => None,
        }
    }

    /// The member of that name, where this is an object that has one.
    pub fn get_key(&self, key: &str) -> (r: Option<&Json>)
        ensures
            found(r) == at_key(self@, key@),
    {
        match &self.node {
            Node::Object(fields) => {
                let ghost all = self@.node->Object_0;
                let mut i: usize = 0;
                assert(all.skip(0) =~= all);
                while i < fields.len()
                    invariant
                        i <= fields.len(),
                        self.node == Node::Object(*fields),
                        all == self@.node->Object_0,
                        self@.node is Object,
                        member(all, key@) == member(all.skip(i as int), key@),
                    decreases fields.len() - i,
                {
                    assert(all.skip(i as int)[0] == all[i as int]);
                    assert(all.skip(i as int).drop_first() =~= all.skip(i + 1));
                    if same_text(fields[i].0.as_str(), key) {
                        return Some(&fields[i].1);
                    }
                    i += 1;
                }
                None
            },
            _ => None,
        }
    }

    /// The string itself for a string, the rendering for every other value.
    pub fn as_text(&self) -> (r: String)
        ensures
            r@ == text_value(self@),
    {
        match &self.node {
            Node::Str(s) => s.clone(),
            _ => self.text.clone(),
        }
    }
}

/// The string itself for a string, the rendering for every other value.
pub open spec fn text_value(j: JsonView) -> Seq<char> {
    match j.node {
        NodeView::Str(s) => s,
        _ => j.text,
    }
}

} // verus!
