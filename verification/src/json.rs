//! JSON documents as plain values.
use vstd::prelude::*;

verus! {

/// A JSON number. Integers are kept as such; any other number is kept as the
/// text of its value.
#[derive(Debug, Clone, PartialEq, Eq)]
pub enum JsonNumber {
    Unsigned(u64),
    /// Always below zero.
    Negative(i64),
    Other(String),
}

/// A JSON document.
#[derive(Debug, PartialEq, Eq)]
pub enum Json {
    Null,
    Bool(bool),
    Number(JsonNumber),
    Text(String),
    Array(Vec<Json>),
    Object(Vec<(String, Json)>),
}

/// The mathematical content of a JSON document.
pub enum JsonTree {
    Null,
    Bool(bool),
    Unsigned(u64),
    Negative(i64),
    Other(Seq<char>),
    Text(Seq<char>),
    Array(Seq<JsonTree>),
    Object(Seq<(Seq<char>, JsonTree)>),
}

pub open spec fn json_tree(json: Json) -> JsonTree
    decreases json,
{
    match json {
        Json::Null => JsonTree::Null,
        Json::Bool(b) => JsonTree::Bool(b),
        Json::Number(JsonNumber::Unsigned(n)) => JsonTree::Unsigned(n),
        Json::Number(JsonNumber::Negative(n)) => JsonTree::Negative(n),
        Json::Number(JsonNumber::Other(text)) => JsonTree::Other(text@),
        Json::Text(text) => JsonTree::Text(text@),
        Json::Array(items) => JsonTree::Array(
            Seq::new(
                items@.len(),
                |i: int|
                    if 0 <= i < items@.len() {
                        json_tree(items@[i])
                    } else {
                        JsonTree::Null
                    },
            ),
        ),
        Json::Object(fields) => JsonTree::Object(
            Seq::new(
                fields@.len(),
                |i: int|
                    if 0 <= i < fields@.len() {
                        (fields@[i].0@, json_tree(fields@[i].1))
                    } else {
                        (Seq::empty(), JsonTree::Null)
                    },
            ),
        ),
    }
}

/// The value stored under the first field named `key`, or null.
pub open spec fn lookup(fields: Seq<(Seq<char>, JsonTree)>, key: Seq<char>) -> JsonTree
    decreases fields.len(),
{
    if fields.len() == 0 {
        JsonTree::Null
    } else if fields[0].0 == key {
        fields[0].1
    } else {
        lookup(fields.drop_first(), key)
    }
}

impl JsonTree {
    /// The member of an object, or null where there is none or no object.
    pub open spec fn at(self, key: Seq<char>) -> JsonTree {
        match self {
            JsonTree::Object(fields) => lookup(fields, key),
            _ => JsonTree::Null,
        }
    }

    /// Whether this is the literal `true`.
    pub open spec fn is_true(self) -> bool {
        self == JsonTree::Bool(true)
    }

    /// Whether this is the literal `false`.
    pub open spec fn is_false(self) -> bool {
        self == JsonTree::Bool(false)
    }

    /// Whether this is the given text.
    pub open spec fn is_text(self, text: Seq<char>) -> bool {
        self == JsonTree::Text(text)
    }

    /// The text, where this is one.
    pub open spec fn text(self) -> Option<Seq<char>> {
        match self {
            JsonTree::Text(text) => Some(text),
            _ => None,
        }
    }

    /// Whether this is the given whole number.
    pub open spec fn is_number(self, n: int) -> bool {
        self matches JsonTree::Unsigned(m) && m == n
    }

    /// The items of an array; none where this is no array.
    pub open spec fn items(self) -> Seq<JsonTree> {
        match self {
            JsonTree::Array(items) => items,
            _ => Seq::empty(),
        }
    }

    /// This as a whole number that fits in 64 bits with a sign.
    pub open spec fn as_signed(self) -> Option<int> {
        match self {
            JsonTree::Unsigned(n) => if n <= i64::MAX {
                Some(n as int)
            } else {
                None
            },
            JsonTree::Negative(n) => Some(n as int),
            _ => None,
        }
    }
}

/// What a place in a document holds: null where there is no such place.
pub open spec fn place(node: Option<&Json>) -> JsonTree {
    match node {
        Some(json) => json_tree(*json),
        None => JsonTree::Null,
    }
}

/// The member `key` of the object at `node`.
pub fn member<'a>(node: Option<&'a Json>, key: &str) -> (found: Option<&'a Json>)
    ensures
        place(found) == place(node).at(key@),
{
    if let Some(Json::Object(fields)) = node {
        let ghost all = json_tree(*node->0)->Object_0;
        let mut i: usize = 0;
        assert(all.skip(0) =~= all);
        while i < fields.len()
            invariant
                i <= fields@.len(),
                all.len() == fields@.len(),
                forall|j: int|
                    0 <= j < all.len() ==> all[j] == (fields@[j].0@, json_tree(fields@[j].1)),
                place(node).at(key@) == lookup(all.skip(i as int), key@),
            decreases fields@.len() - i,
        {
            let ghost rest = all.skip(i as int);
            assert(rest.drop_first() =~= all.skip(i + 1));
            assert(rest[0] == all[i as int]);
            if crate::text::same_text(fields[i].0.as_str(), key) {
                return Some(&fields[i].1);
            }
            i = i + 1;
        }
        assert(lookup(all.skip(i as int), key@) == JsonTree::Null);
    }
    None
}

/// Whether `node` holds the literal `true`.
pub fn is_true(node: Option<&Json>) -> (yes: bool)
    ensures
        yes == place(node).is_true(),
{
    matches!(node, Some(Json::Bool(true)))
}

/// Whether `node` holds the literal `false`.
pub fn is_false(node: Option<&Json>) -> (yes: bool)
    ensures
        yes == place(node).is_false(),
{
    matches!(node, Some(Json::Bool(false)))
}

/// Whether `node` holds null or is no place at all.
pub fn is_null(node: Option<&Json>) -> (yes: bool)
    ensures
        yes == (place(node) is Null),
{
    match node {
        None => true,
        Some(Json::Null) => true,
        _ => false,
    }
}

/// Whether `node` holds an object.
pub fn is_object(node: Option<&Json>) -> (yes: bool)
    ensures
        yes == (place(node) is Object),
{
    matches!(node, Some(Json::Object(_)))
}

/// The text at `node`.
pub fn as_text<'a>(node: Option<&'a Json>) -> (text: Option<&'a String>)
    ensures
        match text {
            Some(text) => place(node) == JsonTree::Text(text@),
            None => !(place(node) is Text),
        },
{
    match node {
        Some(Json::Text(text)) => Some(text),
        _ => None,
    }
}

/// Whether `node` holds the given text.
pub fn is_text(node: Option<&Json>, text: &str) -> (yes: bool)
    ensures
        yes == place(node).is_text(text@),
{
    match as_text(node) {
        Some(found) => crate::text::same_text(found.as_str(), text),
        None => false,
    }
}

/// The whole number from zero upward at `node`.
pub fn as_unsigned(node: Option<&Json>) -> (number: Option<u64>)
    ensures
        match number {
            Some(n) => place(node) == JsonTree::Unsigned(n),
            None => !(place(node) is Unsigned),
        },
{
    match node {
        Some(Json::Number(JsonNumber::Unsigned(n))) => Some(*n),
        _ => None,
    }
}

/// Whether `node` holds the given whole number.
pub fn is_number(node: Option<&Json>, n: u64) -> (yes: bool)
    ensures
        yes == place(node).is_number(n as int),
{
    match as_unsigned(node) {
        Some(found) => found == n,
        None => false,
    }
}

/// The number at `node` as a signed 64-bit integer.
pub fn as_signed(node: Option<&Json>) -> (number: Option<i64>)
    ensures
        match number {
            Some(n) => place(node).as_signed() == Some(n as int),
            None => place(node).as_signed() is None,
        },
{
    match node {
        Some(Json::Number(JsonNumber::Unsigned(n))) => if *n <= i64::MAX as u64 {
            Some(*n as i64)
        } else {
            None
        },
        Some(Json::Number(JsonNumber::Negative(n))) => Some(*n),
        _ => None,
    }
}

/// The items of the array at `node`, if it holds one.
pub fn as_array<'a>(node: Option<&'a Json>) -> (items: Option<&'a Vec<Json>>)
    ensures
        match items {
            Some(items) => {
                &&& place(node) is Array
                &&& items@.len() == place(node).items().len()
                &&& forall|i: int|
                    0 <= i < items@.len() ==> json_tree(#[trigger] items@[i]) == place(
                        node,
                    ).items()[i]
            },
            None => !(place(node) is Array),
        },
{
    match node {
        Some(Json::Array(items)) => Some(items),
        _ => None,
    }
}

/// The document type of the `serde_json` crate, carried without being looked
/// into.
#[verifier::external_type_specification]
#[verifier::external_body]
pub struct ExJsonValue(serde_json::Value);

/// The document that a `serde_json::Value` holds.
pub uninterp spec fn value_tree(value: serde_json::Value) -> JsonTree;

/// What `serde_json::from_slice` makes of `bytes`: the document that they spell
/// out, or the text of the error that it reports.
pub uninterp spec fn parsed_json(bytes: Seq<u8>) -> Result<JsonTree, Seq<char>>;

/// One level of a `serde_json::Value`, its children left as they are.
enum JsonNode {
    Null,
    Bool(bool),
    Number(Option<u64>, Option<i64>, String),
    Text(String),
    Array(Vec<serde_json::Value>),
    Object(Vec<(String, serde_json::Value)>),
}

/// The document of which `node` is the top level.
spec fn node_tree(node: JsonNode) -> JsonTree {
    match node {
        JsonNode::Null => JsonTree::Null,
        JsonNode::Bool(b) => JsonTree::Bool(b),
        JsonNode::Number(Some(n), _, _) => JsonTree::Unsigned(n),
        JsonNode::Number(None, Some(n), _) => JsonTree::Negative(n),
        JsonNode::Number(None, None, text) => JsonTree::Other(text@),
        JsonNode::Text(text) => JsonTree::Text(text@),
        JsonNode::Array(items) => JsonTree::Array(
            items@.map_values(|v: serde_json::Value| value_tree(v)),
        ),
        JsonNode::Object(fields) => JsonTree::Object(
            fields@.map_values(|f: (String, serde_json::Value)| (f.0@, value_tree(f.1))),
        ),
    }
}

/// The document or the error text of a parse.
spec fn value_outcome(parsed: Result<serde_json::Value, String>) -> Result<JsonTree, Seq<char>> {
    match parsed {
        Ok(value) => Ok(value_tree(value)),
        Err(text) => Err(text@),
    }
}

/// Calls `serde_json::from_slice` for a `serde_json::Value`. Claims that the
/// outcome depends on the bytes alone and is named by [`parsed_json`]; the
/// error is handed on as its text.
#[verifier::external_body]
fn parse_value(bytes: &[u8]) -> (parsed: Result<serde_json::Value, String>)
    ensures
        value_outcome(parsed) == parsed_json(bytes@),
{
    serde_json::from_slice::<serde_json::Value>(bytes).map_err(|error| error.to_string())
}

/// Tells the variants of `serde_json::Value` apart and moves their contents
/// out: a number as `Number::as_u64`, `Number::as_i64` and its text, an object
/// as its entries in the order of its map. Claims that what comes out is the
/// top level of the document that the value holds.
#[verifier::external_body]
fn open_value(value: serde_json::Value) -> (node: JsonNode)
    ensures
        node_tree(node) == value_tree(value),
{
    match value {
        serde_json::Value::Null => JsonNode::Null,
        serde_json::Value::Bool(b) => JsonNode::Bool(b),
        serde_json::Value::Number(n) => JsonNode::Number(n.as_u64(), n.as_i64(), n.to_string()),
        serde_json::Value::String(text) => JsonNode::Text(text),
        serde_json::Value::Array(items) => JsonNode::Array(items),
        serde_json::Value::Object(fields) => JsonNode::Object(fields.into_iter().collect()),
    }
}

/// The plain form of a `serde_json::Value`.
fn plain_json(value: serde_json::Value) -> (json: Json)
    ensures
        json_tree(json) == value_tree(value),
    decreases value_tree(value),
{
    match open_value(value) {
        JsonNode::Null => Json::Null,
        JsonNode::Bool(b) => Json::Bool(b),
        JsonNode::Number(Some(n), _, _) => Json::Number(JsonNumber::Unsigned(n)),
        JsonNode::Number(None, Some(n), _) => Json::Number(JsonNumber::Negative(n)),
        JsonNode::Number(None, None, text) => Json::Number(JsonNumber::Other(text)),
        JsonNode::Text(text) => Json::Text(text),
        JsonNode::Array(items) => {
            let ghost source = items@;
            let mut out: Vec<Json> = Vec::new();
            for item in it: items
                invariant
                    it.seq() == source,
                    out@.len() == it.index(),
                    value_tree(value) == JsonTree::Array(
                        source.map_values(|v: serde_json::Value| value_tree(v)),
                    ),
                    forall|j: int|
                        0 <= j < out@.len() ==> json_tree(out@[j]) == value_tree(source[j]),
            {
                assert(value_tree(value)->Array_0[it.index() as int] == value_tree(item));
                out.push(plain_json(item));
            }
            let json: Json = Json::Array(out);
            assert(json_tree(json)->Array_0 =~= value_tree(value)->Array_0);
            json
        },
        JsonNode::Object(fields) => {
            let ghost source = fields@;
            let mut out: Vec<(String, Json)> = Vec::new();
            for field in it: fields
                invariant
                    it.seq() == source,
                    out@.len() == it.index(),
                    value_tree(value) == JsonTree::Object(
                        source.map_values(
                            |f: (String, serde_json::Value)| (f.0@, value_tree(f.1)),
                        ),
                    ),
                    forall|j: int|
                        0 <= j < out@.len() ==> {
                            &&& out@[j].0@ == source[j].0@
                            &&& json_tree(out@[j].1) == value_tree(source[j].1)
                        },
            {
                let ghost entry = value_tree(value)->Object_0[it.index() as int];
                assert(entry == (field.0@, value_tree(field.1)));
                assert(decreases_to!(value_tree(value) => entry.1));
                out.push((field.0, plain_json(field.1)));
            }
            let json: Json = Json::Object(out);
            assert(json_tree(json)->Object_0 =~= value_tree(value)->Object_0);
            json
        },
    }
}

/// The document or the error text of a parse.
pub open spec fn json_outcome(parsed: Result<Json, String>) -> Result<JsonTree, Seq<char>> {
    match parsed {
        Ok(json) => Ok(json_tree(json)),
        Err(text) => Err(text@),
    }
}

impl Json {
    /// Reads the JSON document that `bytes` spell out.
    pub fn from_slice(bytes: &[u8]) -> (parsed: Result<Json, String>)
        ensures
            json_outcome(parsed) == parsed_json(bytes@),
    {
        match parse_value(bytes) {
            Ok(value) => Ok(plain_json(value)),
            Err(text) => Err(text),
        }
    }
}

} // verus!
