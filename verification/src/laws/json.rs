//! Places in a document and what they hold.
use vstd::prelude::*;

use crate::json;
use crate::json::{Json, JsonNumber, JsonTree};

verus! {

/// The content of a document is that of its parts: literals, numbers and texts
/// are what they are, lists and objects keep their order and their names.
pub proof fn law_content(document: Json)
    ensures
        match document {
            Json::Null => json::json_tree(document) == JsonTree::Null,
            Json::Bool(yes) => json::json_tree(document) == JsonTree::Bool(yes),
            Json::Number(JsonNumber::Unsigned(n)) => json::json_tree(document)
                == JsonTree::Unsigned(n),
            Json::Number(JsonNumber::Negative(n)) => json::json_tree(document)
                == JsonTree::Negative(n),
            Json::Number(JsonNumber::Other(digits)) => json::json_tree(document)
                == JsonTree::Other(digits@),
            Json::Text(text) => json::json_tree(document) == JsonTree::Text(text@),
            Json::Array(items) => json::json_tree(document) matches JsonTree::Array(parts)
                && parts.len() == items@.len() && forall|i: int|
                0 <= i < items@.len() ==> #[trigger] parts[i] == json::json_tree(items@[i]),
            Json::Object(fields) => json::json_tree(document) matches JsonTree::Object(parts)
                && parts.len() == fields@.len() && forall|i: int|
                0 <= i < fields@.len() ==> #[trigger] parts[i] == (
                    fields@[i].0@,
                    json::json_tree(fields@[i].1),
                ),
        },
{
}

/// Bytes are read as the document that they spell out, or not at all, for the
/// reason that the parser gives.
pub proof fn law_document_read(bytes: &[u8], read: Result<Json, String>)
    requires
        call_ensures(Json::from_slice, (bytes,), read),
    ensures
        match (json::parsed_json(bytes@), read) {
            (Ok(tree), Ok(document)) => json::json_tree(document) == tree,
            (Err(why), Err(reason)) => reason@ == why,
            _ => false,
        },
{
    assert(json::json_outcome(read) == json::parsed_json(bytes@));
}

/// A member is the value of the first field of that name. There is none in an
/// object without such a field, and none in anything else.
pub proof fn law_member(
    document: Json,
    key: &str,
    found: Option<&Json>,
)
    requires
        call_ensures(json::member, (Some(&document), key), found),
    ensures
        document matches Json::Object(fields) ==> ({
            &&& forall|i: int|
                0 <= i < fields@.len() && (#[trigger] fields@[i]).0@ == key@ && (forall|j: int|
                    0 <= j < i ==> (#[trigger] fields@[j]).0@ != key@) ==> json::place(found)
                    == json::json_tree(fields@[i].1)
            &&& (forall|j: int| 0 <= j < fields@.len() ==> (#[trigger] fields@[j]).0@ != key@)
                ==> json::place(found) == JsonTree::Null
        }),
        !(document is Object) ==> json::place(found) == JsonTree::Null,
        json::place(found) == json::json_tree(document).at(key@),
{
    if let Json::Object(fields) = document {
        let parts = json::json_tree(document)->Object_0;
        lemma_lookup(parts, key@);
        assert forall|i: int|
            0 <= i < fields@.len() && (#[trigger] fields@[i]).0@ == key@ && (forall|j: int|
                0 <= j < i ==> (#[trigger] fields@[j]).0@ != key@) implies json::place(found)
            == json::json_tree(fields@[i].1) by {
            assert(parts[i] == (fields@[i].0@, json::json_tree(fields@[i].1)));
            assert forall|j: int| 0 <= j < i implies (#[trigger] parts[j]).0 != key@ by {
                assert(parts[j] == (fields@[j].0@, json::json_tree(fields@[j].1)));
            }
        }
        if forall|j: int| 0 <= j < fields@.len() ==> (#[trigger] fields@[j]).0@ != key@ {
            assert forall|j: int| 0 <= j < parts.len() implies (#[trigger] parts[j]).0 != key@ by {
                assert(parts[j] == (fields@[j].0@, json::json_tree(fields@[j].1)));
            }
        }
    }
}

/// There is no member of no place.
pub proof fn law_no_member_of_nothing(key: &str, found: Option<&Json>)
    requires
        call_ensures(json::member, (None::<&Json>, key), found),
    ensures
        json::place(found) == JsonTree::Null,
{
}

/// What a place holds is told by its content alone: each literal, a text, a
/// whole number from zero up, one with a sign.
pub proof fn law_tests(
    document: Json,
    truth: bool,
    falsehood: bool,
    null: bool,
    object: bool,
    number: Option<u64>,
    signed: Option<i64>,
)
    requires
        call_ensures(json::is_true, (Some(&document),), truth),
        call_ensures(json::is_false, (Some(&document),), falsehood),
        call_ensures(json::is_null, (Some(&document),), null),
        call_ensures(json::is_object, (Some(&document),), object),
        call_ensures(json::as_unsigned, (Some(&document),), number),
        call_ensures(json::as_signed, (Some(&document),), signed),
    ensures
        truth <==> document == Json::Bool(true),
        falsehood <==> document == Json::Bool(false),
        null <==> document is Null,
        object <==> document is Object,
        number == match document {
            Json::Number(JsonNumber::Unsigned(n)) => Some(n),
            _ => None,
        },
        match (document, signed) {
            (Json::Number(JsonNumber::Unsigned(n)), Some(m)) => n == m,
            (Json::Number(JsonNumber::Unsigned(n)), None) => n >= 0x8000_0000_0000_0000,
            (Json::Number(JsonNumber::Negative(n)), Some(m)) => n == m,
            (Json::Number(JsonNumber::Negative(_)), None) => false,
            (_, Some(_)) => false,
            (_, None) => true,
        },
{
}

/// A text, a number and a list are compared and given out as they are.
pub proof fn law_contents(
    document: Json,
    text: Option<&String>,
    wanted: &str,
    same: bool,
    n: u64,
    equal: bool,
    items: Option<&Vec<Json>>,
)
    requires
        call_ensures(json::as_text, (Some(&document),), text),
        call_ensures(json::is_text, (Some(&document), wanted), same),
        call_ensures(json::is_number, (Some(&document), n), equal),
        call_ensures(json::as_array, (Some(&document),), items),
    ensures
        match (document, text) {
            (Json::Text(held), Some(given)) => given@ == held@,
            (Json::Text(_), None) => false,
            (_, given) => given is None,
        },
        same <==> (document matches Json::Text(held) && held@ == wanted@),
        equal <==> document == Json::Number(JsonNumber::Unsigned(n)),
        match (document, items) {
            (Json::Array(held), Some(given)) => given@.len() == held@.len() && forall|i: int|
                0 <= i < held@.len() ==> json::json_tree(#[trigger] given@[i]) == json::json_tree(
                    held@[i],
                ),
            (Json::Array(_), None) => false,
            (_, given) => given is None,
        },
{
}

proof fn lemma_lookup(parts: Seq<(Seq<char>, JsonTree)>, key: Seq<char>)
    ensures
        forall|i: int|
            0 <= i < parts.len() && (#[trigger] parts[i]).0 == key && (forall|j: int|
                0 <= j < i ==> (#[trigger] parts[j]).0 != key) ==> json::lookup(parts, key)
                == parts[i].1,
        (forall|j: int| 0 <= j < parts.len() ==> (#[trigger] parts[j]).0 != key) ==> json::lookup(
            parts,
            key,
        ) == JsonTree::Null,
    decreases parts.len(),
{
    if parts.len() > 0 {
        let rest = parts.drop_first();
        lemma_lookup(rest, key);
        if parts[0].0 != key {
            assert forall|i: int|
                0 <= i < parts.len() && (#[trigger] parts[i]).0 == key && (forall|j: int|
                    0 <= j < i ==> (#[trigger] parts[j]).0 != key) implies json::lookup(parts, key)
                == parts[i].1 by {
                assert(rest[i - 1] == parts[i]);
                assert forall|j: int| 0 <= j < i - 1 implies (#[trigger] rest[j]).0 != key by {
                    assert(rest[j] == parts[j + 1]);
                }
            }
            if forall|j: int| 0 <= j < parts.len() ==> (#[trigger] parts[j]).0 != key {
                assert forall|j: int| 0 <= j < rest.len() implies (#[trigger] rest[j]).0 != key by {
                    assert(rest[j] == parts[j + 1]);
                }
            }
        }
    }
}

} // verus!
