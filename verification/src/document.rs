//! JSON documents that belong to somebody else: settings files of which wally
//! reads and writes a few members and leaves the rest as it is.
//!
//! A document is a `serde_json::Value`. What it holds is seen through three
//! names: whether it is an object, the members of the object with the compact
//! JSON text of each, and the items of those members that are arrays.

use crate::text;
use vstd::prelude::*;

verus! {

/// A JSON value of `serde_json`.
#[verifier::external_type_specification]
#[verifier::external_body]
pub struct ExValue(serde_json::Value);

/// Whether a document is an object.
pub uninterp spec fn is_object(doc: serde_json::Value) -> bool;

/// The members of an object, each with the compact text of its value. A
/// document that is no object has none.
pub uninterp spec fn members(doc: serde_json::Value) -> Map<Seq<char>, Seq<char>>;

/// The members of an object that are arrays, item by item: the text under the
/// item's own "id", where it is an object with one, and the item's compact text.
pub uninterp spec fn lists(doc: serde_json::Value) -> Map<Seq<char>, Seq<(Option<Seq<char>>, Seq<char>)>>;

/// No members at all.
pub open spec fn no_members() -> Map<Seq<char>, Seq<char>> {
    Map::empty()
}

/// No members that are arrays.
pub open spec fn no_lists() -> Map<Seq<char>, Seq<(Option<Seq<char>>, Seq<char>)>> {
    Map::empty()
}

/// What `serde_json::from_slice` reads from bytes: nothing where they are no
/// JSON, else whether the document is an object, and its members.
pub uninterp spec fn read_json(bytes: Seq<u8>) -> Option<(bool, Map<Seq<char>, Seq<char>>)>;

/// What `serde_json::from_str` reads from a text: whether the document is an
/// object, its members and those of them that are arrays, or the reader's
/// message where the text is no JSON.
pub uninterp spec fn read_text(text: Seq<char>) -> Result<
    (bool, Map<Seq<char>, Seq<char>>, Map<Seq<char>, Seq<(Option<Seq<char>>, Seq<char>)>>),
    Seq<char>,
>;

/// The compact text of a JSON string.
pub uninterp spec fn string_json(s: Seq<char>) -> Seq<char>;

/// The compact text of a member that is a string.
pub open spec fn member_json(key: Seq<char>, value: Seq<char>) -> Seq<char> {
    string_json(key).push(':') + string_json(value)
}

/// The compact text of an object made of two members that are strings: the
/// members in the order of their keys; the second wins where these are the same.
pub open spec fn pair_json(pair: (Seq<char>, Seq<char>, Seq<char>, Seq<char>)) -> Seq<char> {
    let first = member_json(pair.0, pair.1);
    let second = member_json(pair.2, pair.3);
    seq!['{'] + (if pair.0 == pair.2 {
        second
    } else if text::text_less(pair.0, pair.2) {
        first.push(',') + second
    } else {
        second.push(',') + first
    }) + seq!['}']
}

/// The text under "id" of an object made of two members; the second wins where
/// the keys are the same.
pub open spec fn pair_id(pair: (Seq<char>, Seq<char>, Seq<char>, Seq<char>)) -> Option<Seq<char>> {
    if pair.2 == "id"@ {
        Some(pair.3)
    } else if pair.0 == "id"@ {
        Some(pair.1)
    } else {
        None
    }
}

/// The texts of the items of an array, with commas between them.
pub open spec fn joined_items(items: Seq<(Option<Seq<char>>, Seq<char>)>) -> Seq<char>
    decreases items.len(),
{
    if items.len() == 0 {
        Seq::empty()
    } else if items.len() == 1 {
        items[0].1
    } else {
        joined_items(items.drop_last()).push(',') + items.last().1
    }
}

/// The compact text of an array.
pub open spec fn list_json(items: Seq<(Option<Seq<char>>, Seq<char>)>) -> Seq<char> {
    seq!['['] + joined_items(items) + seq![']']
}

/// What is known of a document: its members, and those that are arrays.
pub open spec fn contents(doc: serde_json::Value) -> (
    Map<Seq<char>, Seq<char>>,
    Map<Seq<char>, Seq<(Option<Seq<char>>, Seq<char>)>>,
) {
    (members(doc), lists(doc))
}

/// A document with a member that is no array put under a key.
pub open spec fn with_value(
    doc: (Map<Seq<char>, Seq<char>>, Map<Seq<char>, Seq<(Option<Seq<char>>, Seq<char>)>>),
    key: Seq<char>,
    json: Seq<char>,
) -> (Map<Seq<char>, Seq<char>>, Map<Seq<char>, Seq<(Option<Seq<char>>, Seq<char>)>>) {
    (doc.0.insert(key, json), doc.1.remove(key))
}

/// A document with an array put under a key.
pub open spec fn with_list(
    doc: (Map<Seq<char>, Seq<char>>, Map<Seq<char>, Seq<(Option<Seq<char>>, Seq<char>)>>),
    key: Seq<char>,
    items: Seq<(Option<Seq<char>>, Seq<char>)>,
) -> (Map<Seq<char>, Seq<char>>, Map<Seq<char>, Seq<(Option<Seq<char>>, Seq<char>)>>) {
    (doc.0.insert(key, list_json(items)), doc.1.insert(key, items))
}

/// A document without a member.
pub open spec fn without(
    doc: (Map<Seq<char>, Seq<char>>, Map<Seq<char>, Seq<(Option<Seq<char>>, Seq<char>)>>),
    key: Seq<char>,
) -> (Map<Seq<char>, Seq<char>>, Map<Seq<char>, Seq<(Option<Seq<char>>, Seq<char>)>>) {
    (doc.0.remove(key), doc.1.remove(key))
}

/// The text of a truth value.
pub open spec fn bool_json(value: bool) -> Seq<char> {
    if value {
        "true"@
    } else {
        "false"@
    }
}

/// `serde_json::Map::new` in a `Value::Object`: an object without members.
#[verifier::external_body]
pub(crate) fn empty_object() -> (doc: serde_json::Value)
    ensures
        is_object(doc),
        members(doc) == no_members(),
        lists(doc) == no_lists(),
{
    serde_json::Value::Object(serde_json::Map::new())
}

/// `serde_json::from_slice`: the document that the bytes write, or the reader's
/// message. The message is not described.
#[verifier::external_body]
pub(crate) fn parse(bytes: &[u8]) -> (r: Result<serde_json::Value, String>)
    ensures
        match read_json(bytes@) {
            Some(read) => r is Ok && is_object(r->Ok_0) == read.0 && members(r->Ok_0) == read.1,
            None => r is Err,
        },
{
    serde_json::from_slice(bytes).map_err(|e: serde_json::Error| e.to_string())
}

/// `serde_json::from_str`: the document that the text writes, or the reader's
/// message.
#[verifier::external_body]
pub(crate) fn parse_text(text: &str) -> (r: Result<serde_json::Value, String>)
    ensures
        match read_text(text@) {
            Ok(read) => r is Ok && is_object(r->Ok_0) == read.0 && contents(r->Ok_0) == (read.1, read.2),
            Err(message) => r is Err && r->Err_0@ == message,
        },
{
    serde_json::from_str(text).map_err(|e: serde_json::Error| e.to_string())
}

/// `Value::is_object`.
#[verifier::external_body]
pub(crate) fn object(doc: &serde_json::Value) -> (r: bool)
    ensures
        r == is_object(*doc),
{
    doc.is_object()
}

/// `Value::get`: whether an object has a member of that name.
#[verifier::external_body]
pub(crate) fn has_member(doc: &serde_json::Value, key: &str) -> (r: bool)
    ensures
        r == members(*doc).contains_key(key@),
{
    doc.get(key).is_some()
}

/// `Value::get` and `Value::as_str`: the text of a member that is a string. Two
/// strings with the same JSON text are the same.
#[verifier::external_body]
pub(crate) fn text_member(doc: &serde_json::Value, key: &str) -> (r: Option<String>)
    ensures
        match r {
            Some(s) => members(*doc).contains_key(key@) && members(*doc)[key@] == string_json(s@) && forall|t: Seq<char>|
                #[trigger] string_json(t) == members(*doc)[key@] ==> t == s@,
            None => forall|t: Seq<char>| members(*doc).contains_key(key@) ==> members(*doc)[key@] != #[trigger] string_json(t),
        },
{
    doc.get(key).and_then(serde_json::Value::as_str).map(String::from)
}

/// `Map::is_empty`: whether an object has no members.
#[verifier::external_body]
pub(crate) fn has_no_members(doc: &serde_json::Value) -> (r: bool)
    requires
        is_object(*doc),
    ensures
        r == (members(*doc) == no_members()),
{
    doc.as_object().map_or(true, serde_json::Map::is_empty)
}

/// `IndexMut` on an object: puts a string under a key, in place of what was
/// there.
#[verifier::external_body]
pub(crate) fn put_text(doc: &mut serde_json::Value, key: &str, text: &str)
    requires
        is_object(*old(doc)),
    ensures
        is_object(*final(doc)),
        contents(*final(doc)) == with_value(contents(*old(doc)), key@, string_json(text@)),
{
    doc[key] = serde_json::Value::String(text.to_string());
}

/// `IndexMut` on an object: puts a truth value under a key, in place of what
/// was there.
#[verifier::external_body]
pub(crate) fn put_bool(doc: &mut serde_json::Value, key: &str, value: bool)
    requires
        is_object(*old(doc)),
    ensures
        is_object(*final(doc)),
        contents(*final(doc)) == with_value(contents(*old(doc)), key@, bool_json(value)),
{
    doc[key] = serde_json::Value::Bool(value);
}

/// `Map::remove`: takes a member out of an object.
#[verifier::external_body]
pub(crate) fn remove_member(doc: &mut serde_json::Value, key: &str)
    requires
        is_object(*old(doc)),
    ensures
        is_object(*final(doc)),
        contents(*final(doc)) == without(contents(*old(doc)), key@),
{
    if let Some(map) = doc.as_object_mut() {
        map.remove(key);
    }
}

/// `IndexMut` on an object: puts an array without items under a key, in place
/// of what was there.
#[verifier::external_body]
pub(crate) fn put_empty_list(doc: &mut serde_json::Value, key: &str)
    requires
        is_object(*old(doc)),
    ensures
        is_object(*final(doc)),
        contents(*final(doc)) == with_list(contents(*old(doc)), key@, Seq::empty()),
{
    doc[key] = serde_json::Value::Array(Vec::new());
}

/// `Value::get` and `Value::as_array`: how many items a member that is an array
/// has. The text of such a member is made of the texts of its items.
#[verifier::external_body]
pub(crate) fn list_len(doc: &serde_json::Value, key: &str) -> (r: Option<usize>)
    ensures
        match r {
            Some(n) => lists(*doc).contains_key(key@) && lists(*doc)[key@].len() == n && members(*doc).contains_key(key@)
                && members(*doc)[key@] == list_json(lists(*doc)[key@]),
            None => !lists(*doc).contains_key(key@),
        },
{
    doc.get(key).and_then(serde_json::Value::as_array).map(Vec::len)
}

/// `Value::get` and `Value::as_str`: the text under "id" of an item of an array.
#[verifier::external_body]
pub(crate) fn item_id(doc: &serde_json::Value, key: &str, i: usize) -> (r: Option<String>)
    requires
        lists(*doc).contains_key(key@),
        i < lists(*doc)[key@].len(),
    ensures
        match lists(*doc)[key@][i as int].0 {
            Some(id) => r is Some && r->0@ == id,
            None => r is None,
        },
{
    doc[key][i].get("id").and_then(serde_json::Value::as_str).map(String::from)
}

/// `Vec::remove` on the items of a member that is an array; the other members
/// stay.
#[verifier::external_body]
pub(crate) fn remove_item(doc: &mut serde_json::Value, key: &str, i: usize)
    requires
        lists(*old(doc)).contains_key(key@),
        i < lists(*old(doc))[key@].len(),
    ensures
        is_object(*final(doc)) == is_object(*old(doc)),
        contents(*final(doc)) == with_list(contents(*old(doc)), key@, lists(*old(doc))[key@].remove(i as int)),
{
    if let Some(items) = doc[key].as_array_mut() {
        items.remove(i);
    }
}

/// `Vec::push` on the items of a member that is an array: a string. The other
/// members stay.
#[verifier::external_body]
pub(crate) fn push_text(doc: &mut serde_json::Value, key: &str, text: &str)
    requires
        lists(*old(doc)).contains_key(key@),
    ensures
        is_object(*final(doc)) == is_object(*old(doc)),
        contents(*final(doc)) == with_list(
            contents(*old(doc)),
            key@,
            lists(*old(doc))[key@].push((None, string_json(text@))),
        ),
{
    if let Some(items) = doc[key].as_array_mut() {
        items.push(serde_json::Value::String(text.to_string()));
    }
}

/// `Vec::push` on the items of a member that is an array: an object with two
/// members that are strings. The other members stay.
#[verifier::external_body]
pub(crate) fn push_pair(doc: &mut serde_json::Value, key: &str, k1: &str, v1: &str, k2: &str, v2: &str)
    requires
        lists(*old(doc)).contains_key(key@),
    ensures
        is_object(*final(doc)) == is_object(*old(doc)),
        contents(*final(doc)) == with_list(
            contents(*old(doc)),
            key@,
            lists(*old(doc))[key@].push((pair_id((k1@, v1@, k2@, v2@)), pair_json((k1@, v1@, k2@, v2@)))),
        ),
{
    let mut item = serde_json::Map::new();
    item.insert(k1.to_string(), serde_json::Value::String(v1.to_string()));
    item.insert(k2.to_string(), serde_json::Value::String(v2.to_string()));
    if let Some(items) = doc[key].as_array_mut() {
        items.push(serde_json::Value::Object(item));
    }
}

} // verus!
