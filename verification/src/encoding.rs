//! The three text layers of a token, as far as the library relies on them:
//! base64 from the `base64` crate, UTF-8 from std, JSON from `serde_json`.
//! Every function here with a body that is not verified says above it what
//! is taken on trust.

use vstd::prelude::*;
use vstd::utf8::*;

verus! {

/// The shape of a JSON value. Numbers other than unsigned integers are not
/// told apart: nothing in this library reads them.
pub enum JsonModel {
    Null,
    Flag(bool),
    Unsigned(u64),
    OtherNumber,
    Text(Seq<char>),
    Array(Seq<JsonModel>),
    Object(Map<Seq<char>, JsonModel>),
}

/// `serde_json::Value`, carried through as an opaque value: what the library
/// knows of one it knows through `json_of`.
#[verifier::external_type_specification]
#[verifier::external_body]
pub struct ExJsonValue(serde_json::Value);

/// The shape of a `serde_json::Value`.
pub uninterp spec fn json_of(v: serde_json::Value) -> JsonModel;

/// What `serde_json::from_str` makes of a text: the shape of the parsed value,
/// or `None` where the text is not one JSON value.
pub uninterp spec fn json_document(text: Seq<char>) -> Option<JsonModel>;

/// What `base64::encode` returns for the given bytes.
pub uninterp spec fn base64_text(bytes: Seq<u8>) -> Seq<char>;

/// What `base64::decode` makes of a text: the bytes it returns, or `None`
/// where it returns an error.
pub uninterp spec fn base64_bytes(text: Seq<char>) -> Option<Seq<u8>>;

/// The member of an object under a key, if the value is an object that has it.
pub open spec fn member_of(j: JsonModel, key: Seq<char>) -> Option<JsonModel> {
    match j {
        JsonModel::Object(m) => if m.contains_key(key) {
            Some(m[key])
        } else {
            None
        },
        _ => None,
    }
}

/// A text or an unsigned integer.
pub open spec fn is_leaf(j: JsonModel) -> bool {
    j is Text || j is Unsigned
}

/// An object whose members are all texts and unsigned integers.
pub open spec fn is_record(j: JsonModel) -> bool {
    match j {
        JsonModel::Object(m) => forall|k: Seq<char>| m.contains_key(k) ==> is_leaf(#[trigger] m[k]),
        _ => false,
    }
}

/// An array of records.
pub open spec fn is_table(j: JsonModel) -> bool {
    match j {
        JsonModel::Array(items) => forall|i: int|
            0 <= i < items.len() ==> is_record(#[trigger] items[i]),
        _ => false,
    }
}

/// An object whose members are texts, unsigned integers, records and arrays
/// of records: at most four levels deep.
pub open spec fn is_shallow(j: JsonModel) -> bool {
    match j {
        JsonModel::Object(m) => forall|k: Seq<char>|
            m.contains_key(k) ==> {
                let x = #[trigger] m[k];
                is_leaf(x) || is_record(x) || is_table(x)
            },
        _ => false,
    }
}

/// The shapes of a sequence of values, in order.
pub open spec fn json_items(items: Seq<serde_json::Value>) -> Seq<JsonModel> {
    Seq::new(items.len(), |i: int| json_of(items[i]))
}

/// The object that holds the pairs.
pub open spec fn members_map(pairs: Seq<(String, serde_json::Value)>) -> Map<Seq<char>, JsonModel>
    decreases pairs.len(),
{
    if pairs.len() == 0 {
        Map::empty()
    } else {
        members_map(pairs.drop_last()).insert(pairs.last().0@, json_of(pairs.last().1))
    }
}

/// `base64::encode` with the standard alphabet and padding. Trusted: the result
/// is the named encoding of the bytes, and `base64::decode` gives the bytes back.
#[verifier::external_body]
pub(crate) fn base64_encode(data: &[u8]) -> (r: String)
    ensures
        r@ == base64_text(data@),
        base64_bytes(r@) == Some(data@),
{
    base64::encode(data)
}

/// `base64::decode`. Trusted: the result is the named decoding of the text.
#[verifier::external_body]
pub(crate) fn base64_decode(text: &str) -> (r: Option<Vec<u8>>)
    ensures
        match r {
            Some(bytes) => base64_bytes(text@) == Some(bytes@),
            None => base64_bytes(text@) is None,
        },
{
    base64::decode(text).ok()
}

/// `String::from_utf8`. Trusted: it succeeds exactly on well-formed UTF-8 and
/// then holds the characters that the bytes encode.
#[verifier::external_body]
pub(crate) fn text_from_utf8(bytes: Vec<u8>) -> (r: Option<String>)
    ensures
        match r {
            Some(s) => valid_utf8(bytes@) && s@ == decode_utf8(bytes@),
            None => !valid_utf8(bytes@),
        },
{
    String::from_utf8(bytes).ok()
}

/// `serde_json::from_str` to a `Value`. Trusted: the result is the named
/// parse of the text.
#[verifier::external_body]
pub(crate) fn json_parse(text: &str) -> (r: Option<serde_json::Value>)
    ensures
        match r {
            Some(v) => json_document(text@) == Some(json_of(v)),
            None => json_document(text@) is None,
        },
{
    serde_json::from_str::<serde_json::Value>(text).ok()
}

/// `Value`'s `Display`, the compact JSON text. Trusted: parsing the text gives
/// a value of the same shape. Claimed only of shallow objects, far from the
/// depth at which the parser gives up.
#[verifier::external_body]
pub(crate) fn json_print(v: &serde_json::Value) -> (r: String)
    requires
        is_shallow(json_of(*v)),
    ensures
        json_document(r@) == Some(json_of(*v)),
{
    v.to_string()
}

/// `Value::get` with a string key. Trusted: the member of an object under the
/// key; `None` for a missing key and for anything but an object.
#[verifier::external_body]
pub(crate) fn json_member<'a>(v: &'a serde_json::Value, key: &str) -> (r: Option<&'a serde_json::Value>)
    ensures
        match r {
            Some(x) => member_of(json_of(*v), key@) == Some(json_of(*x)),
            None => member_of(json_of(*v), key@) is None,
        },
{
    v.get(key)
}

/// `Value::as_str`. Trusted: the text of a string value, `None` for any other.
#[verifier::external_body]
pub(crate) fn json_as_text<'a>(v: &'a serde_json::Value) -> (r: Option<&'a str>)
    ensures
        match r {
            Some(s) => json_of(*v) == JsonModel::Text(s@),
            None => !(json_of(*v) is Text),
        },
{
    v.as_str()
}

/// `Value::as_u64`. Trusted: the number of an unsigned integer value, `None`
/// for any other.
#[verifier::external_body]
pub(crate) fn json_as_unsigned(v: &serde_json::Value) -> (r: Option<u64>)
    ensures
        match r {
            Some(n) => json_of(*v) == JsonModel::Unsigned(n),
            None => !(json_of(*v) is Unsigned),
        },
{
    v.as_u64()
}

/// `Value::as_array`. Trusted: the items of an array value, `None` for any
/// other.
#[verifier::external_body]
pub(crate) fn json_as_items<'a>(v: &'a serde_json::Value) -> (r: Option<&'a Vec<serde_json::Value>>)
    ensures
        match r {
            Some(items) => json_of(*v) == JsonModel::Array(json_items(items@)),
            None => !(json_of(*v) is Array),
        },
{
    v.as_array()
}

/// `Value::from` a `String`. Trusted: a string value with that text.
#[verifier::external_body]
pub(crate) fn json_from_text(text: String) -> (r: serde_json::Value)
    ensures
        json_of(r) == JsonModel::Text(text@),
{
    serde_json::Value::from(text)
}

/// `Value::from` a `u64`. Trusted: an unsigned integer value with that number.
#[verifier::external_body]
pub(crate) fn json_from_unsigned(n: u64) -> (r: serde_json::Value)
    ensures
        json_of(r) == JsonModel::Unsigned(n),
{
    serde_json::Value::from(n)
}

/// `Value::from` a `Vec<Value>`. Trusted: an array value with those items.
#[verifier::external_body]
pub(crate) fn json_from_items(items: Vec<serde_json::Value>) -> (r: serde_json::Value)
    ensures
        json_of(r) == JsonModel::Array(json_items(items@)),
{
    serde_json::Value::from(items)
}

/// `Value::from_iter` over key and value pairs with distinct keys. Trusted: an
/// object value that holds exactly the pairs.
#[verifier::external_body]
pub(crate) fn json_from_members(pairs: Vec<(String, serde_json::Value)>) -> (r: serde_json::Value)
    requires
        forall|i: int, j: int| 0 <= i < j < pairs.len() ==> pairs[i].0@ != pairs[j].0@,
    ensures
        json_of(r) == JsonModel::Object(members_map(pairs@)),
{
    serde_json::Value::from_iter(pairs)
}

} // verus!
