//! A plain-data picture of a parsed JSON document.
//!
//! The external parser does the parsing; the tree it returns is rebuilt one
//! node for one into [`JsonVal`], which the rest of the library reads with
//! verified accessors. `json_of` names the parse result: which document a
//! given byte string parses to depends on those bytes alone.

use vstd::prelude::*;

verus! {

/// A parsed JSON document as plain data. A number is carried as its decimal
/// text, since nothing in this library reads one.
pub enum JsonVal {
    Null,
    Bool(bool),
    Num(String),
    Str(String),
    Arr(Vec<JsonVal>),
    Obj(Vec<(String, JsonVal)>),
}

/// The document that a byte string parses to, or `None` where it is not
/// well-formed JSON.
pub uninterp spec fn json_of(bytes: Seq<u8>) -> Option<JsonVal>;

#[verifier::external_type_specification]
#[verifier::external_body]
pub struct ExValue(serde_json::Value);

/// Relies on the public variants of `serde_json::Value`: rebuilds the parsed
/// tree one node for one, a number as its decimal text. Object fields come
/// out in the parser's own deterministic (key-sorted) order.
#[verifier::external_body]
fn convert(v: serde_json::Value) -> JsonVal {
    match v {
        serde_json::Value::Null => JsonVal::Null,
        serde_json::Value::Bool(b) => JsonVal::Bool(b),
        serde_json::Value::Number(n) => JsonVal::Num(n.to_string()),
        serde_json::Value::String(s) => JsonVal::Str(s),
        serde_json::Value::Array(a) => JsonVal::Arr(a.into_iter().map(convert).collect()),
        serde_json::Value::Object(o) => JsonVal::Obj(
            o.into_iter().map(|(k, x)| (k, convert(x))).collect(),
        ),
    }
}

/// Relies on `serde_json::from_slice`: whether a byte string parses, and to
/// which document, is a function of the bytes alone.
#[verifier::external_body]
pub(crate) fn parse_json(bytes: &[u8]) -> (r: Option<JsonVal>)
    ensures
        r == json_of(bytes@),
{
    match serde_json::from_slice::<serde_json::Value>(bytes) {
        Ok(v) => Some(convert(v)),
        Err(_) => None,
    }
}

/// The field list of an object document; `None` for any other kind of node.
pub open spec fn obj_fields(v: JsonVal) -> Option<Seq<(String, JsonVal)>> {
    match v {
        JsonVal::Obj(fields) => Some(fields@),
        _ => None,
    }
}

/// The first field of `fields` whose key reads `key`.
pub open spec fn lookup_field(fields: Seq<(String, JsonVal)>, key: Seq<char>) -> Option<JsonVal>
    decreases fields.len(),
{
    if fields.len() == 0 {
        None
    } else if fields[0].0@ == key {
        Some(fields[0].1)
    } else {
        lookup_field(fields.drop_first(), key)
    }
}

/// The value under `key` where `v` is an object holding that key.
pub open spec fn field_of(v: JsonVal, key: Seq<char>) -> Option<JsonVal> {
    match obj_fields(v) {
        Some(fields) => lookup_field(fields, key),
        None => None,
    }
}

/// The text of a string node; `None` for any other kind of node.
pub open spec fn str_of(v: JsonVal) -> Option<Seq<char>> {
    match v {
        JsonVal::Str(s) => Some(s@),
        _ => None,
    }
}

/// The elements of an array node; `None` for any other kind of node.
pub open spec fn arr_of(v: JsonVal) -> Option<Seq<JsonVal>> {
    match v {
        JsonVal::Arr(elems) => Some(elems@),
        _ => None,
    }
}

/// Whether the document is an object node.
pub fn is_obj(v: &JsonVal) -> (r: bool)
    ensures
        r == (obj_fields(*v) is Some),
{
    match v {
        JsonVal::Obj(_) => true,
        _ => false,
    }
}

/// Looks `key` up in `v`, returning the value of the first field under that
/// key, or `None` where `v` is no object or holds no such key.
pub fn get_field<'a>(v: &'a JsonVal, key: &str) -> (r: Option<&'a JsonVal>)
    ensures
        (match r {
            Some(f) => field_of(*v, key@) == Some(*f),
            None => field_of(*v, key@) is None,
        }),
{
    match v {
        JsonVal::Obj(fields) => {
            let key_string: String = key.to_owned();
            let n = fields.len();
            let mut i: usize = 0;
            proof {
                assert(fields@.skip(0) =~= fields@);
            }
            while i < n
                invariant
                    i <= n,
                    n == fields@.len(),
                    key_string@ == key@,
                    obj_fields(*v) == Some(fields@),
                    lookup_field(fields@.skip(i as int), key@) == lookup_field(fields@, key@),
                decreases n - i,
            {
                let pair = &fields[i];
                if pair.0 == key_string {
                    proof {
                        assert(fields@.skip(i as int)[0] == fields@[i as int]);
                        assert(lookup_field(fields@.skip(i as int), key@)
                            == Some(fields@[i as int].1));
                    }
                    return Some(&pair.1);
                }
                proof {
                    assert(fields@.skip(i as int).drop_first() =~= fields@.skip(i + 1));
                }
                i = i + 1;
            }
            None
        },
        _ => None,
    }
}

/// The text of a string node.
pub fn get_str<'a>(v: &'a JsonVal) -> (r: Option<&'a String>)
    ensures
        (match r {
            Some(s) => str_of(*v) == Some(s@),
            None => str_of(*v) is None,
        }),
{
    match v {
        JsonVal::Str(s) => Some(s),
        _ => None,
    }
}

/// The elements of an array node.
pub fn get_arr<'a>(v: &'a JsonVal) -> (r: Option<&'a Vec<JsonVal>>)
    ensures
        (match r {
            Some(elems) => arr_of(*v) == Some(elems@),
            None => arr_of(*v) is None,
        }),
{
    match v {
        JsonVal::Arr(elems) => Some(elems),
        _ => None,
    }
}

} // verus!
