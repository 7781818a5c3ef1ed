//! JSON values as the library reads them, and the rules by which a JSON value
//! is read as one of the wire records.
//!
//! Text is turned into a [`Json`] by `serde_json`; everything after that (which
//! fields a record needs, which may be absent or `null`, what a number must be)
//! is decided here, by the same rules the records' `serde` derivations follow.

use vstd::prelude::*;

verus! {

/// A JSON number, kept exactly as the parser read it.
#[derive(Debug, Clone, Copy, PartialEq, Eq)]
pub enum JsonNumber {
    /// A non-negative integer.
    PosInt(u64),
    /// A negative integer.
    NegInt(i64),
    /// Any other number, by the bits of its IEEE 754 double.
    Float(u64),
}

/// A parsed JSON value. An object's entries keep the order the parser gave
/// them, and no key occurs twice.
#[derive(Debug, PartialEq, Eq)]
pub enum Json {
    Null,
    Bool(bool),
    Number(JsonNumber),
    Str(String),
    Array(Vec<Json>),
    Object(Vec<(String, Json)>),
}

/// The value `serde_json` parses `text` into, or `None` when `text` is not JSON.
pub uninterp spec fn parsed_json(text: Seq<char>) -> Option<Json>;

/// A lower-case hexadecimal digit.
pub open spec fn hex_digit(v: int) -> char {
    if v < 10 {
        (48 + v) as char
    } else {
        (87 + v) as char
    }
}

/// How `serde_json` writes one character inside a string literal: `"` and
/// `\` behind a backslash; backspace, tab, line feed, form feed and carriage
/// return as `\b`, `\t`, `\n`, `\f`, `\r`; every other control character
/// below `U+0020` as `\u00` and two lower-case hex digits; anything else as
/// it is.
pub open spec fn json_escape_char(c: char) -> Seq<char> {
    let u = c as u32;
    if c == '"' {
        seq!['\\', '"']
    } else if c == '\\' {
        seq!['\\', '\\']
    } else if u == 8 {
        seq!['\\', 'b']
    } else if u == 9 {
        seq!['\\', 't']
    } else if u == 10 {
        seq!['\\', 'n']
    } else if u == 12 {
        seq!['\\', 'f']
    } else if u == 13 {
        seq!['\\', 'r']
    } else if u < 32 {
        seq!['\\', 'u', '0', '0', hex_digit((u / 16) as int), hex_digit((u % 16) as int)]
    } else {
        seq![c]
    }
}

/// The characters of `s`, each escaped as [`json_escape_char`] says.
pub open spec fn json_escaped(s: Seq<char>) -> Seq<char>
    decreases s.len(),
{
    if s.len() == 0 {
        Seq::empty()
    } else {
        json_escape_char(s[0]) + json_escaped(s.drop_first())
    }
}

/// The JSON string literal `serde_json` writes for `s`: its escaped
/// characters between double quotes.
pub open spec fn json_string_literal(s: Seq<char>) -> Seq<char> {
    seq!['"'] + json_escaped(s) + seq!['"']
}

/// `serde_json::from_str::<serde_json::Value>`: parses `text` as one JSON value.
#[verifier::external_body]
pub fn parse_json(text: &str) -> (r: Option<Json>)
    ensures
        r == parsed_json(text@),
{
    serde_json::from_str::<serde_json::Value>(text).ok().map(json_from_value)
}

/// `serde_json`'s parsed JSON value, carried only from the parser to the
/// conversion below.
#[verifier::external_type_specification]
#[verifier::external_body]
pub struct ExJsonValue(serde_json::Value);

/// `serde_json`'s number, carried only into the conversion below.
#[verifier::external_type_specification]
#[verifier::external_body]
pub struct ExJsonNumber(serde_json::Number);

/// Moves a `serde_json::Value` into a [`Json`], variant by variant.
#[verifier::external_body]
fn json_from_value(v: serde_json::Value) -> Json {
    match v {
        serde_json::Value::Null => Json::Null,
        serde_json::Value::Bool(b) => Json::Bool(b),
        serde_json::Value::Number(n) => Json::Number(json_number(n)),
        serde_json::Value::String(s) => Json::Str(s),
        serde_json::Value::Array(a) => Json::Array(a.into_iter().map(json_from_value).collect()),
        serde_json::Value::Object(m) => Json::Object(
            m.into_iter().map(|(k, x)| (k, json_from_value(x))).collect(),
        ),
    }
}

/// Moves a `serde_json::Number` into a [`JsonNumber`]: a non-negative
/// integer, a negative one, or the bits of the double it holds.
#[verifier::external_body]
fn json_number(n: serde_json::Number) -> JsonNumber {
    match (n.as_u64(), n.as_i64()) {
        (Some(u), _) => JsonNumber::PosInt(u),
        (None, Some(i)) => JsonNumber::NegInt(i),
        (None, None) => JsonNumber::Float(n.as_f64().map(|x| x.to_bits()).unwrap_or(0)),
    }
}

/// `serde_json::to_string(s)`: `s` as a JSON string literal.
#[verifier::external_body]
pub fn quote_json(s: &str) -> (r: String)
    ensures
        r@ == json_string_literal(s@),
{
    serde_json::Value::String(s.to_owned()).to_string()
}

/// Where the first entry named `key` sits in `fields`, or `fields.len()`.
pub open spec fn key_index(fields: Seq<(String, Json)>, key: Seq<char>) -> int
    decreases fields.len(),
{
    if fields.len() == 0 {
        0
    } else if fields[0].0@ == key {
        0
    } else {
        1 + key_index(fields.drop_first(), key)
    }
}

proof fn lemma_key_index(fields: Seq<(String, Json)>, key: Seq<char>)
    ensures
        0 <= key_index(fields, key) <= fields.len(),
        forall|k: int| 0 <= k < key_index(fields, key) ==> fields[k].0@ != key,
        key_index(fields, key) < fields.len() ==> fields[key_index(fields, key)].0@ == key,
    decreases fields.len(),
{
    if fields.len() > 0 && fields[0].0@ != key {
        lemma_key_index(fields.drop_first(), key);
        assert forall|k: int| 0 <= k < key_index(fields, key) implies fields[k].0@ != key by {
            if k > 0 {
                assert(fields[k] == fields.drop_first()[k - 1]);
            }
        }
    }
}

/// The value of the entry named `key`, if the object has one.
pub open spec fn lookup(fields: Seq<(String, Json)>, key: Seq<char>) -> Option<Json> {
    let i = key_index(fields, key);
    if i < fields.len() {
        Some(fields[i].1)
    } else {
        None
    }
}

/// Where the entry named `key` sits in `fields`.
pub fn find_key(fields: &Vec<(String, Json)>, key: &str) -> (r: usize)
    ensures
        r == key_index(fields@, key@),
{
    let mut i: usize = 0;
    while i < fields.len()
        invariant
            i <= fields@.len(),
            forall|k: int| 0 <= k < i ==> fields@[k].0@ != key@,
        decreases fields@.len() - i,
    {
        if crate::text::str_eq(fields[i].0.as_str(), key) {
            proof {
                lemma_key_index(fields@, key@);
            }
            return i;
        }
        i = i + 1;
    }
    proof {
        lemma_key_index(fields@, key@);
    }
    i
}

/// The value a record's field has in `j`: by name when `j` is an object, by
/// position when `j` is an array (serde reads a record from either).
pub open spec fn field(j: Json, pos: int, name: Seq<char>) -> Option<Json> {
    match j {
        Json::Object(fields) => lookup(fields@, name),
        Json::Array(items) => if 0 <= pos < items@.len() {
            Some(items@[pos])
        } else {
            None
        },
        _ => None,
    }
}

/// Whether `j` can hold a record of `n` fields: an object, or an array of at
/// most `n` items.
pub open spec fn record_shaped(j: Json, n: int) -> bool {
    match j {
        Json::Object(_) => true,
        Json::Array(items) => items@.len() <= n,
        _ => false,
    }
}

pub open spec fn is_array(j: Json) -> bool {
    j is Array
}

/// A `String` field: it must be there and be a string.
pub open spec fn read_string(v: Option<Json>) -> Option<Seq<char>> {
    match v {
        Some(Json::Str(s)) => Some(s@),
        _ => None,
    }
}

/// An `Option<String>` field: absent (in an object) or `null` reads as `None`,
/// a string as `Some`; anything else, or absence from an array, fails.
pub open spec fn read_opt_string(v: Option<Json>, in_array: bool) -> Option<Option<Seq<char>>> {
    match v {
        None => if in_array {
            None
        } else {
            Some(None)
        },
        Some(Json::Null) => Some(None),
        Some(Json::Str(s)) => Some(Some(s@)),
        _ => None,
    }
}

/// An `Option<String>` field with `#[serde(default)]`: as above, but absence
/// from an array reads as `None` too.
pub open spec fn read_defaulted_opt_string(v: Option<Json>) -> Option<Option<Seq<char>>> {
    read_opt_string(v, false)
}

/// An `Option<i64>` field.
pub open spec fn read_opt_i64(v: Option<Json>, in_array: bool) -> Option<Option<i64>> {
    match v {
        None => if in_array {
            None
        } else {
            Some(None)
        },
        Some(Json::Null) => Some(None),
        Some(Json::Number(JsonNumber::PosInt(u))) => if u <= i64::MAX {
            Some(Some(u as i64))
        } else {
            None
        },
        Some(Json::Number(JsonNumber::NegInt(i))) => Some(Some(i)),
        _ => None,
    }
}

/// Takes the value of field `name` (position `pos`) out of a record-shaped
/// `j`: an object loses that entry, an array has `null` in its place, and
/// anything else is left as it is.
pub fn take_field(j: &mut Json, pos: usize, name: &str) -> (r: Option<Json>)
    ensures
        r == field(*old(j), pos as int, name@),
        match *old(j) {
            Json::Object(a) => (*final(j)) matches Json::Object(b) && b@ == (if key_index(
                a@,
                name@,
            ) < a@.len() {
                a@.remove(key_index(a@, name@))
            } else {
                a@
            }),
            Json::Array(a) => (*final(j)) matches Json::Array(b) && b@ == (if pos < a@.len() {
                a@.update(pos as int, Json::Null)
            } else {
                a@
            }),
            _ => *final(j) == *old(j),
        },
{
    match j {
        Json::Object(fields) => {
            let i = find_key(fields, name);
            if i < fields.len() {
                let (_, v) = fields.remove(i);
                Some(v)
            } else {
                None
            }
        },
        Json::Array(items) => {
            if pos < items.len() {
                let mut v = Json::Null;
                std::mem::swap(&mut v, &mut items[pos]);
                Some(v)
            } else {
                None
            }
        },
        _ => None,
    }
}

/// The value a record's field has in `j`, borrowed.
pub fn field_ref<'a>(j: &'a Json, pos: usize, name: &str) -> (r: Option<&'a Json>)
    ensures
        match r {
            Some(v) => field(*j, pos as int, name@) == Some(*v),
            None => field(*j, pos as int, name@) is None,
        },
{
    match j {
        Json::Object(fields) => {
            let i = find_key(fields, name);
            if i < fields.len() {
                Some(&fields[i].1)
            } else {
                None
            }
        },
        Json::Array(items) => {
            if pos < items.len() {
                Some(&items[pos])
            } else {
                None
            }
        },
        _ => None,
    }
}

/// The spec value of a borrowed optional field.
pub open spec fn deref_opt(v: Option<&Json>) -> Option<Json> {
    match v {
        Some(x) => Some(*x),
        None => None,
    }
}

/// Reads a `String` field.
pub fn get_string(v: Option<&Json>) -> (r: Option<String>)
    ensures
        r.deep_view() == read_string(deref_opt(v)),
{
    match v {
        Some(Json::Str(s)) => Some(s.clone()),
        _ => None,
    }
}

/// Reads an `Option<String>` field.
pub fn get_opt_string(v: Option<&Json>, in_array: bool) -> (r: Option<Option<String>>)
    ensures
        r.deep_view() == read_opt_string(deref_opt(v), in_array),
{
    match v {
        None => if in_array {
            None
        } else {
            Some(None)
        },
        Some(Json::Null) => Some(None),
        Some(Json::Str(s)) => Some(Some(s.clone())),
        _ => None,
    }
}

/// Reads an `Option<i64>` field.
pub fn get_opt_i64(v: Option<&Json>, in_array: bool) -> (r: Option<Option<i64>>)
    ensures
        r == read_opt_i64(deref_opt(v), in_array),
{
    match v {
        None => if in_array {
            None
        } else {
            Some(None)
        },
        Some(Json::Null) => Some(None),
        Some(Json::Number(JsonNumber::PosInt(u))) => if *u <= i64::MAX as u64 {
            Some(Some(*u as i64))
        } else {
            None
        },
        Some(Json::Number(JsonNumber::NegInt(i))) => Some(Some(*i)),
        _ => None,
    }
}

/// Whether `j` can hold a record of `n` fields.
pub fn is_record_shaped(j: &Json, n: usize) -> (r: bool)
    ensures
        r == record_shaped(*j, n as int),
{
    match j {
        Json::Object(_) => true,
        Json::Array(items) => items.len() <= n,
        _ => false,
    }
}

} // verus!
