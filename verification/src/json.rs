//! The JSON tree that every payload decodes through.
//!
//! The wire carries JSON text.  A single trusted call parses that text into
//! [`JsonValue`], a tree of plain values in which a number is kept as the
//! text of its numeral; every envelope and event decoder in this library
//! then works on the tree and is verified against [`JsonSpec`], its
//! mathematical shape.

use vstd::prelude::*;
use crate::num::{spec_parse_dec, spec_parse_i32, spec_parse_u32, parse_decimal, parse_i32,
    parse_u32, Decimal};
use crate::text::str_eq;

verus! {

broadcast use vstd::std_specs::vec::group_vec_axioms, vstd::seq::group_seq_axioms;

/// A JSON value.  Numbers are kept as the text of their numeral, exactly as
/// the parser prints them.
#[derive(Debug)]
pub enum JsonValue {
    Null,
    Bool(bool),
    Num(String),
    Text(String),
    Arr(Vec<JsonValue>),
    Obj(Vec<(String, JsonValue)>),
}

/// The mathematical shape of a JSON value.
pub enum JsonSpec {
    Null,
    Bool(bool),
    Num(Seq<char>),
    Text(Seq<char>),
    Arr(Seq<JsonSpec>),
    Obj(Seq<(Seq<char>, JsonSpec)>),
}

/// The shape of a JSON value.
pub open spec fn jv_view(v: JsonValue) -> JsonSpec
    decreases v,
{
    match v {
        JsonValue::Null => JsonSpec::Null,
        JsonValue::Bool(b) => JsonSpec::Bool(b),
        JsonValue::Num(s) => JsonSpec::Num(s@),
        JsonValue::Text(s) => JsonSpec::Text(s@),
        JsonValue::Arr(items) => JsonSpec::Arr(jv_seq_view(items@)),
        JsonValue::Obj(fields) => JsonSpec::Obj(jv_fields_view(fields@)),
    }
}

/// The shapes of the elements of a JSON array.
pub open spec fn jv_seq_view(items: Seq<JsonValue>) -> Seq<JsonSpec>
    decreases items,
{
    if items.len() == 0 {
        Seq::empty()
    } else {
        seq![jv_view(items[0])] + jv_seq_view(items.subrange(1, items.len() as int))
    }
}

/// The shapes of the fields of a JSON object.
pub open spec fn jv_fields_view(fields: Seq<(String, JsonValue)>) -> Seq<(Seq<char>, JsonSpec)>
    decreases fields,
{
    if fields.len() == 0 {
        Seq::empty()
    } else {
        seq![(fields[0].0@, jv_view(fields[0].1))] + jv_fields_view(
            fields.subrange(1, fields.len() as int),
        )
    }
}

impl View for JsonValue {
    type V = JsonSpec;

    open spec fn view(&self) -> JsonSpec {
        jv_view(*self)
    }
}

/// An array's shape holds, in order, the shape of each element.
pub proof fn lemma_jv_seq_view(items: Seq<JsonValue>)
    ensures
        jv_seq_view(items).len() == items.len(),
        forall|i: int| 0 <= i < items.len() ==> jv_seq_view(items)[i] == jv_view(items[i]),
    decreases items,
{
    if items.len() > 0 {
        lemma_jv_seq_view(items.subrange(1, items.len() as int));
    }
}

/// An object's shape holds, in order, the key and the shape of each field.
pub proof fn lemma_jv_fields_view(fields: Seq<(String, JsonValue)>)
    ensures
        jv_fields_view(fields).len() == fields.len(),
        forall|i: int|
            0 <= i < fields.len() ==> jv_fields_view(fields)[i] == (
            fields[i].0@,
            jv_view(fields[i].1),
            ),
    decreases fields,
{
    if fields.len() > 0 {
        lemma_jv_fields_view(fields.subrange(1, fields.len() as int));
    }
}

/// The value of the first field with this key, if any.
pub open spec fn spec_obj_get(fields: Seq<(Seq<char>, JsonSpec)>, key: Seq<char>) -> Option<
    JsonSpec,
>
    decreases fields.len(),
{
    if fields.len() == 0 {
        None
    } else if fields[0].0 == key {
        Some(fields[0].1)
    } else {
        spec_obj_get(fields.skip(1), key)
    }
}

/// Looks a key up among an object's fields.
pub fn obj_get<'a>(fields: &'a Vec<(String, JsonValue)>, key: &str) -> (r: Option<&'a JsonValue>)
    ensures
        ({
            let fs = jv_fields_view(fields@);
            match r {
                Some(v) => spec_obj_get(fs, key@) == Some(v@),
                None => spec_obj_get(fs, key@) is None,
            }
        }),
{
    let ghost fs = jv_fields_view(fields@);
    proof {
        lemma_jv_fields_view(fields@);
        assert(fs.skip(0) =~= fs);
    }
    let n = fields.len();
    let mut i: usize = 0;
    while i < n
        invariant
            i <= n == fields@.len(),
            fs == jv_fields_view(fields@),
            fs.len() == fields@.len(),
            forall|k: int|
                0 <= k < fields@.len() ==> fs[k] == (fields@[k].0@, jv_view(fields@[k].1)),
            spec_obj_get(fs, key@) == spec_obj_get(fs.skip(i as int), key@),
        decreases n - i,
    {
        let entry = &fields[i];
        if str_eq(entry.0.as_str(), key) {
            proof {
                assert(fs.skip(i as int)[0] == fs[i as int]);
            }
            return Some(&entry.1);
        }
        proof {
            assert(fs.skip(i as int)[0] == fs[i as int]);
            assert(fs.skip(i as int).skip(1) =~= fs.skip(i + 1));
        }
        i += 1;
    }
    proof {
        assert(fs.skip(n as int) =~= Seq::<(Seq<char>, JsonSpec)>::empty());
    }
    None
}

#[verifier::external_type_specification]
#[verifier::external_body]
pub struct ExValue(serde_json::Value);

/// What `serde_json` parses the text to, under this library's JSON shape.
pub uninterp spec fn json_of(s: Seq<char>) -> Option<JsonSpec>;

/// Relies on `serde_json::from_str::<serde_json::Value>`: it parses exactly
/// the well-formed JSON texts, and what it parses a text to depends on the
/// text alone.
#[verifier::external_body]
pub(crate) fn parse_json(s: &str) -> (r: Option<JsonValue>)
    ensures
        match r {
            Some(v) => json_of(s@) == Some(v@),
            None => json_of(s@) is None,
        },
{
    serde_json::from_str::<serde_json::Value>(s).ok().map(value_to_tree)
}

/// Relies on the public shape of `serde_json::Value`: each variant moves
/// into the matching variant of the library's tree, with a number printed
/// back to the text of its numeral by `serde_json`'s `Display`.
#[verifier::external_body]
fn value_to_tree(v: serde_json::Value) -> JsonValue {
    match v {
        serde_json::Value::Null => JsonValue::Null,
        serde_json::Value::Bool(b) => JsonValue::Bool(b),
        serde_json::Value::Number(n) => JsonValue::Num(n.to_string()),
        serde_json::Value::String(s) => JsonValue::Text(s),
        serde_json::Value::Array(a) => JsonValue::Arr(
            a.into_iter().map(value_to_tree).collect(),
        ),
        serde_json::Value::Object(o) => JsonValue::Obj(
            o.into_iter().map(|(k, w)| (k, value_to_tree(w))).collect(),
        ),
    }
}

/// A decimal field: a numeral, as a JSON number or a numeric string.
pub open spec fn spec_coerce_dec(v: JsonSpec) -> Option<Decimal> {
    match v {
        JsonSpec::Num(lit) => spec_parse_dec(lit),
        JsonSpec::Text(lit) => spec_parse_dec(lit),
        _ => None,
    }
}

/// An unsigned quantity field: a numeral, as a JSON number or a numeric
/// string.
pub open spec fn spec_coerce_u32(v: JsonSpec) -> Option<u32> {
    match v {
        JsonSpec::Num(lit) => spec_parse_u32(lit),
        JsonSpec::Text(lit) => spec_parse_u32(lit),
        _ => None,
    }
}

/// A signed quantity field: a numeral, as a JSON number or a numeric string.
pub open spec fn spec_coerce_i32(v: JsonSpec) -> Option<i32> {
    match v {
        JsonSpec::Num(lit) => spec_parse_i32(lit),
        JsonSpec::Text(lit) => spec_parse_i32(lit),
        _ => None,
    }
}

/// Whichever numeral the value holds, whether number or string.
fn coerce_lit<'a>(v: &'a JsonValue) -> (r: Option<&'a String>)
    ensures
        match r {
            Some(s) => v@ == JsonSpec::Num(s@) || v@ == JsonSpec::Text(s@),
            None => !(v@ is Num || v@ is Text),
        },
{
    match v {
        JsonValue::Num(s) => Some(s),
        JsonValue::Text(s) => Some(s),
        _ => None,
    }
}

/// Reads the value as a decimal field.
pub fn coerce_dec(v: &JsonValue) -> (r: Option<Decimal>)
    ensures
        r == spec_coerce_dec(v@),
{
    match coerce_lit(v) {
        Some(s) => parse_decimal(s.as_str()),
        None => None,
    }
}

/// Reads the value as an unsigned quantity field.
pub fn coerce_u32(v: &JsonValue) -> (r: Option<u32>)
    ensures
        r == spec_coerce_u32(v@),
{
    match coerce_lit(v) {
        Some(s) => parse_u32(s.as_str()),
        None => None,
    }
}

/// Reads the value as a signed quantity field.
pub fn coerce_i32(v: &JsonValue) -> (r: Option<i32>)
    ensures
        r == spec_coerce_i32(v@),
{
    match coerce_lit(v) {
        Some(s) => parse_i32(s.as_str()),
        None => None,
    }
}

/// A numeric field decodes to the same typed value whether the numeral
/// arrives as a JSON number or as a JSON string: what it decodes to
/// depends on the numeral's text alone.
pub proof fn lemma_numeric_coercion(lit: Seq<char>)
    ensures
        spec_coerce_dec(JsonSpec::Num(lit)) == spec_coerce_dec(JsonSpec::Text(lit)),
        spec_coerce_u32(JsonSpec::Num(lit)) == spec_coerce_u32(JsonSpec::Text(lit)),
        spec_coerce_i32(JsonSpec::Num(lit)) == spec_coerce_i32(JsonSpec::Text(lit)),
{
}

/// A string field of an object.
pub open spec fn spec_str_field(fs: Seq<(Seq<char>, JsonSpec)>, key: Seq<char>) -> Option<
    Seq<char>,
> {
    match spec_obj_get(fs, key) {
        Some(JsonSpec::Text(s)) => Some(s),
        _ => None,
    }
}

/// Reads a string field out of an object's fields.
pub fn str_field(fields: &Vec<(String, JsonValue)>, key: &str) -> (r: Option<String>)
    ensures
        match r {
            Some(s) => spec_str_field(jv_fields_view(fields@), key@) == Some(s@),
            None => spec_str_field(jv_fields_view(fields@), key@) is None,
        },
{
    match obj_get(fields, key) {
        Some(JsonValue::Text(s)) => Some(s.clone()),
        _ => None,
    }
}

/// A boolean field of an object.
pub open spec fn spec_bool_field(fs: Seq<(Seq<char>, JsonSpec)>, key: Seq<char>) -> Option<bool> {
    match spec_obj_get(fs, key) {
        Some(JsonSpec::Bool(b)) => Some(b),
        _ => None,
    }
}

/// Reads a boolean field out of an object's fields.
pub fn bool_field(fields: &Vec<(String, JsonValue)>, key: &str) -> (r: Option<bool>)
    ensures
        r == spec_bool_field(jv_fields_view(fields@), key@),
{
    match obj_get(fields, key) {
        Some(JsonValue::Bool(b)) => Some(*b),
        _ => None,
    }
}

/// A decimal field of an object.
pub open spec fn spec_dec_field(fs: Seq<(Seq<char>, JsonSpec)>, key: Seq<char>) -> Option<
    Decimal,
> {
    match spec_obj_get(fs, key) {
        Some(v) => spec_coerce_dec(v),
        None => None,
    }
}

/// Reads a decimal field out of an object's fields.
pub fn dec_field(fields: &Vec<(String, JsonValue)>, key: &str) -> (r: Option<Decimal>)
    ensures
        r == spec_dec_field(jv_fields_view(fields@), key@),
{
    match obj_get(fields, key) {
        Some(v) => coerce_dec(v),
        None => None,
    }
}

/// An optional decimal field: a missing field and a JSON null both stand
/// for no value; a present value must be a numeral.
pub open spec fn spec_opt_dec_field(fs: Seq<(Seq<char>, JsonSpec)>, key: Seq<char>) -> Option<
    Option<Decimal>,
> {
    match spec_obj_get(fs, key) {
        None => Some(None),
        Some(JsonSpec::Null) => Some(None),
        Some(v) => match spec_coerce_dec(v) {
            Some(d) => Some(Some(d)),
            None => None,
        },
    }
}

/// Reads an optional decimal field out of an object's fields.
pub fn opt_dec_field(fields: &Vec<(String, JsonValue)>, key: &str) -> (r: Option<Option<Decimal>>)
    ensures
        r == spec_opt_dec_field(jv_fields_view(fields@), key@),
{
    match obj_get(fields, key) {
        None => Some(None),
        Some(JsonValue::Null) => Some(None),
        Some(v) => match coerce_dec(v) {
            Some(d) => Some(Some(d)),
            None => None,
        },
    }
}

/// An unsigned quantity field of an object.
pub open spec fn spec_u32_field(fs: Seq<(Seq<char>, JsonSpec)>, key: Seq<char>) -> Option<u32> {
    match spec_obj_get(fs, key) {
        Some(v) => spec_coerce_u32(v),
        None => None,
    }
}

/// Reads an unsigned quantity field out of an object's fields.
pub fn u32_field(fields: &Vec<(String, JsonValue)>, key: &str) -> (r: Option<u32>)
    ensures
        r == spec_u32_field(jv_fields_view(fields@), key@),
{
    match obj_get(fields, key) {
        Some(v) => coerce_u32(v),
        None => None,
    }
}

/// A signed quantity field of an object.
pub open spec fn spec_i32_field(fs: Seq<(Seq<char>, JsonSpec)>, key: Seq<char>) -> Option<i32> {
    match spec_obj_get(fs, key) {
        Some(v) => spec_coerce_i32(v),
        None => None,
    }
}

/// Reads a signed quantity field out of an object's fields.
pub fn i32_field(fields: &Vec<(String, JsonValue)>, key: &str) -> (r: Option<i32>)
    ensures
        r == spec_i32_field(jv_fields_view(fields@), key@),
{
    match obj_get(fields, key) {
        Some(v) => coerce_i32(v),
        None => None,
    }
}

} // verus!
