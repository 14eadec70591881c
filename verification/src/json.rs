//! JSON values as the library sees them: an opaque value with known contents.
use vstd::prelude::*;
use serde_json::Value;
use crate::text::same_text;

verus! {

/// `serde_json::Value`, a JSON value; opaque here.
#[verifier::external_type_specification]
#[verifier::external_body]
pub struct ExValue(serde_json::Value);

/// `serde_json::Error`, an encoding or decoding error; opaque here.
#[verifier::external_type_specification]
#[verifier::external_body]
pub struct ExJsonError(serde_json::Error);

/// What a JSON value holds.  Whole numbers are integers; other numbers are binary64 by their bit
/// pattern.
pub enum JsonContents {
    Null,
    Bool(bool),
    Integer(int),
    Fraction(u64),
    Text(Seq<char>),
    Array(Seq<JsonContents>),
    Object(Map<Seq<char>, JsonContents>),
}

/// The contents of a `serde_json::Value`.
pub uninterp spec fn json_contents(v: serde_json::Value) -> JsonContents;

/// What `serde_json::from_slice` reads from bytes as a `Value`; `None` where the bytes are not
/// JSON.
pub uninterp spec fn json_parse(bytes: Seq<u8>) -> Option<JsonContents>;

/// What `serde_json::to_vec` writes for a value; `None` where it fails.
pub uninterp spec fn json_encode(contents: JsonContents) -> Option<Seq<u8>>;

/// The members of an object that is built from fields in order; a repeated name keeps its last
/// value.
pub open spec fn members(fields: Seq<(Seq<char>, JsonContents)>) -> Map<Seq<char>, JsonContents>
    decreases fields.len(),
{
    if fields.len() == 0 {
        Map::empty()
    } else {
        members(fields.drop_last()).insert(fields.last().0, fields.last().1)
    }
}

/// The contents of a list of named values.
pub open spec fn field_contents(fields: Seq<(String, serde_json::Value)>) -> Seq<
    (Seq<char>, JsonContents),
> {
    Seq::new(fields.len(), |i: int| (fields[i].0@, json_contents(fields[i].1)))
}

/// `Value::clone` keeps the contents.
pub assume_specification[ <serde_json::Value as Clone>::clone ](v: &serde_json::Value) -> (r:
    serde_json::Value)
    ensures
        json_contents(r) == json_contents(*v),
;

/// `Value::from(())` is null.
#[verifier::external_body]
pub(crate) fn json_null() -> (r: Value)
    ensures
        json_contents(r) == JsonContents::Null,
{
    Value::from(())
}

/// `Value::from` of a string slice holds that text.
#[verifier::external_body]
pub(crate) fn json_text(s: &str) -> (r: Value)
    ensures
        json_contents(r) == JsonContents::Text(s@),
{
    Value::from(s)
}

/// `Value::from` of an unsigned number holds that number.
#[verifier::external_body]
pub(crate) fn json_number(n: u64) -> (r: Value)
    ensures
        json_contents(r) == JsonContents::Integer(n as int),
{
    Value::from(n)
}

/// No name occurs twice.
pub open spec fn distinct_names(fields: Seq<(String, serde_json::Value)>) -> bool {
    forall|i: int, j: int|
        0 <= i < j < fields.len() ==> (#[trigger] fields[i]).0@ != (#[trigger] fields[j]).0@
}

/// `Value::from_iter` over values whose names differ is the object with these members.
#[verifier::external_body]
fn json_object_of(fields: Vec<(String, Value)>) -> (r: Value)
    requires
        distinct_names(fields@),
    ensures
        json_contents(r) == JsonContents::Object(members(field_contents(fields@))),
{
    Value::from_iter(fields)
}

proof fn members_are_named(fields: Seq<(String, serde_json::Value)>, name: Seq<char>)
    ensures
        members(field_contents(fields)).contains_key(name) <==> exists|i: int|
            0 <= i < fields.len() && (#[trigger] fields[i]).0@ == name,
    decreases fields.len(),
{
    if fields.len() > 0 {
        let front = fields.drop_last();
        members_are_named(front, name);
        assert(field_contents(fields).drop_last() =~= field_contents(front));
        if members(field_contents(fields)).contains_key(name) {
            if members(field_contents(front)).contains_key(name) {
                let i = choose|i: int| 0 <= i < front.len() && (#[trigger] front[i]).0@ == name;
                assert(fields[i].0@ == name);
            } else {
                assert(fields[fields.len() - 1].0@ == name);
            }
        }
        if exists|i: int| 0 <= i < fields.len() && (#[trigger] fields[i]).0@ == name {
            let i = choose|i: int| 0 <= i < fields.len() && (#[trigger] fields[i]).0@ == name;
            if i < front.len() {
                assert(front[i].0@ == name);
            }
        }
    }
}

/// Whether a name occurs among named values.
fn has_name(fields: &Vec<(String, Value)>, name: &str) -> (b: bool)
    ensures
        b == members(field_contents(fields@)).contains_key(name@),
{
    proof {
        members_are_named(fields@, name@);
    }
    let mut i: usize = 0;
    while i < fields.len()
        invariant
            i <= fields.len(),
            forall|k: int| 0 <= k < i ==> (#[trigger] fields@[k]).0@ != name@,
        decreases fields.len() - i,
    {
        if same_text(fields[i].0.as_str(), name) {
            proof {
                members_are_named(fields@, name@);
                assert(fields@[i as int].0@ == name@);
            }
            return true;
        }
        i += 1;
    }
    proof {
        members_are_named(fields@, name@);
    }
    false
}

/// The object that is built from named values in order; a repeated name keeps its last value.
pub(crate) fn json_object(fields: Vec<(String, Value)>) -> (r: Value)
    ensures
        json_contents(r) == JsonContents::Object(members(field_contents(fields@))),
{
    let ghost whole = members(field_contents(fields@));
    let mut left = fields;
    let mut kept: Vec<(String, Value)> = Vec::new();
    proof {
        assert(members(field_contents(left@)).union_prefer_right(members(field_contents(kept@)))
            =~= whole);
    }
    while left.len() > 0
        invariant
            distinct_names(kept@),
            members(field_contents(left@)).union_prefer_right(members(field_contents(kept@)))
                == whole,
        decreases left.len(),
    {
        let ghost all = left@;
        let ghost before = kept@;
        match left.pop() {
            Some((name, value)) => {
                let ghost x = (name, value);
                proof {
                    assert(all.last() == x);
                    assert(field_contents(all).drop_last() =~= field_contents(left@));
                }
                if !has_name(&kept, name.as_str()) {
                    proof {
                        members_are_named(kept@, x.0@);
                    }
                    kept.push((name, value));
                    proof {
                        assert(field_contents(kept@).drop_last() =~= field_contents(before));
                    }
                }
                proof {
                    assert(members(field_contents(left@)).union_prefer_right(
                        members(field_contents(kept@)),
                    ) =~= members(field_contents(all)).union_prefer_right(
                        members(field_contents(before)),
                    ));
                }
            },
            None => {},
        }
    }
    proof {
        assert(members(field_contents(kept@)) =~= whole);
    }
    json_object_of(kept)
}

/// The contents of a list of values.
pub open spec fn element_contents(elements: Seq<serde_json::Value>) -> Seq<JsonContents> {
    Seq::new(elements.len(), |i: int| json_contents(elements[i]))
}

/// `Value::from` of a vector of values is the array of these values.
#[verifier::external_body]
pub(crate) fn json_array(elements: Vec<Value>) -> (r: Value)
    ensures
        json_contents(r) == JsonContents::Array(element_contents(elements@)),
{
    Value::from(elements)
}

/// What `serde_json::to_vec_pretty` writes for a value; `None` where it fails.
pub uninterp spec fn json_encode_pretty(contents: JsonContents) -> Option<Seq<u8>>;

/// An object whose members are all texts.
pub open spec fn is_flat_text(contents: JsonContents) -> bool {
    match contents {
        JsonContents::Object(m) => forall|k: Seq<char>|
            m.contains_key(k) ==> (#[trigger] m[k]) is Text,
        _ => false,
    }
}

/// `serde_json::to_vec_pretty` of a `Value`; what it writes is called [`json_encode_pretty`].  An
/// object of texts is always written, and `serde_json::from_slice` reads it back as it was.
#[verifier::external_body]
pub(crate) fn json_to_vec_pretty(v: &Value) -> (r: Result<Vec<u8>, serde_json::Error>)
    ensures
        match json_encode_pretty(json_contents(*v)) {
            Some(b) => r is Ok && r->Ok_0@ == b,
            None => r is Err,
        },
        is_flat_text(json_contents(*v)) ==> r is Ok && json_parse(r->Ok_0@) == Some(
            json_contents(*v),
        ),
{
    serde_json::to_vec_pretty(v)
}

/// `Value::get` with a name gives the member of an object, and nothing of any other value.
#[verifier::external_body]
pub(crate) fn json_get<'a>(v: &'a Value, name: &str) -> (r: Option<&'a Value>)
    ensures
        match json_contents(*v) {
            JsonContents::Object(m) => if m.contains_key(name@) {
                r is Some && json_contents(*r->0) == m[name@]
            } else {
                r is None
            },
            _ => r is None,
        },
{
    v.get(name)
}

/// `Value::as_str` gives the text of a text value, and nothing of any other value.
#[verifier::external_body]
pub(crate) fn json_as_str<'a>(v: &'a Value) -> (r: Option<&'a str>)
    ensures
        match json_contents(*v) {
            JsonContents::Text(s) => r is Some && r->0@ == s,
            _ => r is None,
        },
{
    v.as_str()
}

/// `serde_json::from_slice` into a `Value`; what it reads is called [`json_parse`].
#[verifier::external_body]
pub(crate) fn json_from_slice(bytes: &[u8]) -> (r: Result<Value, serde_json::Error>)
    ensures
        match json_parse(bytes@) {
            Some(c) => r is Ok && json_contents(r->Ok_0) == c,
            None => r is Err,
        },
{
    serde_json::from_slice(bytes)
}

/// `serde_json::to_vec` of a `Value`; what it writes is called [`json_encode`].
#[verifier::external_body]
pub(crate) fn json_to_vec(v: &Value) -> (r: Result<Vec<u8>, serde_json::Error>)
    ensures
        match json_encode(json_contents(*v)) {
            Some(b) => r is Ok && r->Ok_0@ == b,
            None => r is Err,
        },
{
    serde_json::to_vec(v)
}

/// An optional text, or null.
pub fn json_opt_text(o: &Option<String>) -> (r: Value)
    ensures
        json_contents(r) == opt_text_contents(crate::text::opt_view(*o)),
{
    match o {
        Some(s) => json_text(s.as_str()),
        None => json_null(),
    }
}

/// An optional number, or null.
pub fn json_opt_number(o: Option<u64>) -> (r: Value)
    ensures
        json_contents(r) == opt_number_contents(o),
{
    match o {
        Some(n) => json_number(n),
        None => json_null(),
    }
}

/// The contents of an optional text.
pub open spec fn opt_text_contents(o: Option<Seq<char>>) -> JsonContents {
    match o {
        Some(s) => JsonContents::Text(s),
        None => JsonContents::Null,
    }
}

/// The contents of an optional number.
pub open spec fn opt_number_contents(o: Option<u64>) -> JsonContents {
    match o {
        Some(n) => JsonContents::Integer(n as int),
        None => JsonContents::Null,
    }
}

/// The payload that a command receives: null for no bytes and for bytes that are not JSON.
pub open spec fn payload_contents(bytes: Seq<u8>) -> JsonContents {
    if bytes.len() == 0 {
        JsonContents::Null
    } else {
        match json_parse(bytes) {
            Some(c) => c,
            None => JsonContents::Null,
        }
    }
}

/// Decodes the payload of a command.
pub fn decode_payload(bytes: &Vec<u8>) -> (v: Value)
    ensures
        json_contents(v) == payload_contents(bytes@),
{
    if bytes.len() == 0 {
        json_null()
    } else {
        match json_from_slice(bytes.as_slice()) {
            Ok(v) => v,
            Err(_) => json_null(),
        }
    }
}

} // verus!
