//! JSON documents, built and printed by `serde_json`.

use vstd::prelude::*;

verus! {

/// What a JSON value holds. Numbers are integers here.
#[verifier::ext_equal]
pub enum Doc {
    Null,
    Bool(bool),
    Number(int),
    Text(Seq<char>),
    List(Seq<Doc>),
    Object(Map<Seq<char>, Doc>),
}

/// `serde_json::Value`, opaque.
#[verifier::external_type_specification]
#[verifier::external_body]
pub struct ExValue(serde_json::Value);

/// What a `serde_json::Value` holds.
pub uninterp spec fn json_held(value: serde_json::Value) -> Doc;

/// The object these fields make, a later field in place of an earlier one of
/// the same name.
pub open spec fn gathered(fields: Seq<(Seq<char>, Doc)>) -> Map<Seq<char>, Doc>
    decreases fields.len(),
{
    if fields.len() == 0 {
        Map::empty()
    } else {
        gathered(fields.drop_last()).insert(fields.last().0, fields.last().1)
    }
}

/// The object these fields make.
pub open spec fn object_of(fields: Seq<(Seq<char>, Doc)>) -> Doc {
    Doc::Object(gathered(fields))
}

/// What each value of a list holds.
pub open spec fn held_all(items: Seq<serde_json::Value>) -> Seq<Doc> {
    items.map_values(|v: serde_json::Value| json_held(v))
}

/// The fields, each value by what it holds.
pub open spec fn held_fields(fields: Seq<(String, serde_json::Value)>) -> Seq<(Seq<char>, Doc)> {
    fields.map_values(|f: (String, serde_json::Value)| (f.0@, json_held(f.1)))
}

/// `serde_json::Value::Null`: it holds null.
#[verifier::external_body]
pub(crate) fn null() -> (r: serde_json::Value)
    ensures
        json_held(r) == Doc::Null,
{
    serde_json::Value::Null
}

/// `serde_json::Value::from` a boolean: it holds that boolean.
#[verifier::external_body]
pub(crate) fn boolean(b: bool) -> (r: serde_json::Value)
    ensures
        json_held(r) == Doc::Bool(b),
{
    serde_json::Value::from(b)
}

/// `serde_json::Value::from` an unsigned integer: it holds that number.
#[verifier::external_body]
pub(crate) fn unsigned(n: u64) -> (r: serde_json::Value)
    ensures
        json_held(r) == Doc::Number(n as int),
{
    serde_json::Value::from(n)
}

/// `serde_json::Value::from` a signed integer: it holds that number.
#[verifier::external_body]
pub(crate) fn signed(n: i64) -> (r: serde_json::Value)
    ensures
        json_held(r) == Doc::Number(n as int),
{
    serde_json::Value::from(n)
}

/// `serde_json::Value::from` a string: it holds that text.
#[verifier::external_body]
pub(crate) fn text(s: &str) -> (r: serde_json::Value)
    ensures
        json_held(r) == Doc::Text(s@),
{
    serde_json::Value::from(s)
}

/// `serde_json::Value::from` a vector of values: it holds the list of what
/// they hold, in order.
#[verifier::external_body]
pub(crate) fn list(items: Vec<serde_json::Value>) -> (r: serde_json::Value)
    ensures
        json_held(r) == Doc::List(held_all(items@)),
{
    serde_json::Value::from(items)
}

/// `serde_json::Value::from_iter` over fields: it holds the object they make,
/// a later field in place of an earlier one of the same name.
#[verifier::external_body]
pub(crate) fn object(fields: Vec<(String, serde_json::Value)>) -> (r: serde_json::Value)
    ensures
        json_held(r) == object_of(held_fields(fields@)),
{
    serde_json::Value::from_iter(fields)
}

/// How `serde_json::to_string_pretty` prints a value that holds this.
pub uninterp spec fn json_pretty(doc: Doc) -> Seq<char>;

/// `serde_json::to_string_pretty` of a value.
///
/// Claimed: the text is a function of what the value holds. It never fails on
/// a `Value`, whose keys are strings; an object prints its keys in their own
/// order, so the order they were given in does not matter. That rests on the
/// sorted map that `serde_json` keeps an object in by default: with its
/// `preserve_order` feature, which this crate does not turn on, the text would
/// depend on the order too.
#[verifier::external_body]
pub(crate) fn pretty(value: &serde_json::Value) -> (r: String)
    ensures
        r@ == json_pretty(json_held(*value)),
{
    serde_json::to_string_pretty(value).expect("a value always serializes")
}

/// One field of an object.
pub fn field(name: &str, value: serde_json::Value) -> (r: (String, serde_json::Value))
    ensures
        r.0@ == name@,
        r.1 == value,
{
    (name.to_owned(), value)
}

/// An optional boolean, null when absent.
pub open spec fn opt_bool(b: Option<bool>) -> Doc {
    match b {
        Some(b) => Doc::Bool(b),
        None => Doc::Null,
    }
}

/// An optional number, null when absent.
pub open spec fn opt_number(n: Option<u64>) -> Doc {
    match n {
        Some(n) => Doc::Number(n as int),
        None => Doc::Null,
    }
}

/// An optional text, null when absent.
pub open spec fn opt_text(s: Option<Seq<char>>) -> Doc {
    match s {
        Some(s) => Doc::Text(s),
        None => Doc::Null,
    }
}

pub(crate) fn boolean_or_null(b: Option<bool>) -> (r: serde_json::Value)
    ensures
        json_held(r) == opt_bool(b),
{
    match b {
        Some(b) => boolean(b),
        None => null(),
    }
}

pub(crate) fn unsigned_or_null(n: Option<u64>) -> (r: serde_json::Value)
    ensures
        json_held(r) == opt_number(n),
{
    match n {
        Some(n) => unsigned(n),
        None => null(),
    }
}

/// A field holds its own value, as long as no later one takes its name.
pub proof fn a_field_holds_its_value(fields: Seq<(Seq<char>, Doc)>, i: int)
    requires
        0 <= i < fields.len(),
        forall|j: int| i < j < fields.len() ==> (#[trigger] fields[j]).0 != fields[i].0,
    ensures
        gathered(fields).dom().contains(fields[i].0),
        gathered(fields)[fields[i].0] == fields[i].1,
    decreases fields.len(),
{
    if i < fields.len() - 1 {
        let rest = fields.drop_last();
        assert(rest[i] == fields[i]);
        assert forall|j: int| i < j < rest.len() implies (#[trigger] rest[j]).0 != rest[i].0 by {
            assert(fields[j].0 != fields[i].0);
        }
        a_field_holds_its_value(rest, i);
        assert(fields[fields.len() - 1].0 != fields[i].0);
    }
}

} // verus!
