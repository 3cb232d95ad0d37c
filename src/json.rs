//! A JSON document as a tree of plain values.
use vstd::prelude::*;

verus! {

/// A JSON value. Object members keep the order in which they were read.
#[derive(Debug)]
pub enum Json {
    Null,
    Bool(bool),
    /// A non-negative whole number.
    UInt(u64),
    /// A negative whole number.
    NegInt(i64),
    /// Any other number, as written.
    Float(String),
    Str(String),
    Array(Vec<Json>),
    Object(Vec<JsonField>),
}

/// One member of a JSON object.
#[derive(Debug)]
pub struct JsonField {
    pub key: String,
    pub value: Json,
}

/// The value of member `key`; when the key repeats, the last one counts.
pub open spec fn find_field(fields: Seq<JsonField>, key: Seq<char>) -> Option<Json>
    decreases fields.len(),
{
    if fields.len() == 0 {
        None
    } else if fields.last().key@ == key {
        Some(fields.last().value)
    } else {
        find_field(fields.drop_last(), key)
    }
}

/// Looks up member `key` among `fields`.
pub fn get_field<'a>(fields: &'a Vec<JsonField>, key: &String) -> (r: Option<&'a Json>)
    ensures
        r is Some <==> find_field(fields@, key@) is Some,
        r matches Some(v) ==> find_field(fields@, key@) == Some(*v),
{
    let mut i: usize = fields.len();
    assert(fields@.subrange(0, i as int) =~= fields@);
    while i > 0
        invariant
            i <= fields@.len(),
            find_field(fields@, key@) == find_field(fields@.subrange(0, i as int), key@),
        decreases i,
    {
        let ghost prefix = fields@.subrange(0, i as int);
        assert(prefix.last() == fields@[i - 1]);
        if fields[i - 1].key == *key {
            return Some(&fields[i - 1].value);
        }
        assert(prefix.drop_last() =~= fields@.subrange(0, i - 1));
        i = i - 1;
    }
    None
}

/// A member with the given key and value.
pub fn field(key: &str, value: Json) -> (r: JsonField)
    ensures
        r.key@ == key@,
        r.value == value,
{
    JsonField { key: String::from_str(key), value }
}

} // verus!
