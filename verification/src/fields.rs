//! The typed-field document envelope.
//!
//! The document store takes and returns records as JSON objects of the
//! shape `{"fields":{name:{"stringValue":...}}}`, where an array field
//! is wrapped as `{"arrayValue":{"values":[...]}}`.  This module models
//! such a document as a list of named field values, says exactly what
//! JSON text a document turns into, and gives the lookups the decoders
//! are built from.

use crate::json::push_quoted;
use crate::json::quoted;
use crate::strutil::str_eq;
use vstd::prelude::*;
use vstd::string::StringExecFns;

verus! {

/// A field value as the store types it: a single string, or an array
/// of strings.  Nothing in this service stores any other field type.
#[derive(Debug, Clone, PartialEq, Eq)]
pub enum FieldValue {
    Text(String),
    TextArray(Vec<String>),
}

/// One named field of a document.
#[derive(Debug, Clone, PartialEq, Eq)]
pub struct Field {
    pub name: String,
    pub value: FieldValue,
}

/// The characters of a string field value, if the value is one.
pub open spec fn text_value(v: FieldValue) -> Option<Seq<char>> {
    match v {
        FieldValue::Text(s) => Some(s@),
        FieldValue::TextArray(_) => None,
    }
}

/// The elements of an array field value, if the value is one.
pub open spec fn array_value(v: FieldValue) -> Option<Seq<String>> {
    match v {
        FieldValue::Text(_) => None,
        FieldValue::TextArray(vs) => Some(vs@),
    }
}

/// The views of a sequence of strings.
pub open spec fn views_of(vs: Seq<String>) -> Seq<Seq<char>> {
    vs.map_values(|s: String| s@)
}

/// The element views of an array field value, if the value is one.
pub open spec fn array_views(v: FieldValue) -> Option<Seq<Seq<char>>> {
    match array_value(v) {
        Some(vs) => Some(views_of(vs)),
        None => None,
    }
}

/// The element views of the named array field, where present.
pub open spec fn lookup_array_views(fs: Seq<Field>, name: Seq<char>) -> Option<Seq<Seq<char>>> {
    match lookup_array(fs, name) {
        Some(vs) => Some(views_of(vs)),
        None => None,
    }
}

/// The JSON text of a single string value wrapper.
pub open spec fn string_value_text(s: Seq<char>) -> Seq<char> {
    "{\"stringValue\":"@ + quoted(s) + "}"@
}

/// The comma-separated JSON texts of an array's elements.
pub open spec fn array_items_text(vs: Seq<String>) -> Seq<char>
    decreases vs.len(),
{
    if vs.len() == 0 {
        Seq::empty()
    } else if vs.len() == 1 {
        string_value_text(vs[0]@)
    } else {
        array_items_text(vs.drop_last()) + ","@ + string_value_text(vs.last()@)
    }
}

/// The JSON text of an array value wrapper.
pub open spec fn array_value_text(vs: Seq<String>) -> Seq<char> {
    "{\"arrayValue\":{\"values\":["@ + array_items_text(vs) + "]}}"@
}

/// The JSON text of a field value.
pub open spec fn field_value_text(v: FieldValue) -> Seq<char> {
    match v {
        FieldValue::Text(s) => string_value_text(s@),
        FieldValue::TextArray(vs) => array_value_text(vs@),
    }
}

/// The JSON text of one named field: the quoted name, a colon, the
/// value.
pub open spec fn field_text(f: Field) -> Seq<char> {
    quoted(f.name@) + ":"@ + field_value_text(f.value)
}

/// The comma-separated JSON texts of a document's fields.
pub open spec fn fields_text(fs: Seq<Field>) -> Seq<char>
    decreases fs.len(),
{
    if fs.len() == 0 {
        Seq::empty()
    } else if fs.len() == 1 {
        field_text(fs[0])
    } else {
        fields_text(fs.drop_last()) + ","@ + field_text(fs.last())
    }
}

/// The complete JSON body that creates or patches a document with the
/// given fields.
pub open spec fn document_text(fs: Seq<Field>) -> Seq<char> {
    "{\"fields\":{"@ + fields_text(fs) + "}}"@
}

/// Appends the JSON text of one string value wrapper.
fn push_string_value(out: &mut String, s: &str)
    ensures
        final(out)@ == old(out)@ + string_value_text(s@),
{
    out.append("{\"stringValue\":");
    push_quoted(out, s);
    out.append("}");
    assert(out@ =~= old(out)@ + string_value_text(s@));
}

/// Appends the comma-separated JSON texts of the array elements.
fn push_array_items(out: &mut String, vs: &Vec<String>)
    ensures
        final(out)@ == old(out)@ + array_items_text(vs@),
{
    let ghost start = out@;
    for i in 0..vs.len()
        invariant
            out@ == start + array_items_text(vs@.take(i as int)),
    {
        proof {
            let j = i as int;
            assert(vs@.take(j + 1).drop_last() =~= vs@.take(j));
            assert(vs@.take(j + 1).last() == vs@[j]);
            if j > 0 {
                assert(vs@.take(j + 1).len() > 1);
            }
        }
        if i > 0 {
            out.append(",");
        }
        push_string_value(out, vs[i].as_str());
        assert(out@ =~= start + array_items_text(vs@.take(i + 1)));
    }
    proof {
        assert(vs@.take(vs@.len() as int) =~= vs@);
    }
}

/// Appends the JSON text of a field value.
fn push_field_value(out: &mut String, v: &FieldValue)
    ensures
        final(out)@ == old(out)@ + field_value_text(*v),
{
    match v {
        FieldValue::Text(s) => {
            push_string_value(out, s.as_str());
        },
        FieldValue::TextArray(vs) => {
            out.append("{\"arrayValue\":{\"values\":[");
            push_array_items(out, vs);
            out.append("]}}");
            assert(out@ =~= old(out)@ + field_value_text(*v));
        },
    }
}

/// Appends the comma-separated JSON texts of the fields.
fn push_fields(out: &mut String, fs: &Vec<Field>)
    ensures
        final(out)@ == old(out)@ + fields_text(fs@),
{
    let ghost start = out@;
    for i in 0..fs.len()
        invariant
            out@ == start + fields_text(fs@.take(i as int)),
    {
        proof {
            let j = i as int;
            assert(fs@.take(j + 1).drop_last() =~= fs@.take(j));
            assert(fs@.take(j + 1).last() == fs@[j]);
            if j > 0 {
                assert(fs@.take(j + 1).len() > 1);
            }
        }
        if i > 0 {
            out.append(",");
        }
        push_quoted(out, fs[i].name.as_str());
        out.append(":");
        push_field_value(out, &fs[i].value);
        assert(out@ =~= start + fields_text(fs@.take(i + 1)));
    }
    proof {
        assert(fs@.take(fs@.len() as int) =~= fs@);
    }
}

/// The complete JSON body that carries the given fields to the store.
pub fn document_body(fs: &Vec<Field>) -> (r: String)
    ensures
        r@ == document_text(fs@),
{
    let mut out = String::new();
    out.append("{\"fields\":{");
    push_fields(&mut out, fs);
    out.append("}}");
    assert(out@ =~= document_text(fs@));
    out
}

/// A field holding a single string value.
pub fn text_field(name: &str, value: &str) -> (f: Field)
    ensures
        f.name@ == name@,
        text_value(f.value) == Some(value@),
{
    Field { name: String::from_str(name), value: FieldValue::Text(String::from_str(value)) }
}

/// A field holding an array of strings.
pub fn array_field(name: &str, values: Vec<String>) -> (f: Field)
    ensures
        f.name@ == name@,
        array_value(f.value) == Some(values@),
{
    Field { name: String::from_str(name), value: FieldValue::TextArray(values) }
}

/// The value of the first field with the given name, if any: this is
/// how a decoder reads a document.
pub open spec fn lookup_field(fs: Seq<Field>, name: Seq<char>) -> Option<FieldValue>
    decreases fs.len(),
{
    if fs.len() == 0 {
        None
    } else if fs[0].name@ == name {
        Some(fs[0].value)
    } else {
        lookup_field(fs.drop_first(), name)
    }
}

/// The characters of the named string field, if the field is there and
/// holds a single string.
pub open spec fn lookup_text(fs: Seq<Field>, name: Seq<char>) -> Option<Seq<char>> {
    match lookup_field(fs, name) {
        Some(v) => text_value(v),
        None => None,
    }
}

/// The named string field, or the empty string where it is missing or
/// not a single string — the fallback the record decoders apply.
pub open spec fn text_or_empty(fs: Seq<Field>, name: Seq<char>) -> Seq<char> {
    match lookup_text(fs, name) {
        Some(s) => s,
        None => Seq::empty(),
    }
}

/// The elements of the named array field, if the field is there and
/// holds an array.
pub open spec fn lookup_array(fs: Seq<Field>, name: Seq<char>) -> Option<Seq<String>> {
    match lookup_field(fs, name) {
        Some(v) => array_value(v),
        None => None,
    }
}

/// Finds the first field with the given name.
pub fn get_field<'a>(fs: &'a Vec<Field>, name: &str) -> (r: Option<&'a FieldValue>)
    ensures
        match r {
            Some(v) => lookup_field(fs@, name@) == Some(*v),
            None => lookup_field(fs@, name@) is None,
        },
{
    proof {
        assert(fs@.skip(0) =~= fs@);
    }
    for i in 0..fs.len()
        invariant
            lookup_field(fs@, name@) == lookup_field(fs@.skip(i as int), name@),
    {
        proof {
            let j = i as int;
            assert(fs@.skip(j)[0] == fs@[j]);
            assert(fs@.skip(j).drop_first() =~= fs@.skip(j + 1));
        }
        if str_eq(fs[i].name.as_str(), name) {
            return Some(&fs[i].value);
        }
    }
    proof {
        assert(fs@.skip(fs@.len() as int) =~= Seq::<Field>::empty());
    }
    None
}

/// The named string field as text, where present.
pub fn get_text<'a>(fs: &'a Vec<Field>, name: &str) -> (r: Option<&'a String>)
    ensures
        match r {
            Some(s) => lookup_text(fs@, name@) == Some(s@),
            None => lookup_text(fs@, name@) is None,
        },
{
    match get_field(fs, name) {
        Some(FieldValue::Text(s)) => Some(s),
        _ => None,
    }
}

/// The named string field, or the empty string as the record
/// decoders default to.
pub fn get_text_or_empty(fs: &Vec<Field>, name: &str) -> (r: String)
    ensures
        r@ == text_or_empty(fs@, name@),
{
    match get_text(fs, name) {
        Some(s) => s.clone(),
        None => String::new(),
    }
}

/// The named array field's elements, where present.
pub fn get_array<'a>(fs: &'a Vec<Field>, name: &str) -> (r: Option<&'a Vec<String>>)
    ensures
        match r {
            Some(vs) => lookup_array(fs@, name@) == Some(vs@),
            None => lookup_array(fs@, name@) is None,
        },
{
    match get_field(fs, name) {
        Some(FieldValue::TextArray(vs)) => Some(vs),
        _ => None,
    }
}

} // verus!
