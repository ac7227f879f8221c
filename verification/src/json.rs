//! A small JSON document tree.
//!
//! Scene descriptions arrive as JSON text.  The text is parsed by
//! `serde_json`; the resulting `serde_json::Value` is converted node by
//! node into [`JsonValue`], a tree the verifier can see inside.  All
//! interpretation of the document (field lookup, discriminants, arity
//! checks) happens in verified code over this tree.
use vstd::prelude::*;

verus! {

broadcast use vstd::std_specs::vec::group_vec_axioms;

/// One node of a JSON document.  Numbers keep their decimal text: the
/// pipeline never does arithmetic on them, it only re-emits them.
pub enum JsonValue {
    Null,
    Bool(bool),
    Num(String),
    Str(String),
    Arr(Vec<JsonValue>),
    Obj(Vec<(String, JsonValue)>),
}

/// The mathematical shape of a [`JsonValue`]: the same tree over
/// sequences of characters.
#[verifier::ext_equal]
pub ghost enum JsonV {
    Null,
    Bool(bool),
    Num(Seq<char>),
    Str(Seq<char>),
    Arr(Seq<JsonV>),
    Obj(Seq<(Seq<char>, JsonV)>),
}

/// The views of an array's elements, in order.
pub open spec fn spec_elems_view(items: Seq<JsonValue>) -> Seq<JsonV>
    decreases items,
{
    Seq::new(
        items.len(),
        |i: int|
            if 0 <= i < items.len() {
                items[i]@
            } else {
                JsonV::Null
            },
    )
}

/// The views of an object's fields, in order.
pub open spec fn spec_fields_view(fields: Seq<(String, JsonValue)>) -> Seq<(Seq<char>, JsonV)>
    decreases fields,
{
    Seq::new(
        fields.len(),
        |i: int|
            if 0 <= i < fields.len() {
                (fields[i].0@, fields[i].1@)
            } else {
                (Seq::empty(), JsonV::Null)
            },
    )
}

impl View for JsonValue {
    type V = JsonV;

    open spec fn view(&self) -> JsonV
        decreases self,
    {
        match self {
            JsonValue::Null => JsonV::Null,
            JsonValue::Bool(b) => JsonV::Bool(*b),
            JsonValue::Num(t) => JsonV::Num(t@),
            JsonValue::Str(s) => JsonV::Str(s@),
            JsonValue::Arr(items) => JsonV::Arr(spec_elems_view(items@)),
            JsonValue::Obj(fields) => JsonV::Obj(spec_fields_view(fields@)),
        }
    }
}

#[verifier::external_type_specification]
#[verifier::external_body]
pub struct ExValue(serde_json::Value);

/// The JSON document tree denoted by `text`: `Some` exactly when
/// `serde_json` accepts the text as a JSON document, and then the tree of
/// the parsed value — numbers carrying the decimal text that `serde_json`
/// prints for them, object fields in the key order its map iteration
/// gives, duplicate keys collapsed.  A function of the text alone.
pub uninterp spec fn spec_json_doc(text: Seq<char>) -> Option<JsonV>;

/// Relies on the variant structure of `serde_json::Value` and on
/// `serde_json::Number`'s `Display`: each node is moved across one to
/// one, numbers as their printed decimal text, object fields in map
/// iteration order.
#[verifier::external_body]
fn value_to_tree(v: &serde_json::Value) -> JsonValue {
    match v {
        serde_json::Value::Null => JsonValue::Null,
        serde_json::Value::Bool(b) => JsonValue::Bool(*b),
        serde_json::Value::Number(n) => JsonValue::Num(n.to_string()),
        serde_json::Value::String(s) => JsonValue::Str(s.clone()),
        serde_json::Value::Array(a) => JsonValue::Arr(a.iter().map(value_to_tree).collect()),
        serde_json::Value::Object(o) => JsonValue::Obj(
            o.iter().map(|(k, x)| (k.clone(), value_to_tree(x))).collect(),
        ),
    }
}

/// Relies on `serde_json::from_str::<serde_json::Value>`: whether the
/// text parses, and what value it parses to, depend on the text alone;
/// `value_to_tree` then carries the value across node by node, so the
/// returned tree is a function of the text alone.
#[verifier::external_body]
pub fn parse_json(text: &str) -> (r: Option<JsonValue>)
    ensures
        r is Some <==> spec_json_doc(text@) is Some,
        r is Some ==> r->0@ == spec_json_doc(text@)->0,
{
    serde_json::from_str::<serde_json::Value>(text).ok().map(|v| value_to_tree(&v))
}

/// A lowercase hexadecimal digit.
pub open spec fn spec_hex_digit(d: nat) -> char {
    if d == 0 {
        '0'
    } else if d == 1 {
        '1'
    } else if d == 2 {
        '2'
    } else if d == 3 {
        '3'
    } else if d == 4 {
        '4'
    } else if d == 5 {
        '5'
    } else if d == 6 {
        '6'
    } else if d == 7 {
        '7'
    } else if d == 8 {
        '8'
    } else if d == 9 {
        '9'
    } else if d == 10 {
        'a'
    } else if d == 11 {
        'b'
    } else if d == 12 {
        'c'
    } else if d == 13 {
        'd'
    } else if d == 14 {
        'e'
    } else {
        'f'
    }
}

/// How one character stands inside a printed JSON string: the quote, the
/// backslash and the control characters are escaped (the five short
/// escapes where one exists, `\u00..` with lowercase hex otherwise),
/// every other character verbatim.
pub open spec fn spec_escape_char(c: char) -> Seq<char> {
    if c == '"' {
        seq!['\\', '"']
    } else if c == '\\' {
        seq!['\\', '\\']
    } else if c == '\u{08}' {
        seq!['\\', 'b']
    } else if c == '\t' {
        seq!['\\', 't']
    } else if c == '\n' {
        seq!['\\', 'n']
    } else if c == '\u{0c}' {
        seq!['\\', 'f']
    } else if c == '\r' {
        seq!['\\', 'r']
    } else if (c as u32) < 0x20 {
        seq![
            '\\',
            'u',
            '0',
            '0',
            spec_hex_digit(((c as u32) / 16) as nat),
            spec_hex_digit(((c as u32) % 16) as nat),
        ]
    } else {
        seq![c]
    }
}

/// The escaped contents of a printed JSON string.
pub open spec fn spec_escaped_contents(s: Seq<char>) -> Seq<char>
    decreases s.len(),
{
    if s.len() == 0 {
        Seq::empty()
    } else {
        spec_escape_char(s.first()) + spec_escaped_contents(s.drop_first())
    }
}

/// The JSON string literal denoting the text `s`: the escaped contents
/// between quotes.
pub open spec fn spec_json_string(s: Seq<char>) -> Seq<char> {
    seq!['"'] + spec_escaped_contents(s) + seq!['"']
}

/// Relies on `serde_json::to_string` on a string slice: printing a
/// string is infallible, and its escape table writes `\"`, `\\`, `\b`,
/// `\t`, `\n`, `\f`, `\r`, and lowercase `\u00..` for the remaining
/// control characters, copying every other character verbatim.
#[verifier::external_body]
pub(crate) fn json_quote(s: &str) -> (r: String)
    ensures
        r@ == spec_json_string(s@),
{
    serde_json::to_string(s).unwrap_or_default()
}

} // verus!
