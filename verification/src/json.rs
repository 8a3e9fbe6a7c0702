//! A thin, verifiable window onto JSON documents.
//!
//! Provider responses are JSON text. Reading it is delegated to
//! `serde_json`; one trusted wrapper reads the top node of a document
//! and hands every child back re-serialized as JSON text, so that
//! verified code can drill into a document level by level, and every
//! decision taken on the way down is checked against the
//! [`json_node_of`] model of what the parser returned.

use vstd::prelude::*;

verus! {

/// One JSON node. Children of arrays and objects are carried as the
/// JSON text they re-serialize to, to be read with another call; no
/// provider schema reads numeric payloads, so numbers keep only their
/// textual form.
#[derive(Clone, Debug, PartialEq, Eq)]
pub enum JsonNode {
    Null,
    Bool(bool),
    Num(String),
    Str(String),
    Arr(Vec<String>),
    Obj(Vec<(String, String)>),
}

/// The node that parsing a given JSON text yields, if the text is
/// valid JSON: a name for what `serde_json` computes from the text
/// alone.
pub uninterp spec fn json_node_of(s: Seq<char>) -> Option<JsonNode>;

/// Relies on serde_json::from_str to read one JSON document, and on
/// serde_json::Value's serialization to hand each child back as JSON
/// text; the result depends on the text alone.
#[verifier::external_body]
pub(crate) fn parse_json_node(s: &str) -> (r: Option<JsonNode>)
    ensures
        r == json_node_of(s@),
{
    match serde_json::from_str::<serde_json::Value>(s) {
        Err(_) => None,
        Ok(serde_json::Value::Null) => Some(JsonNode::Null),
        Ok(serde_json::Value::Bool(b)) => Some(JsonNode::Bool(b)),
        Ok(serde_json::Value::Number(n)) => Some(JsonNode::Num(n.to_string())),
        Ok(serde_json::Value::String(t)) => Some(JsonNode::Str(t)),
        Ok(serde_json::Value::Array(a)) => Some(JsonNode::Arr(a.iter().map(|x| x.to_string()).collect())),
        Ok(serde_json::Value::Object(m)) => Some(JsonNode::Obj(m.into_iter().map(|(k, x)| (k, x.to_string())).collect())),
    }
}

/// The first value bound to `key` among `entries`, scanning from
/// position `i`.
pub open spec fn spec_obj_get_from(
    entries: Seq<(String, String)>,
    key: Seq<char>,
    i: int,
) -> Option<String>
    decreases entries.len() - i,
{
    if i < 0 || i >= entries.len() {
        None
    } else if entries[i].0@ == key {
        Some(entries[i].1)
    } else {
        spec_obj_get_from(entries, key, i + 1)
    }
}

/// The value bound to `key` among `entries`, if any.
pub open spec fn spec_obj_get(entries: Seq<(String, String)>, key: Seq<char>) -> Option<String> {
    spec_obj_get_from(entries, key, 0)
}

/// The JSON text of the field `key` of the document `t`, provided `t`
/// is an object carrying that field.
pub open spec fn spec_field(t: Seq<char>, key: Seq<char>) -> Option<String> {
    match json_node_of(t) {
        Some(JsonNode::Obj(es)) => spec_obj_get(es@, key),
        _ => None,
    }
}

/// The string payload of the field `key` of the document `t`, provided
/// the field exists and holds a string.
pub open spec fn spec_str_field(t: Seq<char>, key: Seq<char>) -> Option<String> {
    match spec_field(t, key) {
        Some(v) => match json_node_of(v@) {
            Some(JsonNode::Str(x)) => Some(x),
            _ => None,
        },
        None => None,
    }
}

/// The element texts of the field `key` of the document `t`, provided
/// the field exists and holds an array.
pub open spec fn spec_arr_field(t: Seq<char>, key: Seq<char>) -> Option<Vec<String>> {
    match spec_field(t, key) {
        Some(v) => match json_node_of(v@) {
            Some(JsonNode::Arr(xs)) => Some(xs),
            _ => None,
        },
        None => None,
    }
}

/// The field `k2` of the object held by the field `k1` of `t`.
pub open spec fn spec_field2(t: Seq<char>, k1: Seq<char>, k2: Seq<char>) -> Option<String> {
    match spec_field(t, k1) {
        Some(v) => spec_field(v@, k2),
        None => None,
    }
}

/// Drills three object fields deep into the document `t`.
pub open spec fn spec_field3(t: Seq<char>, k1: Seq<char>, k2: Seq<char>, k3: Seq<char>) -> Option<
    String,
> {
    match spec_field2(t, k1, k2) {
        Some(v) => spec_field(v@, k3),
        None => None,
    }
}

/// A hexadecimal digit character, lower case.
pub open spec fn hex_digit(d: int) -> char {
    if d < 10 {
        crate::strutil::digit_char(d)
    } else if d == 10 {
        'a'
    } else if d == 11 {
        'b'
    } else if d == 12 {
        'c'
    } else if d == 13 {
        'd'
    } else if d == 14 {
        'e'
    } else {
        'f'
    }
}

/// How one character is written inside a JSON string literal: quotes
/// and backslashes escaped, the common control characters by their
/// short escapes, any other control character as `\u00XX`, everything
/// else as itself.
pub open spec fn esc_char(c: char) -> Seq<char> {
    if c == '"' {
        seq!['\\', '"']
    } else if c == '\\' {
        seq!['\\', '\\']
    } else if c == '\n' {
        seq!['\\', 'n']
    } else if c == '\r' {
        seq!['\\', 'r']
    } else if c == '\t' {
        seq!['\\', 't']
    } else if (c as int) < 32 {
        seq!['\\', 'u', '0', '0', hex_digit((c as int) / 16), hex_digit((c as int) % 16)]
    } else {
        seq![c]
    }
}

/// The body of the JSON string literal denoting `s`.
pub open spec fn spec_json_escaped(s: Seq<char>) -> Seq<char>
    decreases s.len(),
{
    if s.len() == 0 {
        Seq::empty()
    } else {
        spec_json_escaped(s.drop_last()) + esc_char(s.last())
    }
}

/// Renders one low control character's `\u00XX` escape.
fn push_control_escape(out: &mut String, code: u32)
    requires
        code < 32,
    ensures
        final(out)@ == old(out)@ + seq![
            '\\',
            'u',
            '0',
            '0',
            hex_digit(code as int / 16),
            hex_digit(code as int % 16),
        ],
{
    crate::strutil::push_char(out, '\\');
    crate::strutil::push_char(out, 'u');
    crate::strutil::push_char(out, '0');
    crate::strutil::push_char(out, '0');
    let hi = code / 16;
    let lo = code % 16;
    let hic: char = if hi == 0 {
        '0'
    } else {
        '1'
    };
    let loc: char = if lo == 0 {
        '0'
    } else if lo == 1 {
        '1'
    } else if lo == 2 {
        '2'
    } else if lo == 3 {
        '3'
    } else if lo == 4 {
        '4'
    } else if lo == 5 {
        '5'
    } else if lo == 6 {
        '6'
    } else if lo == 7 {
        '7'
    } else if lo == 8 {
        '8'
    } else if lo == 9 {
        '9'
    } else if lo == 10 {
        'a'
    } else if lo == 11 {
        'b'
    } else if lo == 12 {
        'c'
    } else if lo == 13 {
        'd'
    } else if lo == 14 {
        'e'
    } else {
        'f'
    };
    crate::strutil::push_char(out, hic);
    crate::strutil::push_char(out, loc);
    proof {
        assert(final(out)@ =~= old(out)@ + seq![
            '\\',
            'u',
            '0',
            '0',
            hex_digit(code as int / 16),
            hex_digit(code as int % 16),
        ]);
    }
}

/// Escapes `s` for embedding in a JSON string literal.
pub fn json_escape(s: &str) -> (r: String)
    ensures
        r@ == spec_json_escaped(s@),
{
    let slen = s.unicode_len();
    let mut out = String::new();
    let mut i: usize = 0;
    while i < slen
        invariant
            i <= slen,
            slen == s@.len(),
            out@ == spec_json_escaped(s@.subrange(0, i as int)),
        decreases slen - i,
    {
        let ghost pre = s@.subrange(0, i as int);
        let c = s.get_char(i);
        if c == '"' {
            crate::strutil::push_char(&mut out, '\\');
            crate::strutil::push_char(&mut out, '"');
        } else if c == '\\' {
            crate::strutil::push_char(&mut out, '\\');
            crate::strutil::push_char(&mut out, '\\');
        } else if c == '\n' {
            crate::strutil::push_char(&mut out, '\\');
            crate::strutil::push_char(&mut out, 'n');
        } else if c == '\r' {
            crate::strutil::push_char(&mut out, '\\');
            crate::strutil::push_char(&mut out, 'r');
        } else if c == '\t' {
            crate::strutil::push_char(&mut out, '\\');
            crate::strutil::push_char(&mut out, 't');
        } else if (c as u32) < 32 {
            push_control_escape(&mut out, c as u32);
        } else {
            crate::strutil::push_char(&mut out, c);
        }
        proof {
            assert(s@.subrange(0, i + 1).drop_last() =~= pre);
            assert(s@.subrange(0, i + 1).last() == s@[i as int]);
            assert(out@ =~= spec_json_escaped(pre) + esc_char(s@[i as int]));
        }
        i = i + 1;
    }
    proof {
        assert(s@.subrange(0, slen as int) =~= s@);
    }
    out
}

/// Looks `key` up in the entry list of a parsed object.
fn obj_get(entries: &Vec<(String, String)>, key: &str) -> (r: Option<String>)
    ensures
        r == spec_obj_get(entries@, key@),
{
    let n = entries.len();
    let mut i: usize = 0;
    while i < n
        invariant
            i <= n,
            n == entries@.len(),
            spec_obj_get(entries@, key@) == spec_obj_get_from(entries@, key@, i as int),
        decreases n - i,
    {
        if crate::strutil::str_eq(entries[i].0.as_str(), key) {
            return Some(entries[i].1.clone());
        }
        i = i + 1;
    }
    None
}

/// Reads the field `key` of the JSON document `t`, as JSON text.
pub fn json_field(t: &str, key: &str) -> (r: Option<String>)
    ensures
        r == spec_field(t@, key@),
{
    match parse_json_node(t) {
        Some(JsonNode::Obj(es)) => obj_get(&es, key),
        _ => None,
    }
}

/// Reads the string field `key` of the JSON document `t`.
pub fn json_str_field(t: &str, key: &str) -> (r: Option<String>)
    ensures
        r == spec_str_field(t@, key@),
{
    match json_field(t, key) {
        Some(v) => match parse_json_node(v.as_str()) {
            Some(JsonNode::Str(x)) => Some(x),
            _ => None,
        },
        None => None,
    }
}

/// Reads the array field `key` of the JSON document `t`, as the list
/// of its elements' JSON texts.
pub fn json_arr_field(t: &str, key: &str) -> (r: Option<Vec<String>>)
    ensures
        r == spec_arr_field(t@, key@),
{
    match json_field(t, key) {
        Some(v) => match parse_json_node(v.as_str()) {
            Some(JsonNode::Arr(xs)) => Some(xs),
            _ => None,
        },
        None => None,
    }
}

} // verus!
