//! JSON documents as the library reads them, the call into serde_json that
//! parses them, and verified readers of their members.

use vstd::prelude::*;
use vstd::string::*;

verus! {

/// A parsed JSON value. Integers that fit in 128 bits are kept exactly; any
/// other number is `OtherNumber`. An object keeps its members in order.
#[derive(Debug)]
pub enum Json {
    Null,
    Bool(bool),
    Int(i128),
    OtherNumber,
    Str(String),
    Arr(Vec<Json>),
    Obj(Vec<(String, Json)>),
}

/// The document that `text` parses to, or `None` where it is not JSON.
pub uninterp spec fn parsed_json(text: Seq<char>) -> Option<Json>;

#[verifier::external_type_specification]
#[verifier::external_body]
pub struct ExValue(serde_json::Value);

/// Converts a serde_json value into a `Json`, one variant for one variant.
#[verifier::external_body]
fn model_of(v: &serde_json::Value) -> (r: Json) {
    match v {
        serde_json::Value::Null => Json::Null,
        serde_json::Value::Bool(b) => Json::Bool(*b),
        serde_json::Value::Number(n) => match (n.as_i64(), n.as_u64()) {
            (Some(i), _) => Json::Int(i as i128),
            (None, Some(u)) => Json::Int(u as i128),
            (None, None) => Json::OtherNumber,
        },
        serde_json::Value::String(s) => Json::Str(s.clone()),
        serde_json::Value::Array(a) => Json::Arr(a.iter().map(model_of).collect()),
        serde_json::Value::Object(m) => Json::Obj(m.iter().map(|(k, x)| (k.clone(), model_of(x))).collect()),
    }
}

/// Relies on serde_json::from_str::<Value>: the document depends on the text
/// alone; `None` where the text is not JSON.
#[verifier::external_body]
pub fn parse_doc(text: &str) -> (r: Option<Json>)
    ensures
        r == parsed_json(text@),
{
    serde_json::from_str::<serde_json::Value>(text).ok().map(|v| model_of(&v))
}

/// A lower-case hexadecimal digit.
pub open spec fn hex_digit(n: u32) -> char {
    if n < 10 {
        ((n + 48) as u8) as char
    } else {
        ((n + 87) as u8) as char
    }
}

/// How one character is written inside a JSON string literal.
pub open spec fn escaped(c: char) -> Seq<char> {
    if c == '"' {
        seq!['\\', '"']
    } else if c == '\\' {
        seq!['\\', '\\']
    } else if c == '\u{08}' {
        seq!['\\', 'b']
    } else if c == '\t' {
        seq!['\\', 't']
    } else if c == '\n' {
        seq!['\\', 'n']
    } else if c == '\u{0C}' {
        seq!['\\', 'f']
    } else if c == '\r' {
        seq!['\\', 'r']
    } else if (c as u32) < 32 {
        seq!['\\', 'u', '0', '0', hex_digit((c as u32) / 16), hex_digit((c as u32) % 16)]
    } else {
        seq![c]
    }
}

pub open spec fn escape_all(s: Seq<char>) -> Seq<char>
    decreases s.len(),
{
    if s.len() == 0 {
        Seq::empty()
    } else {
        escape_all(s.drop_last()) + escaped(s.last())
    }
}

/// The JSON string literal that stands for `s`.
pub open spec fn json_quoted(s: Seq<char>) -> Seq<char> {
    seq!['"'] + escape_all(s) + seq!['"']
}

/// Relies on serde_json::to_string on a `str`: the quoted literal, escaped
/// by its table (quote, backslash, the short escapes, `\u00xx` for the other
/// control characters). Serialising a `str` into memory cannot fail, so the
/// error arm is never taken.
#[verifier::external_body]
pub(crate) fn quote(s: &str) -> (r: String)
    ensures
        r@ == json_quoted(s@),
{
    match serde_json::to_string(s) {
        Ok(t) => t,
        Err(_) => String::new(),
    }
}

/// The value of the first member named `key`.
pub open spec fn entry_value(es: Seq<(String, Json)>, key: Seq<char>) -> Option<Json>
    decreases es.len(),
{
    if es.len() == 0 {
        None
    } else if es[0].0@ == key {
        Some(es[0].1)
    } else {
        entry_value(es.drop_first(), key)
    }
}

/// The member `key` of an object; `None` where there is none or `j` is no object.
pub open spec fn member_of(j: Json, key: Seq<char>) -> Option<Json> {
    match j {
        Json::Obj(es) => entry_value(es@, key),
        _ => None,
    }
}

/// A member that is there and not null.
pub open spec fn present(o: Option<Json>) -> Option<Json> {
    match o {
        Some(Json::Null) => None,
        x => x,
    }
}

fn entry_index(es: &Vec<(String, Json)>, key: &str) -> (r: Option<usize>)
    ensures
        match r {
            Some(i) => i < es@.len() && entry_value(es@, key@) == Some(es@[i as int].1),
            None => entry_value(es@, key@) is None,
        },
{
    let target = String::from_str(key);
    let mut i: usize = 0;
    assert(es@.skip(0) =~= es@);
    while i < es.len()
        invariant
            0 <= i <= es@.len(),
            target@ == key@,
            entry_value(es@, key@) == entry_value(es@.skip(i as int), key@),
        decreases es.len() - i,
    {
        assert(es@.skip(i as int)[0] == es@[i as int]);
        if es[i].0 == target {
            return Some(i);
        }
        assert(es@.skip(i as int).drop_first() =~= es@.skip(i as int + 1));
        i = i + 1;
    }
    None
}

/// The member `key` of an object.
pub fn member<'a>(j: &'a Json, key: &str) -> (r: Option<&'a Json>)
    ensures
        match r {
            Some(x) => member_of(*j, key@) == Some(*x),
            None => member_of(*j, key@) is None,
        },
{
    match j {
        Json::Obj(es) => match entry_index(es, key) {
            Some(i) => Some(&es[i].1),
            None => None,
        },
        _ => None,
    }
}

/// The member `key` of an object, taken out of it.
pub fn take_member(j: Json, key: &str) -> (r: Option<Json>)
    ensures
        r == member_of(j, key@),
{
    match j {
        Json::Obj(es) => match entry_index(&es, key) {
            Some(i) => {
                let mut es = es;
                let (_, v) = es.remove(i);
                Some(v)
            },
            None => None,
        },
        _ => None,
    }
}

/// A member that is there and not null.
pub fn present_member<'a>(j: &'a Json, key: &str) -> (r: Option<&'a Json>)
    ensures
        match r {
            Some(x) => present(member_of(*j, key@)) == Some(*x),
            None => present(member_of(*j, key@)) is None,
        },
{
    match member(j, key) {
        Some(Json::Null) => None,
        x => x,
    }
}

/// An optional string member: absent or null is `Ok(None)`, another type `Err`.
pub open spec fn text_field_of(j: Json, key: Seq<char>) -> Result<Option<String>, ()> {
    match present(member_of(j, key)) {
        None => Ok(None),
        Some(Json::Str(s)) => Ok(Some(s)),
        _ => Err(()),
    }
}

/// A string member that must be there.
pub open spec fn req_text_of(j: Json, key: Seq<char>) -> Option<String> {
    match text_field_of(j, key) {
        Ok(Some(s)) => Some(s),
        _ => None,
    }
}

/// An optional member that holds an unsigned 32-bit integer.
pub open spec fn u32_field_of(j: Json, key: Seq<char>) -> Result<Option<u32>, ()> {
    match present(member_of(j, key)) {
        None => Ok(None),
        Some(Json::Int(n)) => if 0 <= n <= u32::MAX {
            Ok(Some(n as u32))
        } else {
            Err(())
        },
        _ => Err(()),
    }
}

/// An unsigned 32-bit member that must be there.
pub open spec fn req_u32_of(j: Json, key: Seq<char>) -> Option<u32> {
    match u32_field_of(j, key) {
        Ok(Some(n)) => Some(n),
        _ => None,
    }
}

/// The items are all strings.
pub open spec fn all_texts(items: Seq<Json>) -> bool {
    forall|i: int| 0 <= i < items.len() ==> #[trigger] items[i] is Str
}

pub open spec fn texts_of(items: Seq<Json>) -> Seq<Seq<char>> {
    items.map_values(|x: Json| match x {
        Json::Str(s) => s@,
        _ => Seq::empty(),
    })
}

/// An optional member that holds a list of strings.
pub open spec fn text_list_of(j: Json, key: Seq<char>) -> Result<Option<Seq<Seq<char>>>, ()> {
    match present(member_of(j, key)) {
        None => Ok(None),
        Some(Json::Arr(items)) => if all_texts(items@) {
            Ok(Some(texts_of(items@)))
        } else {
            Err(())
        },
        _ => Err(()),
    }
}

pub open spec fn texts_view(v: Seq<String>) -> Seq<Seq<char>> {
    v.map_values(|s: String| s@)
}

pub open spec fn opt_texts_view(o: Option<Vec<String>>) -> Option<Seq<Seq<char>>> {
    match o {
        Some(v) => Some(texts_view(v@)),
        None => None,
    }
}

pub fn opt_text_field(j: &Json, key: &str) -> (r: Result<Option<String>, ()>)
    ensures
        r == text_field_of(*j, key@),
{
    match present_member(j, key) {
        None => Ok(None),
        Some(Json::Str(s)) => Ok(Some(s.clone())),
        _ => Err(()),
    }
}

pub fn text_field(j: &Json, key: &str) -> (r: Option<String>)
    ensures
        r == req_text_of(*j, key@),
{
    match opt_text_field(j, key) {
        Ok(Some(s)) => Some(s),
        _ => None,
    }
}

pub fn opt_u32_field(j: &Json, key: &str) -> (r: Result<Option<u32>, ()>)
    ensures
        r == u32_field_of(*j, key@),
{
    match present_member(j, key) {
        None => Ok(None),
        Some(Json::Int(n)) => {
            if 0 <= *n && *n <= u32::MAX as i128 {
                Ok(Some(*n as u32))
            } else {
                Err(())
            }
        },
        _ => Err(()),
    }
}

pub fn u32_field(j: &Json, key: &str) -> (r: Option<u32>)
    ensures
        r == req_u32_of(*j, key@),
{
    match opt_u32_field(j, key) {
        Ok(Some(n)) => Some(n),
        _ => None,
    }
}

pub fn opt_text_list_field(j: &Json, key: &str) -> (r: Result<Option<Vec<String>>, ()>)
    ensures
        match r {
            Ok(o) => text_list_of(*j, key@) == Ok::<Option<Seq<Seq<char>>>, ()>(opt_texts_view(o)),
            Err(_) => text_list_of(*j, key@) is Err,
        },
{
    match present_member(j, key) {
        None => Ok(None),
        Some(Json::Arr(items)) => {
            let mut out: Vec<String> = Vec::new();
            let mut i: usize = 0;
            while i < items.len()
                invariant
                    present(member_of(*j, key@)) == Some(Json::Arr(*items)),
                    0 <= i <= items@.len(),
                    all_texts(items@.take(i as int)),
                    texts_view(out@) == texts_of(items@.take(i as int)),
                decreases items.len() - i,
            {
                match &items[i] {
                    Json::Str(s) => {
                        let t = s.clone();
                        let ghost before = out@;
                        assert(items@.take(i as int + 1) =~= items@.take(i as int).push(items@[i as int]));
                        assert(texts_of(items@.take(i as int + 1))[i as int] == t@);
                        out.push(t);
                        assert(texts_view(out@) =~= texts_view(before).push(t@));
                        assert(texts_view(out@) =~= texts_of(items@.take(i as int + 1)));
                    },
                    _ => {
                        assert(!(items@[i as int] is Str));
                        assert(!all_texts(items@));
                        return Err(());
                    },
                }
                i = i + 1;
            }
            assert(items@.take(i as int) =~= items@);
            Ok(Some(out))
        },
        _ => Err(()),
    }
}

} // verus!
