//! The few reads of JSON documents the assistant makes (its configuration
//! files and the contact list), through `serde_json`.

use vstd::prelude::*;

verus! {

/// The message `serde_json` reports for a document that is not valid JSON
/// (`None` for a valid one).
pub uninterp spec fn json_syntax_error(text: Seq<char>) -> Option<Seq<char>>;

/// The string value of member `key` of the top-level object of a valid JSON
/// document (`None` when the document is not an object, has no such member,
/// or the member is not a string).
pub uninterp spec fn json_member_str(text: Seq<char>, key: Seq<char>) -> Option<Seq<char>>;

/// The boolean value of member `key` of the top-level object of a valid JSON
/// document (`None` when absent or not a boolean).
pub uninterp spec fn json_member_bool(text: Seq<char>, key: Seq<char>) -> Option<bool>;

/// The members of the top-level object of a valid JSON document, each with its
/// string value (`None` for a value that is not a string), in the order that
/// `serde_json`'s map yields them; `None` when the document is not an object.
pub uninterp spec fn json_string_members(text: Seq<char>) -> Option<Seq<(Seq<char>, Option<Seq<char>>)>>;

/// The views of a list of members with optional string values.
pub open spec fn member_views(v: Seq<(String, Option<String>)>) -> Seq<(Seq<char>, Option<Seq<char>>)> {
    v.map_values(|e: (String, Option<String>)| (e.0@, match e.1 { Some(x) => Some(x@), None => None }))
}

/// A lower-case hexadecimal digit for a value below 16.
pub open spec fn lower_hex(n: int) -> char {
    if n < 10 {
        (48 + n) as char
    } else {
        (87 + n) as char
    }
}

/// How `serde_json` writes one character inside a string literal: `"` and
/// `\` behind a backslash, `\b \f \n \r \t` for those controls, other
/// characters below U+0020 as `\u00XX` (lower-case hex), and everything else
/// as itself.
pub open spec fn escaped_char(c: char) -> Seq<char> {
    if c == '"' {
        seq!['\\', '"']
    } else if c == '\\' {
        seq!['\\', '\\']
    } else if c == '\u{8}' {
        seq!['\\', 'b']
    } else if c == '\u{c}' {
        seq!['\\', 'f']
    } else if c == '\n' {
        seq!['\\', 'n']
    } else if c == '\r' {
        seq!['\\', 'r']
    } else if c == '\t' {
        seq!['\\', 't']
    } else if (c as int) < 32 {
        seq!['\\', 'u', '0', '0', lower_hex((c as int) / 16), lower_hex((c as int) % 16)]
    } else {
        seq![c]
    }
}

/// The characters of a string, each escaped.
pub open spec fn escaped(s: Seq<char>) -> Seq<char>
    decreases s.len(),
{
    if s.len() == 0 {
        Seq::empty()
    } else {
        escaped(s.drop_last()) + escaped_char(s.last())
    }
}

/// The JSON string literal that `serde_json` writes for a string: the escaped
/// characters between double quotes.
pub open spec fn json_string_literal(s: Seq<char>) -> Seq<char> {
    seq!['"'] + escaped(s) + seq!['"']
}

/// One member of an object whose values are strings: `"key":"value"`.
pub open spec fn member_text(m: (Seq<char>, Seq<char>)) -> Seq<char> {
    json_string_literal(m.0) + seq![':'] + json_string_literal(m.1)
}

/// The members, separated by commas.
pub open spec fn members_text(ms: Seq<(Seq<char>, Seq<char>)>) -> Seq<char>
    decreases ms.len(),
{
    if ms.len() == 0 {
        Seq::empty()
    } else if ms.len() == 1 {
        member_text(ms[0])
    } else {
        members_text(ms.drop_last()) + seq![','] + member_text(ms.last())
    }
}

/// The compact JSON text of an object with these string members, in order.
pub open spec fn string_object_text(ms: Seq<(Seq<char>, Seq<char>)>) -> Seq<char> {
    seq!['{'] + members_text(ms) + seq!['}']
}

/// No two members share a key.
pub open spec fn distinct_keys(ms: Seq<(Seq<char>, Seq<char>)>) -> bool {
    forall|i: int, j: int| 0 <= i < j < ms.len() ==> #[trigger] ms[i].0 != #[trigger] ms[j].0
}

/// The value of the member named `key`, if any.
pub open spec fn string_member(ms: Seq<(Seq<char>, Seq<char>)>, key: Seq<char>) -> Option<Seq<char>>
    decreases ms.len(),
{
    if ms.len() == 0 {
        None
    } else if ms[0].0 == key {
        Some(ms[0].1)
    } else {
        string_member(ms.drop_first(), key)
    }
}

/// `serde_json::from_str::<Value>`, keeping only whether the document is valid
/// and, if not, the error's message. The compact text of an object whose
/// members have distinct keys and string values is valid JSON.
#[verifier::external_body]
pub(crate) fn json_check(text: &str) -> (r: Result<(), String>)
    ensures
        match r {
            Ok(()) => json_syntax_error(text@) is None,
            Err(e) => json_syntax_error(text@) == Some(e@),
        },
        forall|ms: Seq<(Seq<char>, Seq<char>)>|
            distinct_keys(ms) && #[trigger] string_object_text(ms) == text@ ==> r is Ok,
{
    match serde_json::from_str::<serde_json::Value>(text) {
        Ok(_) => Ok(()),
        Err(e) => Err(e.to_string()),
    }
}

/// `serde_json::from_str::<Value>`, then `Value::get(key)` and `Value::as_str`.
/// An invalid document gives `None`. Read from the compact text of an object
/// whose members have distinct keys and string values, the result is that
/// member's value (parsing undoes the escaping of string literals).
#[verifier::external_body]
pub(crate) fn json_str_member(text: &str, key: &str) -> (r: Option<String>)
    ensures
        json_syntax_error(text@) is None ==> match r {
            Some(s) => json_member_str(text@, key@) == Some(s@),
            None => json_member_str(text@, key@) is None,
        },
        json_syntax_error(text@) is Some ==> r is None,
        forall|ms: Seq<(Seq<char>, Seq<char>)>|
            distinct_keys(ms) && #[trigger] string_object_text(ms) == text@ ==> match r {
                Some(s) => string_member(ms, key@) == Some(s@),
                None => string_member(ms, key@) is None,
            },
{
    match serde_json::from_str::<serde_json::Value>(text) {
        Ok(v) => match v.get(key).and_then(|m| m.as_str()) {
            Some(s) => Some(s.to_string()),
            None => None,
        },
        Err(_) => None,
    }
}

/// `serde_json::from_str::<Value>`, then `Value::get(key)` and `Value::as_bool`.
/// An invalid document gives `None`.
#[verifier::external_body]
pub(crate) fn json_bool_member(text: &str, key: &str) -> (r: Option<bool>)
    ensures
        json_syntax_error(text@) is None ==> r == json_member_bool(text@, key@),
        json_syntax_error(text@) is Some ==> r is None,
{
    match serde_json::from_str::<serde_json::Value>(text) {
        Ok(v) => v.get(key).and_then(|m| m.as_bool()),
        Err(_) => None,
    }
}

/// `serde_json::from_str::<Value>`, then `Value::as_object` and the object's
/// members, each value taken by `as_str` (`None` when it is not a string).
/// An invalid document gives `None`.
#[verifier::external_body]
pub(crate) fn json_string_member_list(text: &str) -> (r: Option<Vec<(String, Option<String>)>>)
    ensures
        json_syntax_error(text@) is None ==> match r {
            Some(v) => json_string_members(text@) == Some(member_views(v@)),
            None => json_string_members(text@) is None,
        },
        json_syntax_error(text@) is Some ==> r is None,
{
    match serde_json::from_str::<serde_json::Value>(text) {
        Ok(v) => v.as_object().map(|o| {
            o.iter().map(|(k, m)| (k.clone(), m.as_str().map(|s| s.to_string()))).collect()
        }),
        Err(_) => None,
    }
}

/// `serde_json::to_string` of a string slice: the quoted, escaped literal.
/// (Serialising a `str` cannot fail in `serde_json`.)
#[verifier::external_body]
pub(crate) fn json_quote(s: &str) -> (r: String)
    ensures
        r@ == json_string_literal(s@),
{
    serde_json::to_string(s).unwrap_or_default()
}

} // verus!
