//! The few JSON texts the host and the demo panels exchange, produced and
//! read by `serde_json`.
use vstd::prelude::*;

verus! {

/// A hexadecimal digit, in lower case.
pub open spec fn hex_digit(n: int) -> char {
    if n < 10 {
        (48 + n) as char
    } else {
        (97 + n - 10) as char
    }
}

/// How `serde_json` writes one character inside a JSON string: a quote and a
/// backslash are escaped with a backslash; backspace, tab, line feed, form
/// feed and carriage return by their short escapes; any other character
/// below U+0020 as `\u00` and two lower-case hex digits; every other
/// character as itself.
pub open spec fn json_escape(c: char) -> Seq<char> {
    if c == '"' {
        seq!['\\', '"']
    } else if c == '\\' {
        seq!['\\', '\\']
    } else if c == '\u{8}' {
        seq!['\\', 'b']
    } else if c == '\t' {
        seq!['\\', 't']
    } else if c == '\n' {
        seq!['\\', 'n']
    } else if c == '\u{c}' {
        seq!['\\', 'f']
    } else if c == '\r' {
        seq!['\\', 'r']
    } else if (c as int) < 0x20 {
        seq!['\\', 'u', '0', '0', hex_digit(c as int / 16), hex_digit(c as int % 16)]
    } else {
        seq![c]
    }
}

/// The characters of `s`, each escaped as `serde_json` does.
pub open spec fn json_escaped(s: Seq<char>) -> Seq<char>
    decreases s.len(),
{
    if s.len() == 0 {
        Seq::empty()
    } else {
        json_escaped(s.drop_last()) + json_escape(s.last())
    }
}

/// The JSON text of a string value, as `serde_json` writes it: the escaped
/// characters between double quotes.
pub open spec fn json_string_text(s: Seq<char>) -> Seq<char> {
    seq!['"'] + json_escaped(s) + seq!['"']
}

/// The JSON texts of `items`, separated by commas.
pub open spec fn json_joined(items: Seq<Seq<char>>) -> Seq<char>
    decreases items.len(),
{
    if items.len() == 0 {
        Seq::empty()
    } else if items.len() == 1 {
        json_string_text(items[0])
    } else {
        json_joined(items.drop_last()) + seq![','] + json_string_text(items.last())
    }
}

/// The JSON text of a list of strings, as `serde_json::to_string` writes it:
/// the strings' texts between brackets, separated by commas, with no space.
pub open spec fn json_string_list_text(items: Seq<Seq<char>>) -> Seq<char> {
    seq!['['] + json_joined(items) + seq![']']
}

/// The list of strings that `serde_json::from_str` reads from `text`, or
/// `None` where the text is not a JSON array of strings.
pub uninterp spec fn json_parse_string_list(text: Seq<char>) -> Option<Seq<Seq<char>>>;

/// The JSON text of the object `{"command": command, "args": args}`, as
/// `serde_json` writes it: its keys in sorted order, with no space.
pub open spec fn json_command_with_args(command: Seq<char>, args: Seq<Seq<char>>) -> Seq<char> {
    seq!['{', '"', 'a', 'r', 'g', 's', '"', ':'] + json_string_list_text(args)
        + seq![',', '"', 'c', 'o', 'm', 'm', 'a', 'n', 'd', '"', ':'] + json_string_text(command) + seq!['}']
}

/// The views of a list of strings.
pub open spec fn string_views(v: Seq<String>) -> Seq<Seq<char>> {
    v.map_values(|s: String| s@)
}

/// Calls `serde_json::Value::String(s).to_string()`: the JSON text of the
/// string `s`, with the escapes of `serde_json`'s table.
#[verifier::external_body]
pub(crate) fn json_string(s: &str) -> (r: String)
    ensures
        r@ == json_string_text(s@),
{
    serde_json::Value::String(s.to_string()).to_string()
}

/// Calls `serde_json::to_string` on a list of strings, which cannot fail for
/// that type: the compact JSON array of the strings.
#[verifier::external_body]
pub(crate) fn json_string_list(items: &Vec<String>) -> (r: String)
    ensures
        r@ == json_string_list_text(string_views(items@)),
{
    serde_json::to_string(items).unwrap_or_default()
}

/// Calls `serde_json::from_str::<Vec<String>>`: the strings of a JSON array of
/// strings, or `None` when `text` is not one.
#[verifier::external_body]
pub(crate) fn parse_json_string_list(text: &str) -> (r: Option<Vec<String>>)
    ensures
        r matches Some(v) ==> json_parse_string_list(text@) == Some(string_views(v@)),
        r is None ==> json_parse_string_list(text@) is None,
{
    serde_json::from_str::<Vec<String>>(text).ok()
}

/// Builds the `serde_json::Value` object `{"command": command, "args": args}`
/// and calls `to_string` on it: the compact text, with the keys in the
/// sorted order of `serde_json`'s default map.
#[verifier::external_body]
pub(crate) fn command_with_args_json(command: &str, args: &Vec<String>) -> (r: String)
    ensures
        r@ == json_command_with_args(command@, string_views(args@)),
{
    let mut object = serde_json::Map::new();
    object.insert("command".to_string(), serde_json::Value::String(command.to_string()));
    object.insert("args".to_string(), serde_json::Value::from(args.clone()));
    serde_json::Value::Object(object).to_string()
}

} // verus!
