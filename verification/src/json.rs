//! The JSON text of the error object: `{"error": message}`.

use vstd::prelude::*;

verus! {

/// The sixteen hexadecimal digits, in lower case.
pub open spec fn hex_digits() -> Seq<char> {
    seq!['0', '1', '2', '3', '4', '5', '6', '7', '8', '9', 'a', 'b', 'c', 'd', 'e', 'f']
}

/// How one character stands inside a JSON string: the quote, the backslash
/// and the control characters below U+0020 are escaped, with the short
/// escape where JSON has one; every other character stands for itself.
pub open spec fn json_escape_char(c: char) -> Seq<char> {
    if c == '"' {
        seq!['\\', '"']
    } else if c == '\\' {
        seq!['\\', '\\']
    } else if c == '\u{8}' {
        seq!['\\', 'b']
    } else if c == '\t' {
        seq!['\\', 't']
    } else if c == '\n' {
        seq!['\\', 'n']
    } else if c == '\u{c}' {
        seq!['\\', 'f']
    } else if c == '\r' {
        seq!['\\', 'r']
    } else if (c as u32) < 0x20 {
        seq![
            '\\',
            'u',
            '0',
            '0',
            hex_digits()[(c as u32 / 16) as int],
            hex_digits()[(c as u32 % 16) as int],
        ]
    } else {
        seq![c]
    }
}

/// How `text` stands inside a JSON string, between the quotes.
pub open spec fn json_escape(text: Seq<char>) -> Seq<char>
    decreases text.len(),
{
    if text.len() == 0 {
        Seq::empty()
    } else {
        json_escape(text.drop_last()) + json_escape_char(text.last())
    }
}

/// `text` as a JSON string.
pub open spec fn json_string(text: Seq<char>) -> Seq<char> {
    seq!['"'] + json_escape(text) + seq!['"']
}

/// The compact JSON text of the object whose one member is named `name`
/// and holds the string `text`.
pub open spec fn json_member_object(name: Seq<char>, text: Seq<char>) -> Seq<char> {
    seq!['{'] + json_string(name) + seq![':'] + json_string(text) + seq!['}']
}

/// The error object for `message`, as JSON text.
pub open spec fn error_object_text(message: Seq<char>) -> Seq<char> {
    json_member_object("error"@, message)
}

/// `serde_json::Value::to_string`, on the object that
/// `serde_json::Map::insert` fills with the one member `name`, a string:
/// compact JSON, an opening brace, the name and the string, each between
/// quotes and escaped as `json_escape` says, with a colon between them,
/// and a closing brace.
#[verifier::external_body]
fn member_object_json(name: &str, text: &str) -> (json: String)
    ensures
        json@ == json_member_object(name@, text@),
{
    let mut members = serde_json::Map::new();
    members.insert(String::from(name), serde_json::Value::String(String::from(text)));
    serde_json::Value::Object(members).to_string()
}

/// The error object for `message`, as JSON text.
pub fn error_object_json(message: &str) -> (json: String)
    ensures
        json@ == error_object_text(message@),
{
    member_object_json("error", message)
}

/// An error object is never the empty text and always opens an object.
pub proof fn lemma_error_object_shape(message: Seq<char>)
    ensures
        error_object_text(message).len() >= 12,
        error_object_text(message).first() == '{',
        error_object_text(message).last() == '}',
{
    reveal_strlit("error");
    lemma_escape_plain("error"@);
}

/// Text without a quote, a backslash or a control character stands for
/// itself inside a JSON string.
pub proof fn lemma_escape_plain(text: Seq<char>)
    requires
        forall|i: int|
            0 <= i < text.len() ==> (#[trigger] text[i]) != '"' && text[i] != '\\' && text[i] as u32
                >= 0x20,
    ensures
        json_escape(text) == text,
    decreases text.len(),
{
    if text.len() > 0 {
        lemma_escape_plain(text.drop_last());
        assert(json_escape_char(text.last()) == seq![text.last()]);
        assert(text.drop_last() + seq![text.last()] =~= text);
    }
}

} // verus!
