//! JSON: the string literals that go out, and the values that come in.

use vstd::prelude::*;

verus! {

/// The hexadecimal digit of value `d`, in lower case.
pub open spec fn hex_digit(d: nat) -> char {
    if d < 10 {
        (48 + d) as char
    } else {
        (87 + d) as char
    }
}

/// How a character is written between the quotes of a string literal.
pub open spec fn escaped_char(c: char) -> Seq<char> {
    let n = c as nat;
    if c == '"' || c == '\\' {
        seq!['\\', c]
    } else if n == 8 {
        seq!['\\', 'b']
    } else if n == 9 {
        seq!['\\', 't']
    } else if n == 10 {
        seq!['\\', 'n']
    } else if n == 12 {
        seq!['\\', 'f']
    } else if n == 13 {
        seq!['\\', 'r']
    } else if n < 32 {
        seq!['\\', 'u', '0', '0', hex_digit(n / 16), hex_digit(n % 16)]
    } else {
        seq![c]
    }
}

/// How a text is written between the quotes of a string literal.
pub open spec fn escaped(s: Seq<char>) -> Seq<char>
    decreases s.len(),
{
    if s.len() == 0 {
        Seq::empty()
    } else {
        escaped_char(s[0]) + escaped(s.drop_first())
    }
}

/// A text as a string literal.
pub open spec fn quoted(s: Seq<char>) -> Seq<char> {
    seq!['"'] + escaped(s) + seq!['"']
}

/// Writes `s` as a string literal, with the `Display` of `serde_json::Value`: in quotes,
/// where a quote and a backslash are preceded by a backslash, the control characters
/// below U+0020 are written as `\b`, `\t`, `\n`, `\f`, `\r` or in hexadecimal, and every
/// other character stands for itself.
#[verifier::external_body]
pub(crate) fn quote(s: &str) -> (r: String)
    ensures
        r@ == quoted(s@),
{
    serde_json::Value::from(s).to_string()
}

/// The value of a hexadecimal digit in lower case.
pub open spec fn hex_value(c: char) -> Option<nat> {
    if '0' <= c <= '9' {
        Some((c as nat - 48) as nat)
    } else if 'a' <= c <= 'f' {
        Some((c as nat - 87) as nat)
    } else {
        None
    }
}

/// Reads one written character of a string literal: the character, and how many
/// characters it took. Nothing where the literal ends here or is not well written.
pub open spec fn read_char(t: Seq<char>) -> Option<(char, nat)> {
    if t.len() == 0 || t[0] == '"' {
        None
    } else if t[0] != '\\' {
        Some((t[0], 1))
    } else if t.len() < 2 {
        None
    } else if t[1] == '"' || t[1] == '\\' {
        Some((t[1], 2))
    } else if t[1] == 'b' {
        Some((8 as char, 2))
    } else if t[1] == 't' {
        Some((9 as char, 2))
    } else if t[1] == 'n' {
        Some((10 as char, 2))
    } else if t[1] == 'f' {
        Some((12 as char, 2))
    } else if t[1] == 'r' {
        Some((13 as char, 2))
    } else if t[1] == 'u' && t.len() >= 6 && t[2] == '0' && t[3] == '0' && hex_value(t[4]) is Some
        && hex_value(t[5]) is Some {
        Some(((hex_value(t[4])->0 * 16 + hex_value(t[5])->0) as char, 6))
    } else {
        None
    }
}

/// Reads what follows the opening quote of a string literal, up to the first quote that
/// no backslash escapes: the text, and what stands behind that quote.
pub open spec fn read_rest(t: Seq<char>) -> Option<(Seq<char>, Seq<char>)>
    decreases t.len(),
{
    if t.len() > 0 && t[0] == '"' {
        Some((Seq::empty(), t.drop_first()))
    } else {
        match read_char(t) {
            Some((c, n)) => if 0 < n <= t.len() {
                match read_rest(t.skip(n as int)) {
                    Some((s, rest)) => Some((seq![c] + s, rest)),
                    None => None,
                }
            } else {
                None
            },
            None => None,
        }
    }
}

/// Reads a string literal off the front of `t`: the text, and what stands behind it.
pub open spec fn read_literal(t: Seq<char>) -> Option<(Seq<char>, Seq<char>)> {
    if t.len() > 0 && t[0] == '"' {
        read_rest(t.drop_first())
    } else {
        None
    }
}

proof fn escaped_char_reads_back(c: char, rest: Seq<char>)
    ensures
        ({
            let t = escaped_char(c) + rest;
            &&& t[0] != '"'
            &&& read_char(t) == Some((c, escaped_char(c).len()))
        }),
{
    let n = c as nat;
    let t = escaped_char(c) + rest;
    if n < 32 {
        assert(n / 16 < 2 && n % 16 < 16);
        assert(n == (n / 16) * 16 + n % 16);
    }
}

proof fn escaped_reads_back(s: Seq<char>, rest: Seq<char>)
    ensures
        read_rest(escaped(s) + seq!['"'] + rest) == Some((s, rest)),
    decreases s.len(),
{
    let t = escaped(s) + seq!['"'] + rest;
    if s.len() == 0 {
        assert(t =~= seq!['"'] + rest);
        assert(t.drop_first() =~= rest);
        assert(s =~= Seq::empty());
    } else {
        let tail = escaped(s.drop_first()) + seq!['"'] + rest;
        escaped_char_reads_back(s[0], tail);
        assert(t =~= escaped_char(s[0]) + tail);
        assert(t.skip(escaped_char(s[0]).len() as int) =~= tail);
        escaped_reads_back(s.drop_first(), rest);
        assert(seq![s[0]] + s.drop_first() =~= s);
    }
}

/// A quoted text is read back as itself, and the literal ends exactly where the quoted
/// text does, whatever follows: no text can break out of its quotes.
pub proof fn quoted_reads_back(s: Seq<char>, rest: Seq<char>)
    ensures
        read_literal(quoted(s) + rest) == Some((s, rest)),
{
    escaped_reads_back(s, rest);
    assert((quoted(s) + rest).drop_first() =~= escaped(s) + seq!['"'] + rest);
}

/// A quoted text inside a longer one is read back as itself where it stands.
pub proof fn quoted_reads_back_inside(before: Seq<char>, s: Seq<char>, rest: Seq<char>)
    ensures
        read_literal((before + quoted(s) + rest).skip(before.len() as int)) == Some((s, rest)),
{
    let q = quoted(s);
    quoted_reads_back(s, rest);
    assert((before + q + rest).skip(before.len() as int) =~= q + rest);
}

/// Different texts are quoted differently.
pub proof fn quoted_is_injective(a: Seq<char>, b: Seq<char>)
    requires
        quoted(a) == quoted(b),
    ensures
        a == b,
{
    quoted_reads_back(a, Seq::empty());
    quoted_reads_back(b, Seq::empty());
}

/// A JSON value, as `serde_json` holds it.
#[verifier::external_type_specification]
#[verifier::external_body]
pub struct ExValue(serde_json::Value);

/// What of a JSON value this crate reads: its text, or its members.
pub enum JsonModel {
    Text(Seq<char>),
    Object(Map<Seq<char>, JsonModel>),
    Other,
}

/// What a JSON value holds.
pub uninterp spec fn json_model(v: serde_json::Value) -> JsonModel;

/// What a JSON text holds, where it is one.
pub uninterp spec fn json_parsed(text: Seq<char>) -> Option<JsonModel>;

/// Parses `text` with `serde_json::from_str`. That the text is JSON, and of which value,
/// is only named; which error a text that is not JSON gives is left unsaid.
#[verifier::external_body]
pub(crate) fn parse(text: &str) -> (r: Option<serde_json::Value>)
    ensures
        r is Some == json_parsed(text@) is Some,
        r matches Some(v) ==> json_parsed(text@) == Some(json_model(v)),
{
    serde_json::from_str(text).ok()
}

/// The member `key` of `v`, by `serde_json::Value::get`: there is one exactly where `v`
/// is an object that has the key.
#[verifier::external_body]
pub(crate) fn member<'a>(v: &'a serde_json::Value, key: &str) -> (r: Option<&'a serde_json::Value>)
    ensures
        r is Some == (json_model(*v) is Object && json_model(*v)->Object_0.contains_key(key@)),
        r matches Some(m) ==> json_model(*m) == json_model(*v)->Object_0[key@],
{
    v.get(key)
}

/// The text of `v`, by `serde_json::Value::as_str`: there is one exactly where `v` is a
/// JSON string.
#[verifier::external_body]
pub(crate) fn text_of(v: &serde_json::Value) -> (r: Option<&str>)
    ensures
        r is Some == json_model(*v) is Text,
        r matches Some(s) ==> s@ == json_model(*v)->Text_0,
{
    v.as_str()
}

/// The text of the member `key` of `m`, where there is such a member and it is a string.
pub open spec fn text_member(m: JsonModel, key: Seq<char>) -> Option<Seq<char>> {
    match m {
        JsonModel::Object(members) => if members.contains_key(key) {
            match members[key] {
                JsonModel::Text(s) => Some(s),
                _ => None,
            }
        } else {
            None
        },
        _ => None,
    }
}

/// The text of the member `key` of `v`, where there is such a member and it is a string.
pub fn member_text<'a>(v: &'a serde_json::Value, key: &str) -> (r: Option<&'a str>)
    ensures
        r is Some == text_member(json_model(*v), key@) is Some,
        r matches Some(s) ==> text_member(json_model(*v), key@) == Some(s@),
{
    match member(v, key) {
        Some(m) => text_of(m),
        None => None,
    }
}

/// A member is a text only where the value is an object that has it and it is a string.
pub proof fn a_text_member_is_a_member(m: JsonModel, key: Seq<char>, s: Seq<char>)
    ensures
        text_member(m, key) == Some(s) <==> (m matches JsonModel::Object(members)
            && members.contains_key(key) && members[key] == JsonModel::Text(s)),
{
}

} // verus!
