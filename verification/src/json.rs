use vstd::prelude::*;

use crate::text::str_eq;

verus! {

/// A JSON value as the library reads it. Numbers are kept as the text that
/// stands for them, since nothing here computes with them; an object keeps its
/// members in order, and a lookup finds the first member with the key.
pub enum Json {
    Null,
    Bool(bool),
    Number(String),
    Str(String),
    Array(Vec<Json>),
    Object(Vec<(String, Json)>),
}

/// The value of the first member of `fields` whose key is `key`.
pub open spec fn field_spec(fields: Seq<(String, Json)>, key: Seq<char>) -> Option<Json>
    decreases fields.len(),
{
    if fields.len() == 0 {
        None
    } else if fields[0].0@ == key {
        Some(fields[0].1)
    } else {
        field_spec(fields.drop_first(), key)
    }
}

impl Json {
    /// What `value.get(key)` gives: the member `key` of an object, nothing for
    /// any other value.
    pub open spec fn get_spec(self, key: Seq<char>) -> Option<Json> {
        match self {
            Json::Object(fields) => field_spec(fields@, key),
            _ => None,
        }
    }

    /// What `value.get(index)` gives: the element `index` of an array, nothing
    /// for any other value.
    pub open spec fn at_spec(self, index: int) -> Option<Json> {
        match self {
            Json::Array(items) => if 0 <= index < items@.len() {
                Some(items@[index])
            } else {
                None
            },
            _ => None,
        }
    }

    /// Whether the value is the JSON `true`.
    pub open spec fn is_true_spec(self) -> bool {
        self matches Json::Bool(b) && b
    }

    /// Whether the value is the JSON string `text`.
    pub open spec fn is_str_spec(self, text: Seq<char>) -> bool {
        self matches Json::Str(s) && s@ == text
    }
}

proof fn lemma_field_first(fields: Seq<(String, Json)>, key: Seq<char>, i: int)
    requires
        0 <= i < fields.len(),
        fields[i].0@ == key,
        forall|j: int| 0 <= j < i ==> (#[trigger] fields[j]).0@ != key,
    ensures
        field_spec(fields, key) == Some(fields[i].1),
    decreases i,
{
    if i > 0 {
        assert(fields[0].0@ != key);
        let rest = fields.drop_first();
        assert forall|j: int| 0 <= j < i - 1 implies (#[trigger] rest[j]).0@ != key by {
            assert(rest[j] == fields[j + 1]);
        }
        lemma_field_first(rest, key, i - 1);
    }
}

proof fn lemma_field_absent(fields: Seq<(String, Json)>, key: Seq<char>)
    requires
        forall|j: int| 0 <= j < fields.len() ==> (#[trigger] fields[j]).0@ != key,
    ensures
        field_spec(fields, key) is None,
    decreases fields.len(),
{
    if fields.len() > 0 {
        assert(fields[0].0@ != key);
        let rest = fields.drop_first();
        assert forall|j: int| 0 <= j < rest.len() implies (#[trigger] rest[j]).0@ != key by {
            assert(rest[j] == fields[j + 1]);
        }
        lemma_field_absent(rest, key);
    }
}

/// The position of the first member of `fields` whose key is `key`.
fn position(fields: &Vec<(String, Json)>, key: &str) -> (r: Option<usize>)
    ensures
        match r {
            Some(i) => i < fields@.len() && field_spec(fields@, key@) == Some(fields@[i as int].1),
            None => field_spec(fields@, key@) is None,
        },
{
    let n = fields.len();
    let mut i: usize = 0;
    while i < n
        invariant
            n == fields@.len(),
            i <= n,
            forall|j: int| 0 <= j < i ==> (#[trigger] fields@[j]).0@ != key@,
        decreases n - i,
    {
        if str_eq(fields[i].0.as_str(), key) {
            proof {
                lemma_field_first(fields@, key@, i as int);
            }
            return Some(i);
        }
        i = i + 1;
    }
    proof {
        lemma_field_absent(fields@, key@);
    }
    None
}

impl Json {
    /// The member `key` of an object (`Value::get` with a key).
    pub fn get(&self, key: &str) -> (r: Option<&Json>)
        ensures
            match r {
                Some(v) => self.get_spec(key@) == Some(*v),
                None => self.get_spec(key@) is None,
            },
    {
        match self {
            Json::Object(fields) => match position(fields, key) {
                Some(i) => Some(&fields[i].1),
                None => None,
            },
            _ => None,
        }
    }

    /// Takes the member `key` out of an object, dropping the rest.
    pub fn into_member(self, key: &str) -> (r: Option<Json>)
        ensures
            r == self.get_spec(key@),
    {
        match self {
            Json::Object(mut fields) => match position(&fields, key) {
                Some(i) => {
                    let (_, value) = fields.remove(i);
                    Some(value)
                },
                None => None,
            },
            _ => None,
        }
    }

    /// Takes the member `key` out of an object; gives the value back whole
    /// where it has no such member.
    pub fn split_member(self, key: &str) -> (r: Result<Json, Json>)
        ensures
            match self.get_spec(key@) {
                Some(v) => r == Ok::<Json, Json>(v),
                None => r == Err::<Json, Json>(self),
            },
    {
        match self {
            Json::Object(mut fields) => match position(&fields, key) {
                Some(i) => {
                    let (_, value) = fields.remove(i);
                    Ok(value)
                },
                None => Err(Json::Object(fields)),
            },
            other => Err(other),
        }
    }

    /// The element `index` of an array (`Value::get` with an index).
    pub fn at(&self, index: usize) -> (r: Option<&Json>)
        ensures
            match r {
                Some(v) => self.at_spec(index as int) == Some(*v),
                None => self.at_spec(index as int) is None,
            },
    {
        match self {
            Json::Array(items) => if index < items.len() {
                Some(&items[index])
            } else {
                None
            },
            _ => None,
        }
    }

    /// The text of a JSON string (`Value::as_str`).
    pub fn as_str(&self) -> (r: Option<&str>)
        ensures
            match r {
                Some(s) => self.is_str_spec(s@),
                None => !(self is Str),
            },
    {
        match self {
            Json::Str(s) => Some(s.as_str()),
            _ => None,
        }
    }

    /// Whether the value is the JSON `true` (`value == true`).
    pub fn is_true(&self) -> (b: bool)
        ensures
            b == self.is_true_spec(),
    {
        match self {
            Json::Bool(b) => *b,
            _ => false,
        }
    }
}

/// A hexadecimal digit, written in lower case.
pub open spec fn hex_digit(v: int) -> char {
    if v < 10 {
        (48 + v) as char
    } else {
        (87 + v) as char
    }
}

/// How one character is written inside a JSON string: a quote and a backslash
/// get a backslash, the five usual control characters get their short escape,
/// the other control characters become `\u00` and two hexadecimal digits, and
/// every other character stays.
pub open spec fn json_escape_char(c: char) -> Seq<char> {
    let v = c as u32;
    if c == '"' {
        seq!['\\', '"']
    } else if c == '\\' {
        seq!['\\', '\\']
    } else if v == 0x08 {
        seq!['\\', 'b']
    } else if v == 0x09 {
        seq!['\\', 't']
    } else if v == 0x0A {
        seq!['\\', 'n']
    } else if v == 0x0C {
        seq!['\\', 'f']
    } else if v == 0x0D {
        seq!['\\', 'r']
    } else if v < 0x20 {
        seq!['\\', 'u', '0', '0', hex_digit((v / 16) as int), hex_digit((v % 16) as int)]
    } else {
        seq![c]
    }
}

/// The characters of `s` as written inside a JSON string.
pub open spec fn json_escape(s: Seq<char>) -> Seq<char>
    decreases s.len(),
{
    if s.len() == 0 {
        seq![]
    } else {
        json_escape(s.drop_last()) + json_escape_char(s.last())
    }
}

/// The JSON string literal for `s`: its escaped characters between quotes.
pub open spec fn json_string_literal(s: Seq<char>) -> Seq<char> {
    seq!['"'] + json_escape(s) + seq!['"']
}

#[verifier::external_type_specification]
#[verifier::external_body]
pub struct ExJsonError(serde_json::Error);

/// Calls `serde_json::to_string` on a string slice: the string written as a
/// JSON string literal, by the escape table of serde_json's serializer. For a
/// string slice the serializer only writes to a `Vec<u8>`, which cannot fail,
/// so the call always succeeds.
#[verifier::external_body]
fn json_quote(s: &str) -> (r: Result<String, serde_json::Error>)
    ensures
        r is Ok,
        r matches Ok(t) ==> t@ == json_string_literal(s@),
{
    serde_json::to_string(s)
}

/// Appends the JSON string literal for `s` to `out`.
pub fn push_json_string(out: &mut String, s: &str)
    ensures
        final(out)@ == old(out)@ + json_string_literal(s@),
{
    match json_quote(s) {
        Ok(literal) => out.append(literal.as_str()),
        Err(_) => {},
    }
}

#[verifier::external_type_specification]
#[verifier::external_body]
pub struct ExValue(serde_json::Value);

/// The value that `serde_json::from_str` reads from `text` into a
/// `serde_json::Value`, in the library's form; nothing where the text is not
/// JSON.
pub uninterp spec fn parsed_json(text: Seq<char>) -> Option<Json>;

/// Turns a `serde_json::Value` into the library's form, variant by variant;
/// a number keeps the text serde_json writes for it.
#[verifier::external_body]
fn from_value(value: serde_json::Value) -> Json {
    match value {
        serde_json::Value::Null => Json::Null,
        serde_json::Value::Bool(b) => Json::Bool(b),
        serde_json::Value::Number(n) => Json::Number(n.to_string()),
        serde_json::Value::String(s) => Json::Str(s),
        serde_json::Value::Array(items) => Json::Array(items.into_iter().map(from_value).collect()),
        serde_json::Value::Object(members) => Json::Object(
            members.into_iter().map(|(k, v)| (k, from_value(v))).collect(),
        ),
    }
}

/// Calls `serde_json::from_str` for a `serde_json::Value` on `text`. Its
/// result is named: JSON parsing is serde_json's. Where the text is not JSON,
/// serde_json's error comes back, to be shown as it is.
#[verifier::external_body]
pub fn parse_json(text: &str) -> (r: Result<Json, serde_json::Error>)
    ensures
        r is Ok <==> parsed_json(text@) is Some,
        r matches Ok(v) ==> parsed_json(text@) == Some(v),
{
    serde_json::from_str::<serde_json::Value>(text).map(from_value)
}

} // verus!
