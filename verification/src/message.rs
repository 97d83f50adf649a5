//! Reading a Quest UDP datagram.
//!
//! A datagram is decoded as UTF-8 (invalid sequences replaced by U+FFFD),
//! stripped of surrounding whitespace, and accepted only when what is left
//! is a JSON object; anything else (empty, not JSON, or JSON that is not an
//! object, such as a bare array) is no message at all. The JSON itself is
//! read by `serde_json`.
//!
//! The library sees a message as a map from keys to [`JsonValue`]s, which
//! hold every JSON value as plain data: a number by its decimal text (and
//! its `i64` reading when it is an integral number that fits), strings,
//! booleans, arrays and objects as they are. Field readers that need the
//! floating-point value of a number live with the caller.

use vstd::prelude::*;
use vstd::utf8::{decode_utf8, valid_utf8};

verus! {

#[verifier::external_type_specification]
#[verifier::external_body]
#[verifier::reject_recursive_types(K)]
#[verifier::reject_recursive_types(V)]
pub struct ExJsonMap<K, V>(serde_json::Map<K, V>);

#[verifier::external_type_specification]
#[verifier::external_body]
pub struct ExJsonValue(serde_json::Value);

/// A JSON number: the decimal text `serde_json` writes for it (its
/// `Display`), and its `Value::as_i64` reading (present when it is an
/// integral number that fits in an `i64`).
pub struct JsonNumber {
    /// The number's decimal text.
    pub text: Seq<char>,
    /// The number as an `i64`, when it is integral and fits.
    pub integer: Option<i64>,
}

/// A JSON value as plain data.
pub enum JsonValue {
    /// `null`.
    Null,
    /// `true` or `false`.
    Bool(bool),
    /// A number.
    Number(JsonNumber),
    /// A string.
    Text(Seq<char>),
    /// An array.
    List(Seq<JsonValue>),
    /// An object.
    Object(Map<Seq<char>, JsonValue>),
}

/// What a `serde_json` object holds: each key with its value.
pub uninterp spec fn object_fields(fields: serde_json::Map<String, serde_json::Value>) -> Map<
    Seq<char>,
    JsonValue,
>;

/// What `serde_json::from_str::<Value>` makes of `text`, when it is a
/// JSON object: its fields as [`object_fields`] sees them. `None` when the
/// text is not JSON or is JSON of another kind.
pub uninterp spec fn json_object(text: Seq<char>) -> Option<Map<Seq<char>, JsonValue>>;

/// The text `String::from_utf8_lossy` decodes `bytes` into.
pub uninterp spec fn utf8_lossy(bytes: Seq<u8>) -> Seq<char>;

/// Whether `c` has the Unicode `White_Space` property, which is what
/// `char::is_whitespace` tests: U+0009 to U+000D, U+0020, U+0085, U+00A0,
/// U+1680, U+2000 to U+200A, U+2028, U+2029, U+202F, U+205F and U+3000.
pub open spec fn white_space(c: char) -> bool {
    let v = c as u32;
    ||| 0x09 <= v <= 0x0d
    ||| v == 0x20
    ||| v == 0x85
    ||| v == 0xa0
    ||| v == 0x1680
    ||| 0x2000 <= v <= 0x200a
    ||| v == 0x2028
    ||| v == 0x2029
    ||| v == 0x202f
    ||| v == 0x205f
    ||| v == 0x3000
}

/// Decodes `data` with `String::from_utf8_lossy`: valid UTF-8 decodes to
/// its characters; what the replacement of invalid sequences yields is
/// named, not stated.
#[verifier::external_body]
fn decode_utf8_lossy(data: &[u8]) -> (text: String)
    ensures
        text@ == utf8_lossy(data@),
        valid_utf8(data@) ==> text@ == decode_utf8(data@),
{
    String::from_utf8_lossy(data).into_owned()
}

/// Whether `c` is white space, as `char::is_whitespace` decides it.
pub fn is_white_space(c: char) -> (b: bool)
    ensures
        b == white_space(c),
{
    let v = c as u32;
    (0x09 <= v && v <= 0x0d) || v == 0x20 || v == 0x85 || v == 0xa0 || v == 0x1680 || (0x2000
        <= v && v <= 0x200a) || v == 0x2028 || v == 0x2029 || v == 0x202f || v == 0x205f || v
        == 0x3000
}

/// Parses `text` with `serde_json::from_str` into a `Value`, and keeps it
/// when it is an object.
#[verifier::external_body]
fn parse_json_object(text: &str) -> (res: Option<serde_json::Map<String, serde_json::Value>>)
    ensures
        match res {
            Some(fields) => json_object(text@) == Some(object_fields(fields)),
            None => json_object(text@) is None,
        },
{
    match serde_json::from_str::<serde_json::Value>(text) {
        Ok(serde_json::Value::Object(fields)) => Some(fields),
        Ok(_) => None,
        Err(_) => None,
    }
}

/// Calls `Map::contains_key`.
#[verifier::external_body]
fn object_contains_key(fields: &serde_json::Map<String, serde_json::Value>, key: &str) -> (b:
    bool)
    ensures
        b == object_fields(*fields).dom().contains(key@),
{
    fields.contains_key(key)
}

/// The `Value::as_i64` reading of a value.
pub open spec fn integer_of(v: JsonValue) -> Option<i64> {
    match v {
        JsonValue::Number(n) => n.integer,
        _ => None,
    }
}

/// The kind of a JSON value, and whether a string, array or object is
/// empty.
#[derive(Debug, Clone, Copy, PartialEq, Eq, Structural)]
pub enum JsonKind {
    /// `null`.
    Null,
    /// `true` or `false`.
    Bool(bool),
    /// A number.
    Number,
    /// A string.
    Text { empty: bool },
    /// An array.
    List { empty: bool },
    /// An object.
    Object { empty: bool },
}

/// The kind of `v`.
pub open spec fn kind_of(v: JsonValue) -> JsonKind {
    match v {
        JsonValue::Null => JsonKind::Null,
        JsonValue::Bool(b) => JsonKind::Bool(b),
        JsonValue::Number(_) => JsonKind::Number,
        JsonValue::Text(s) => JsonKind::Text { empty: s.len() == 0 },
        JsonValue::List(l) => JsonKind::List { empty: l.len() == 0 },
        JsonValue::Object(m) => JsonKind::Object { empty: m.dom() == Set::<Seq<char>>::empty() },
    }
}

/// Calls `Map::get` and reads the value found with `Value::as_i64`.
#[verifier::external_body]
fn object_get_integer(fields: &serde_json::Map<String, serde_json::Value>, key: &str) -> (res:
    Option<Option<i64>>)
    ensures
        res == (if object_fields(*fields).dom().contains(key@) {
            Some(integer_of(object_fields(*fields)[key@]))
        } else {
            None
        }),
{
    fields.get(key).map(|value| value.as_i64())
}

/// Calls `Map::get` and reads the value found with `Value::is_number`.
#[verifier::external_body]
fn object_get_is_number(fields: &serde_json::Map<String, serde_json::Value>, key: &str) -> (res:
    Option<bool>)
    ensures
        res == (if object_fields(*fields).dom().contains(key@) {
            Some(object_fields(*fields)[key@] is Number)
        } else {
            None
        }),
{
    fields.get(key).map(|value| value.is_number())
}

/// Calls `Map::get` and reads the value found with `Value::as_object`.
#[verifier::external_body]
fn object_get_object<'a>(fields: &'a serde_json::Map<String, serde_json::Value>, key: &str) -> (res:
    Option<&'a serde_json::Map<String, serde_json::Value>>)
    ensures
        match res {
            Some(inner) => object_fields(*fields).dom().contains(key@) && object_fields(
                *fields,
            )[key@] == JsonValue::Object(object_fields(*inner)),
            None => !object_fields(*fields).dom().contains(key@) || !(object_fields(
                *fields,
            )[key@] is Object),
        },
{
    fields.get(key).and_then(|value| value.as_object())
}

/// Calls `Map::get` and tells the variants of the value found apart
/// (with `is_empty` on a string, array or object).
#[verifier::external_body]
fn object_get_kind(fields: &serde_json::Map<String, serde_json::Value>, key: &str) -> (res:
    Option<JsonKind>)
    ensures
        res == (if object_fields(*fields).dom().contains(key@) {
            Some(kind_of(object_fields(*fields)[key@]))
        } else {
            None
        }),
{
    fields.get(key).map(|value| match value {
        serde_json::Value::Null => JsonKind::Null,
        serde_json::Value::Bool(b) => JsonKind::Bool(*b),
        serde_json::Value::Number(_) => JsonKind::Number,
        serde_json::Value::String(s) => JsonKind::Text { empty: s.is_empty() },
        serde_json::Value::Array(a) => JsonKind::List { empty: a.is_empty() },
        serde_json::Value::Object(o) => JsonKind::Object { empty: o.is_empty() },
    })
}

/// Calls `Map::get` and `Value::as_number`, and writes the number found
/// with its `Display`.
#[verifier::external_body]
fn object_get_number_text(fields: &serde_json::Map<String, serde_json::Value>, key: &str) -> (res:
    Option<String>)
    ensures
        match res {
            Some(text) => object_fields(*fields).dom().contains(key@) && (object_fields(
                *fields,
            )[key@] matches JsonValue::Number(n) && text@ == n.text),
            None => !object_fields(*fields).dom().contains(key@) || !(object_fields(
                *fields,
            )[key@] is Number),
        },
{
    fields.get(key).and_then(|value| value.as_number()).map(|n| n.to_string())
}

/// `Map::clone` (on `Map<String, Value>`) gives an object with the same
/// fields.
pub assume_specification[ <serde_json::Map<String, serde_json::Value> as Clone>::clone ](
    fields: &serde_json::Map<String, serde_json::Value>,
) -> (copy: serde_json::Map<String, serde_json::Value>)
    ensures
        object_fields(copy) == object_fields(*fields),
;

// ---------------------------------------------------------------------
// Trimming.
// ---------------------------------------------------------------------

/// The first index at or after `i` whose character is not white space
/// (`s.len()` when there is none).
pub open spec fn kept_start(s: Seq<char>, i: int) -> int
    decreases s.len() - i,
{
    if i >= s.len() {
        s.len() as int
    } else if white_space(s[i]) {
        kept_start(s, i + 1)
    } else {
        i
    }
}

/// One past the last index before `j` whose character is not white space
/// (`0` when there is none).
pub open spec fn kept_end(s: Seq<char>, j: int) -> int
    decreases j,
{
    if j <= 0 {
        0
    } else if white_space(s[j - 1]) {
        kept_end(s, j - 1)
    } else {
        j
    }
}

/// `s` without its leading and trailing white space, as `str::trim`
/// returns it.
pub open spec fn trim_white_space(s: Seq<char>) -> Seq<char> {
    let a = kept_start(s, 0);
    let b = kept_end(s, s.len() as int);
    if a < b {
        s.subrange(a, b)
    } else {
        Seq::empty()
    }
}

/// The text a datagram carries once decoded and trimmed.
pub open spec fn datagram_text(data: Seq<u8>) -> Seq<char> {
    trim_white_space(utf8_lossy(data))
}

/// The fields of the message a datagram holds, or `None` when it holds no
/// message: when its text is empty or not a JSON object.
pub open spec fn datagram_fields(data: Seq<u8>) -> Option<Map<Seq<char>, JsonValue>> {
    let text = datagram_text(data);
    if text.len() == 0 {
        None
    } else {
        json_object(text)
    }
}

proof fn lemma_kept_start_bounds(s: Seq<char>, i: int)
    requires
        0 <= i <= s.len(),
    ensures
        i <= kept_start(s, i) <= s.len(),
        forall|k: int| i <= k < kept_start(s, i) ==> white_space(#[trigger] s[k]),
        kept_start(s, i) < s.len() ==> !white_space(s[kept_start(s, i)]),
    decreases s.len() - i,
{
    if i < s.len() && white_space(s[i]) {
        lemma_kept_start_bounds(s, i + 1);
    }
}

proof fn lemma_kept_end_bounds(s: Seq<char>, j: int)
    requires
        0 <= j <= s.len(),
    ensures
        0 <= kept_end(s, j) <= j,
        forall|k: int| kept_end(s, j) <= k < j ==> white_space(#[trigger] s[k]),
        kept_end(s, j) > 0 ==> !white_space(s[kept_end(s, j) - 1]),
    decreases j,
{
    if j > 0 && white_space(s[j - 1]) {
        lemma_kept_end_bounds(s, j - 1);
    }
}

/// Trimming removes white space only, from both ends, and all of it: the
/// result is a contiguous part of the text, everything cut off is white
/// space, and the result neither starts nor ends with white space.
pub proof fn lemma_trim_removes_only_surrounding_white_space(s: Seq<char>)
    ensures
        exists|a: int, b: int|
            #![trigger s.subrange(a, b)]
            0 <= a <= b <= s.len() && trim_white_space(s) == s.subrange(a, b) && (forall|k: int|
                0 <= k < a ==> white_space(#[trigger] s[k])) && (forall|k: int|
                b <= k < s.len() ==> white_space(#[trigger] s[k])),
        trim_white_space(s).len() > 0 ==> !white_space(trim_white_space(s)[0]) && !white_space(
            trim_white_space(s)[trim_white_space(s).len() - 1],
        ),
        (forall|k: int| 0 <= k < s.len() ==> white_space(#[trigger] s[k])) ==> trim_white_space(
            s,
        ).len() == 0,
{
    lemma_kept_start_bounds(s, 0);
    lemma_kept_end_bounds(s, s.len() as int);
    let a = kept_start(s, 0);
    let b = kept_end(s, s.len() as int);
    if a < b {
        assert(trim_white_space(s) == s.subrange(a, b));
    } else {
        // Everything is white space: the whole text is cut off.
        assert forall|k: int| 0 <= k < s.len() implies white_space(#[trigger] s[k]) by {
            if k >= a {
                assert(k >= b);
            }
        }
        assert(trim_white_space(s) =~= s.subrange(0, 0));
    }
}

/// A datagram whose text is nothing but white space (or nothing at all)
/// holds no message.
pub proof fn lemma_blank_datagram_is_no_message(data: Seq<u8>)
    requires
        forall|k: int| 0 <= k < utf8_lossy(data).len() ==> white_space(#[trigger] utf8_lossy(data)[k]),
    ensures
        datagram_fields(data) is None,
{
    lemma_trim_removes_only_surrounding_white_space(utf8_lossy(data));
}

/// A datagram of valid UTF-8 whose characters are all white space holds
/// no message (what `QuestMessage::parse` returns for such bytes).
pub proof fn lemma_blank_text_is_no_message(data: Seq<u8>)
    requires
        valid_utf8(data),
        datagram_text(data) == trim_white_space(decode_utf8(data)),
        forall|k: int|
            0 <= k < decode_utf8(data).len() ==> white_space(#[trigger] decode_utf8(data)[k]),
    ensures
        datagram_fields(data) is None,
{
    lemma_trim_removes_only_surrounding_white_space(decode_utf8(data));
}

/// Returns `text` without its leading and trailing white space.
pub fn trim_text(text: &str) -> (trimmed: &str)
    ensures
        trimmed@ == trim_white_space(text@),
{
    let n = text.unicode_len();
    let mut a: usize = 0;
    while a < n && is_white_space(text.get_char(a))
        invariant
            n == text@.len(),
            0 <= a <= n,
            kept_start(text@, 0) == kept_start(text@, a as int),
        decreases n - a,
    {
        a = a + 1;
    }
    let mut b: usize = n;
    while b > a && is_white_space(text.get_char(b - 1))
        invariant
            n == text@.len(),
            0 <= a <= b <= n,
            kept_end(text@, n as int) == kept_end(text@, b as int),
            a == kept_start(text@, 0),
        decreases b,
    {
        b = b - 1;
    }
    proof {
        lemma_kept_start_bounds(text@, 0);
        lemma_kept_end_bounds(text@, b as int);
        // When the end scan reached `a`, nothing is kept.
        assert(b == a ==> kept_end(text@, b as int) <= a);
    }
    let trimmed = text.substring_char(a, b);
    proof {
        if a == b {
            assert(trimmed@ =~= Seq::<char>::empty());
        }
    }
    trimmed
}

// ---------------------------------------------------------------------
// Truthiness.
// ---------------------------------------------------------------------

/// What Python's truthiness looks at in a JSON value: its kind, and
/// whether a number is zero or a string, array or object is empty.
#[derive(Debug, Clone, Copy, PartialEq, Eq, Structural)]
pub enum JsonShape {
    /// `null`.
    Null,
    /// `true` or `false`.
    Bool(bool),
    /// A number; `zero` when it equals zero.
    Number { zero: bool },
    /// A string; `empty` when it has no characters.
    Text { empty: bool },
    /// An array; `empty` when it has no elements.
    List { empty: bool },
    /// An object; `empty` when it has no fields.
    Object { empty: bool },
}

/// Python's `bool(value)`: `null`, `false`, zero and empty strings,
/// arrays and objects are false; everything else is true.
pub open spec fn truthy(shape: JsonShape) -> bool {
    match shape {
        JsonShape::Null => false,
        JsonShape::Bool(b) => b,
        JsonShape::Number { zero } => !zero,
        JsonShape::Text { empty } => !empty,
        JsonShape::List { empty } => !empty,
        JsonShape::Object { empty } => !empty,
    }
}

/// Reads a JSON value with Python's truthiness.
pub fn json_truthy(shape: JsonShape) -> (t: bool)
    ensures
        t == truthy(shape),
{
    match shape {
        JsonShape::Null => false,
        JsonShape::Bool(b) => b,
        JsonShape::Number { zero } => !zero,
        JsonShape::Text { empty } => !empty,
        JsonShape::List { empty } => !empty,
        JsonShape::Object { empty } => !empty,
    }
}

/// Whether a number's decimal text has a nonzero digit at or after index
/// `i` and before its exponent (`e` or `E`).
pub open spec fn nonzero_digit_from(text: Seq<char>, i: int) -> bool
    decreases text.len() - i,
{
    if i < 0 || i >= text.len() {
        false
    } else if text[i] == 'e' || text[i] == 'E' {
        false
    } else if '1' <= text[i] && text[i] <= '9' {
        true
    } else {
        nonzero_digit_from(text, i + 1)
    }
}

/// Whether a number, by its decimal text, is zero: no digit of its
/// mantissa is nonzero (`0`, `0.0`, `-0.0`, `0e5`).
pub open spec fn is_zero_text(text: Seq<char>) -> bool {
    !nonzero_digit_from(text, 0)
}

/// The shape Python's truthiness reads of a value.
pub open spec fn shape_of(v: JsonValue) -> JsonShape {
    match v {
        JsonValue::Null => JsonShape::Null,
        JsonValue::Bool(b) => JsonShape::Bool(b),
        JsonValue::Number(n) => JsonShape::Number { zero: is_zero_text(n.text) },
        JsonValue::Text(s) => JsonShape::Text { empty: s.len() == 0 },
        JsonValue::List(l) => JsonShape::List { empty: l.len() == 0 },
        JsonValue::Object(m) => JsonShape::Object { empty: m.dom() == Set::<Seq<char>>::empty() },
    }
}

/// A field with Python's truthiness: `None` when the key is absent.
pub open spec fn truth_of_field(fields: Map<Seq<char>, JsonValue>, key: Seq<char>) -> Option<bool> {
    if fields.dom().contains(key) {
        Some(truthy(shape_of(fields[key])))
    } else {
        None
    }
}

/// Whether the decimal text `text` of a number is zero.
pub fn number_text_is_zero(text: &str) -> (zero: bool)
    ensures
        zero == is_zero_text(text@),
{
    let n = text.unicode_len();
    let mut i: usize = 0;
    while i < n
        invariant
            n == text@.len(),
            i <= n,
            nonzero_digit_from(text@, 0) == nonzero_digit_from(text@, i as int),
        decreases n - i,
    {
        let c = text.get_char(i);
        if c == 'e' || c == 'E' {
            return true;
        }
        if '1' <= c && c <= '9' {
            return false;
        }
        i = i + 1;
    }
    true
}

/// Whether `key` is present and holds a number.
pub open spec fn holds_number(fields: Map<Seq<char>, JsonValue>, key: Seq<char>) -> bool {
    fields.dom().contains(key) && fields[key] is Number
}

/// Whether `key` is present and holds an object whose pose members `x`,
/// `y`, `z`, `qx`, `qy`, `qz` and `qw` all hold numbers.
pub open spec fn holds_pose(fields: Map<Seq<char>, JsonValue>, key: Seq<char>) -> bool {
    &&& fields.dom().contains(key)
    &&& fields[key] matches JsonValue::Object(m) && {
        &&& holds_number(m, "x"@)
        &&& holds_number(m, "y"@)
        &&& holds_number(m, "z"@)
        &&& holds_number(m, "qx"@)
        &&& holds_number(m, "qy"@)
        &&& holds_number(m, "qz"@)
        &&& holds_number(m, "qw"@)
    }
}

/// A pose is recognised exactly when the key holds an object whose `x`,
/// `y`, `z`, `qx`, `qy`, `qz` and `qw` are numbers, of any kind: integral or
/// not (a quaternion component such as 0.927 counts), whatever else the
/// object holds.
pub proof fn lemma_pose_is_any_seven_numbers(fields: Map<Seq<char>, JsonValue>, key: Seq<char>)
    ensures
        holds_pose(fields, key) <==> ({
            &&& fields.dom().contains(key)
            &&& (fields[key] matches JsonValue::Object(m) && {
                &&& m.dom().contains("x"@) && m["x"@] is Number
                &&& m.dom().contains("y"@) && m["y"@] is Number
                &&& m.dom().contains("z"@) && m["z"@] is Number
                &&& m.dom().contains("qx"@) && m["qx"@] is Number
                &&& m.dom().contains("qy"@) && m["qy"@] is Number
                &&& m.dom().contains("qz"@) && m["qz"@] is Number
                &&& m.dom().contains("qw"@) && m["qw"@] is Number
            })
        }),
{
}

// ---------------------------------------------------------------------
// The message.
// ---------------------------------------------------------------------

/// A parsed Quest UDP packet: a JSON object.
#[derive(Debug, PartialEq)]
pub struct QuestMessage {
    fields: serde_json::Map<String, serde_json::Value>,
}

impl View for QuestMessage {
    type V = Map<Seq<char>, JsonValue>;

    closed spec fn view(&self) -> Map<Seq<char>, JsonValue> {
        object_fields(self.fields)
    }
}

impl Clone for QuestMessage {
    /// A copy with the same fields.
    fn clone(&self) -> (copy: Self)
        ensures
            copy@ == self@,
    {
        QuestMessage { fields: self.fields.clone() }
    }
}

impl QuestMessage {
    /// Parses one UDP datagram: decodes it as UTF-8 (invalid sequences
    /// replaced), strips surrounding white space, and accepts it only when
    /// the rest is a JSON object.
    pub fn parse(data: &[u8]) -> (res: Option<Self>)
        ensures
            match res {
                Some(msg) => datagram_fields(data@) == Some(msg@),
                None => datagram_fields(data@) is None,
            },
            valid_utf8(data@) ==> datagram_text(data@) == trim_white_space(decode_utf8(data@)),
    {
        let text = decode_utf8_lossy(data);
        let trimmed = trim_text(text.as_str());
        if trimmed.is_empty() {
            return None;
        }
        match parse_json_object(trimmed) {
            Some(fields) => Some(QuestMessage { fields }),
            None => None,
        }
    }

    /// Whether `key` is present, whatever its value (an explicit `null`
    /// included).
    pub fn has_field(&self, key: &str) -> (present: bool)
        ensures
            present == self@.dom().contains(key@),
    {
        object_contains_key(&self.fields, key)
    }

    /// Reads `key` with Python's truthiness (`bool(msg[key])`): `null`,
    /// `false`, zero and empty strings, arrays and objects are false,
    /// everything else is true; `None` when the key is absent.
    pub fn get_bool(&self, key: &str) -> (value: Option<bool>)
        ensures
            value == truth_of_field(self@, key@),
    {
        let kind = match object_get_kind(&self.fields, key) {
            Some(kind) => kind,
            None => {
                return None;
            },
        };
        let shape = match kind {
            JsonKind::Null => JsonShape::Null,
            JsonKind::Bool(b) => JsonShape::Bool(b),
            JsonKind::Number => {
                let zero = match object_get_number_text(&self.fields, key) {
                    Some(text) => number_text_is_zero(text.as_str()),
                    None => true,
                };
                JsonShape::Number { zero }
            },
            JsonKind::Text { empty } => JsonShape::Text { empty },
            JsonKind::List { empty } => JsonShape::List { empty },
            JsonKind::Object { empty } => JsonShape::Object { empty },
        };
        Some(json_truthy(shape))
    }

    /// Reads `key` when its value is an integral number that fits in an
    /// `i64`; `None` when the key is absent or holds anything else
    /// (including a number with a fractional part or exponent).
    pub fn get_integer(&self, key: &str) -> (value: Option<i64>)
        ensures
            value == (if self@.dom().contains(key@) {
                integer_of(self@[key@])
            } else {
                None
            }),
    {
        match object_get_integer(&self.fields, key) {
            Some(reading) => reading,
            None => None,
        }
    }

    /// Whether `key` holds a number (of any kind: integral or not).
    pub fn has_number(&self, key: &str) -> (number: bool)
        ensures
            number == holds_number(self@, key@),
    {
        match object_get_is_number(&self.fields, key) {
            Some(number) => number,
            None => false,
        }
    }

    /// Whether `key` holds a complete pose: an object whose `x`, `y`, `z`,
    /// `qx`, `qy`, `qz` and `qw` all hold numbers (other members are
    /// allowed).
    pub fn has_pose(&self, key: &str) -> (pose: bool)
        ensures
            pose == holds_pose(self@, key@),
    {
        match object_get_object(&self.fields, key) {
            Some(inner) => {
                let x = object_get_is_number(inner, "x");
                let y = object_get_is_number(inner, "y");
                let z = object_get_is_number(inner, "z");
                let qx = object_get_is_number(inner, "qx");
                let qy = object_get_is_number(inner, "qy");
                let qz = object_get_is_number(inner, "qz");
                let qw = object_get_is_number(inner, "qw");
                x == Some(true) && y == Some(true) && z == Some(true) && qx == Some(true) && qy
                    == Some(true) && qz == Some(true) && qw == Some(true)
            },
            None => false,
        }
    }

    /// The JSON object itself, for readers of other value kinds.
    pub fn fields(&self) -> (fields: &serde_json::Map<String, serde_json::Value>)
        ensures
            object_fields(*fields) == self@,
    {
        &self.fields
    }
}

} // verus!
