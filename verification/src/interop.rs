//! The calls that the library makes into `serde_json`, `sha2`, `uuid` and
//! `url`, each behind one small function.
use sha2::Digest;
use vstd::prelude::*;

use crate::json::{Json, JsonObject};
use crate::text;

verus! {

#[verifier::external_type_specification]
#[verifier::external_body]
pub struct ExNumber(serde_json::Number);

#[verifier::external_type_specification]
#[verifier::external_body]
pub struct ExValue(serde_json::Value);

#[verifier::external_type_specification]
#[verifier::external_body]
#[verifier::reject_recursive_types(K)]
#[verifier::reject_recursive_types(V)]
pub struct ExMap<K, V>(serde_json::Map<K, V>);

#[verifier::external_type_specification]
#[verifier::external_body]
pub struct ExJsonError(serde_json::Error);

/// What a JSON number holds: an integer, or the text of any other number.
pub ghost enum NumberView {
    Whole(int),
    Fraction(Seq<char>),
}

/// What a `serde_json::Number` holds.
pub uninterp spec fn number_view(n: serde_json::Number) -> NumberView;

/// What a `serde_json::Value` holds.
pub uninterp spec fn value_view(v: serde_json::Value) -> crate::json::JsonView;

/// What a `serde_json::Map` holds under each of its keys.
pub uninterp spec fn object_view(m: serde_json::Map<String, serde_json::Value>) -> Map<
    Seq<char>,
    crate::json::JsonView,
>;

/// How a `serde_json::Error` reads.
pub uninterp spec fn json_error_text(e: serde_json::Error) -> Seq<char>;

/// What `serde_json::from_str` makes of a text as a `Value`: the value, or how
/// its error reads.
pub uninterp spec fn parsed_json(text: Seq<char>) -> Result<crate::json::JsonView, Seq<char>>;

/// What `serde_json::to_string_pretty` writes for a value.
pub uninterp spec fn pretty_text(value: crate::json::JsonView) -> Seq<char>;

/// A character within a JSON string: quotes, backslashes and control characters
/// are escaped, all others stand for themselves.
pub open spec fn escaped_char(c: char) -> Seq<char> {
    if c == '"' || c == '\\' {
        seq!['\\', c]
    } else if c == '\u{8}' {
        seq!['\\', 'b']
    } else if c == '\t' {
        seq!['\\', 't']
    } else if c == '\n' {
        seq!['\\', 'n']
    } else if c == '\u{c}' {
        seq!['\\', 'f']
    } else if c == '\r' {
        seq!['\\', 'r']
    } else if (c as int) < 32 {
        seq!['\\', 'u', '0', '0', text::hex_digit(c as int / 16), text::hex_digit(c as int % 16)]
    } else {
        seq![c]
    }
}

/// The characters of a text within a JSON string.
pub open spec fn escaped_text(s: Seq<char>) -> Seq<char>
    decreases s.len(),
{
    if s.len() == 0 {
        Seq::empty()
    } else {
        escaped_text(s.drop_last()) + escaped_char(s.last())
    }
}

/// A text as a JSON string.
pub open spec fn quoted_text(s: Seq<char>) -> Seq<char> {
    seq!['"'] + escaped_text(s) + seq!['"']
}

/// What the `Debug` form of a string reads.
pub uninterp spec fn debug_text(text: Seq<char>) -> Seq<char>;

/// The SHA-256 digest of a byte string.
pub uninterp spec fn sha256(bytes: Seq<u8>) -> Seq<u8>;

/// A clone of a `serde_json::Number` holds the same number.
pub assume_specification[ <serde_json::Number as Clone>::clone ](
    n: &serde_json::Number,
) -> (r: serde_json::Number)
    ensures
        number_view(r) == number_view(*n),
;

/// `serde_json::Number::from` on an `i64` holds that integer.
#[verifier::external_body]
pub(crate) fn number_of(value: i64) -> (r: serde_json::Number)
    ensures
        number_view(r) == NumberView::Whole(value as int),
{
    serde_json::Number::from(value)
}

/// `serde_json::Number::from` on a `u64` holds that integer.
#[verifier::external_body]
pub(crate) fn number_of_count(value: u64) -> (r: serde_json::Number)
    ensures
        number_view(r) == NumberView::Whole(value as int),
{
    serde_json::Number::from(value)
}

/// `serde_json::Number::as_u64` gives the integer of a number that holds one
/// between zero and `u64::MAX`, and nothing for any other number.
#[verifier::external_body]
pub(crate) fn number_as_u64(n: &serde_json::Number) -> (r: Option<u64>)
    ensures
        r matches Some(i) ==> number_view(*n) == NumberView::Whole(i as int),
        r is None ==> !(number_view(*n) matches NumberView::Whole(i) && 0 <= i <= u64::MAX),
{
    n.as_u64()
}

/// A clone of a `serde_json::Map` holds the same entries.
pub assume_specification[ <serde_json::Map<String, serde_json::Value> as Clone>::clone ](
    m: &serde_json::Map<String, serde_json::Value>,
) -> (r: serde_json::Map<String, serde_json::Value>)
    ensures
        object_view(r) == object_view(*m),
;

/// `serde_json::Map::new` holds nothing.
#[verifier::external_body]
pub(crate) fn object_new() -> (r: serde_json::Map<String, serde_json::Value>)
    ensures
        object_view(r) == crate::json::no_entries(),
{
    serde_json::Map::new()
}

/// `serde_json::Map::get` gives the value under a key that the map holds, and
/// nothing for any other key.
#[verifier::external_body]
pub(crate) fn object_get<'a>(
    map: &'a serde_json::Map<String, serde_json::Value>,
    key: &str,
) -> (r: Option<&'a serde_json::Value>)
    ensures
        r is Some <==> object_view(*map).contains_key(key@),
        r matches Some(value) ==> value_view(*value) == object_view(*map)[key@],
{
    map.get(key)
}

/// `serde_json::Map::insert` puts the value under the key, in place of what
/// stood there, and leaves every other key alone.
#[verifier::external_body]
pub(crate) fn object_insert(
    map: &mut serde_json::Map<String, serde_json::Value>,
    key: String,
    value: serde_json::Value,
)
    ensures
        object_view(*final(map)) == object_view(*old(map)).insert(key@, value_view(value)),
{
    map.insert(key, value);
}

/// `serde_json::Map::remove` drops the key and leaves every other key alone.
#[verifier::external_body]
pub(crate) fn object_remove(map: &mut serde_json::Map<String, serde_json::Value>, key: &str)
    ensures
        object_view(*final(map)) == object_view(*old(map)).remove(key@),
{
    map.remove(key);
}

/// `serde_json::Map::keys` gives each key once. The map is a `BTreeMap`, so
/// they come in the order of strings, which compares them character by
/// character.
#[verifier::external_body]
pub(crate) fn object_keys(map: &serde_json::Map<String, serde_json::Value>) -> (r: Vec<String>)
    ensures
        forall|i: int|
            0 <= i < r@.len() ==> object_view(*map).contains_key((#[trigger] r@[i])@),
        forall|key: Seq<char>| #[trigger]
            object_view(*map).contains_key(key) ==> exists|i: int|
                0 <= i < r@.len() && (#[trigger] r@[i])@ == key,
        forall|i: int, j: int|
            0 <= i < j < r@.len() ==> text::precedes((#[trigger] r@[i])@, (#[trigger] r@[j])@),
{
    map.keys().cloned().collect()
}

/// A `serde_json::Value` as a JSON value of this library, variant by variant.
#[verifier::external_body]
pub(crate) fn json_of(value: &serde_json::Value) -> (r: Json)
    ensures
        r@ == value_view(*value),
{
    match value {
        serde_json::Value::Null => Json::Null,
        serde_json::Value::Bool(b) => Json::Bool(*b),
        serde_json::Value::Number(n) => Json::Number(n.clone()),
        serde_json::Value::String(s) => Json::Text(s.clone()),
        serde_json::Value::Array(v) => Json::List(v.iter().map(json_of).collect()),
        serde_json::Value::Object(m) => Json::Object(JsonObject { map: m.clone() }),
    }
}

/// A JSON value of this library as a `serde_json::Value`, variant by variant.
#[verifier::external_body]
pub(crate) fn value_of(value: &Json) -> (r: serde_json::Value)
    ensures
        value_view(r) == value@,
{
    match value {
        Json::Null => serde_json::Value::Null,
        Json::Bool(b) => serde_json::Value::Bool(*b),
        Json::Number(n) => serde_json::Value::Number(n.clone()),
        Json::Text(s) => serde_json::Value::String(s.clone()),
        Json::List(v) => serde_json::Value::Array(v.iter().map(value_of).collect()),
        Json::Object(o) => serde_json::Value::Object(o.map.clone()),
    }
}

/// `serde_json::from_str` into a `Value`; the outcome is named `parsed_json`.
#[verifier::external_body]
pub(crate) fn parse_value(text: &str) -> (r: Result<serde_json::Value, serde_json::Error>)
    ensures
        match parsed_json(text@) {
            Ok(view) => r matches Ok(v) && value_view(v) == view,
            Err(t) => r matches Err(e) && json_error_text(e) == t,
        },
{
    serde_json::from_str(text)
}

/// The `Display` text of a `serde_json::Error`, named `json_error_text`.
#[verifier::external_body]
pub(crate) fn error_text(error: &serde_json::Error) -> (r: String)
    ensures
        r@ == json_error_text(*error),
{
    error.to_string()
}

/// `serde_json::to_string_pretty` on a `Value`, named `pretty_text`. Writing a
/// `Value` into memory does not fail, as every key is a string; were it to,
/// the compact form would stand in.
#[verifier::external_body]
pub(crate) fn pretty_value(value: &serde_json::Value) -> (r: String)
    ensures
        r@ == pretty_text(value_view(*value)),
{
    serde_json::to_string_pretty(value).unwrap_or_else(|_| value.to_string())
}

/// `serde_json::to_string` on a string: the text in quotes, with the characters
/// escaped that JSON does not take as they are. Writing a string into memory
/// does not fail.
#[verifier::external_body]
pub(crate) fn quoted(text: &str) -> (r: Result<String, serde_json::Error>)
    ensures
        r is Ok && r->Ok_0@ == quoted_text(text@),
{
    serde_json::to_string(text)
}

/// The `Debug` form of a string, in quotes and escaped, named `debug_text`.
#[verifier::external_body]
pub(crate) fn debug_quoted(text: &str) -> (r: String)
    ensures
        r@ == debug_text(text@),
{
    format!("{text:?}")
}

/// `Sha256::digest`, named `sha256`. A SHA-256 digest is 32 bytes long.
#[verifier::external_body]
pub(crate) fn sha256_digest(bytes: &[u8]) -> (r: Vec<u8>)
    ensures
        r@ == sha256(bytes@),
        r@.len() == 32,
{
    sha2::Sha256::digest(bytes).to_vec()
}

/// How `serde_json::from_value` refuses a value as a string.
pub uninterp spec fn string_refusal(value: crate::json::JsonView) -> Seq<char>;

/// How `serde_json::from_value` refuses a value as an optional string.
pub uninterp spec fn nullable_refusal(value: crate::json::JsonView) -> Seq<char>;

/// How `serde_json::from_value` refuses a value as an `i64`.
pub uninterp spec fn i64_refusal(value: crate::json::JsonView) -> Seq<char>;

/// How `serde_json::from_value` refuses a value as a `bool`.
pub uninterp spec fn bool_refusal(value: crate::json::JsonView) -> Seq<char>;

/// How `serde_json::from_value` refuses a value as a list of strings.
pub uninterp spec fn strings_refusal(value: crate::json::JsonView) -> Seq<char>;

/// `serde_json::from_value` into a `String` takes a string and nothing else.
#[verifier::external_body]
pub(crate) fn decode_string(value: &Json) -> (r: Result<String, String>)
    ensures
        match value@ {
            crate::json::JsonView::Text(s) => r is Ok && r->Ok_0@ == s,
            other => r is Err && r->Err_0@ == string_refusal(other),
        },
{
    serde_json::from_value::<String>(value_of(value)).map_err(|error| error.to_string())
}

/// `serde_json::from_value` into an `Option<String>` takes a string or `null`
/// and nothing else.
#[verifier::external_body]
pub(crate) fn decode_nullable(value: &Json) -> (r: Result<Option<String>, String>)
    ensures
        match value@ {
            crate::json::JsonView::Null => r is Ok && r->Ok_0 is None,
            crate::json::JsonView::Text(s) => r is Ok && r->Ok_0 is Some && r->Ok_0->0@ == s,
            other => r is Err && r->Err_0@ == nullable_refusal(other),
        },
{
    serde_json::from_value::<Option<String>>(value_of(value)).map_err(|error| error.to_string())
}

/// The integer that a value holds, where it is one that fits in an `i64`.
pub open spec fn i64_of(value: crate::json::JsonView) -> Option<i64> {
    match value {
        crate::json::JsonView::Number(NumberView::Whole(i)) => if i64::MIN <= i <= i64::MAX {
            Some(i as i64)
        } else {
            None
        },
        _ => None,
    }
}

/// `serde_json::from_value` into an `i64` takes an integer that fits and
/// nothing else.
#[verifier::external_body]
pub(crate) fn decode_i64(value: &Json) -> (r: Result<i64, String>)
    ensures
        match i64_of(value@) {
            Some(i) => r is Ok && r->Ok_0 == i,
            None => r is Err && r->Err_0@ == i64_refusal(value@),
        },
{
    serde_json::from_value::<i64>(value_of(value)).map_err(|error| error.to_string())
}

/// `serde_json::from_value` into a `bool` takes a boolean and nothing else.
#[verifier::external_body]
pub(crate) fn decode_bool(value: &Json) -> (r: Result<bool, String>)
    ensures
        match value@ {
            crate::json::JsonView::Bool(b) => r is Ok && r->Ok_0 == b,
            other => r is Err && r->Err_0@ == bool_refusal(other),
        },
{
    serde_json::from_value::<bool>(value_of(value)).map_err(|error| error.to_string())
}

/// The strings of a value that is a list of strings.
pub open spec fn strings_of(value: crate::json::JsonView) -> Option<Seq<Seq<char>>> {
    match value {
        crate::json::JsonView::List(items) => if forall|i: int|
            0 <= i < items.len() ==> #[trigger] items[i] is Text {
            Some(items.map_values(|item: crate::json::JsonView| item->Text_0))
        } else {
            None
        },
        _ => None,
    }
}

/// `serde_json::from_value` into a `Vec<String>` takes a list of strings and
/// nothing else.
#[verifier::external_body]
pub(crate) fn decode_strings(value: &Json) -> (r: Result<Vec<String>, String>)
    ensures
        match strings_of(value@) {
            Some(items) => r is Ok && r->Ok_0@.map_values(|s: String| s@) == items,
            None => r is Err && r->Err_0@ == strings_refusal(value@),
        },
{
    serde_json::from_value::<Vec<String>>(value_of(value)).map_err(|error| error.to_string())
}

/// What `Uuid::parse_str` makes of a text: the number, or how its error reads.
pub uninterp spec fn parsed_uuid(text: Seq<char>) -> Result<u128, Seq<char>>;

/// `Uuid::parse_str`, named `parsed_uuid`; the UUID as its number.
#[verifier::external_body]
pub(crate) fn parse_uuid(text: &str) -> (r: Result<u128, String>)
    ensures
        match parsed_uuid(text@) {
            Ok(n) => r is Ok && r->Ok_0 == n,
            Err(e) => r is Err && r->Err_0@ == e,
        },
{
    uuid::Uuid::parse_str(text).map(|id| id.as_u128()).map_err(|error| error.to_string())
}

#[verifier::external_type_specification]
#[verifier::external_body]
pub struct ExUrl(url::Url);

/// The parts of a URL that the rules read.
pub ghost struct UrlView {
    pub scheme: Seq<char>,
    pub host: Option<Seq<char>>,
    pub origin: Seq<char>,
}

/// What a `url::Url` holds: its scheme, its host, and the ASCII serialization
/// of its origin.
pub uninterp spec fn url_view(url: url::Url) -> UrlView;

/// What `Url::parse` makes of a text; nothing where it fails.
pub uninterp spec fn parsed_url(text: Seq<char>) -> Option<UrlView>;

/// `Url::parse`, named `parsed_url`.
#[verifier::external_body]
pub(crate) fn parse_url(text: &str) -> (r: Option<url::Url>)
    ensures
        match parsed_url(text@) {
            Some(view) => r is Some && url_view(r->0) == view,
            None => r is None,
        },
{
    url::Url::parse(text).ok()
}

/// `Url::scheme`.
#[verifier::external_body]
pub(crate) fn url_scheme(url: &url::Url) -> (r: String)
    ensures
        r@ == url_view(*url).scheme,
{
    url.scheme().to_string()
}

/// `Url::host_str`.
#[verifier::external_body]
pub(crate) fn url_host(url: &url::Url) -> (r: Option<String>)
    ensures
        crate::records::opt_view(r) == url_view(*url).host,
{
    url.host_str().map(str::to_string)
}

/// `Url::origin` in its `ascii_serialization`: scheme, host and port of an
/// `http` or `https` URL. Other schemes are left out, as the origin of a `blob`
/// URL is that of the URL in its path, found by a recursion as deep as such
/// URLs are nested.
#[verifier::external_body]
pub(crate) fn url_origin(url: &url::Url) -> (r: String)
    requires
        url_view(*url).scheme == "http"@ || url_view(*url).scheme == "https"@,
    ensures
        r@ == url_view(*url).origin,
{
    url.origin().ascii_serialization()
}

/// A lower-case hexadecimal digit.
pub open spec fn is_hex_digit(c: char) -> bool {
    '0' <= c <= '9' || 'a' <= c <= 'f'
}

/// The hyphenated form of a UUID.
pub open spec fn uuid_text(s: Seq<char>) -> bool {
    &&& s.len() == 36
    &&& forall|i: int|
        0 <= i < 36 ==> (if i == 8 || i == 13 || i == 18 || i == 23 {
            #[trigger] s[i] == '-'
        } else {
            is_hex_digit(s[i])
        })
}

/// `Uuid::new_v4` in its `Display` form: a hyphenated UUID in lower case. Which
/// one is left to chance.
#[verifier::external_body]
pub(crate) fn fresh_uuid() -> (r: String)
    ensures
        uuid_text(r@),
{
    uuid::Uuid::new_v4().to_string()
}

/// The JSON value that a text holds, or how the parse error reads.
pub fn parse_json(text: &str) -> (r: Result<Json, String>)
    ensures
        match parsed_json(text@) {
            Ok(v) => r matches Ok(j) && j@ == v,
            Err(e) => r matches Err(s) && s@ == e,
        },
{
    match parse_value(text) {
        Ok(value) => Ok(json_of(&value)),
        Err(error) => Err(error_text(&error)),
    }
}

/// A JSON value as indented text.
pub fn pretty_json(value: &Json) -> (r: String)
    ensures
        r@ == pretty_text(value@),
{
    pretty_value(&value_of(value))
}

} // verus!
