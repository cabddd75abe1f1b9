//! HTTP header fields: the header map and the values kept in it.
use http::header::{HeaderMap, HeaderValue};
use vstd::prelude::*;
use vstd::string::*;
use vstd::utf8::*;

verus! {

/// A header value of the `http` crate.
#[verifier::external_type_specification]
#[verifier::external_body]
pub struct ExHeaderValue(http::header::HeaderValue);

/// The header multimap of the `http` crate.
#[verifier::external_type_specification]
#[verifier::external_body]
#[verifier::reject_recursive_types(T)]
pub struct ExHeaderMap<T>(http::header::HeaderMap<T>);

/// What a header map holds: for each field name, in lower case, the values of that field in the
/// order in which they were added. A value is its bytes and whether it is marked sensitive.
pub uninterp spec fn header_entries(headers: HeaderMap<HeaderValue>) -> Map<
    Seq<char>,
    Seq<(Seq<u8>, bool)>,
>;

/// The contents of a map without fields.
pub open spec fn no_headers() -> Map<Seq<char>, Seq<(Seq<u8>, bool)>> {
    Map::empty()
}

/// The contents `entries` after `value` was added at the end of the values of `name`.
pub open spec fn with_header(
    entries: Map<Seq<char>, Seq<(Seq<u8>, bool)>>,
    name: Seq<char>,
    value: Seq<u8>,
) -> Map<Seq<char>, Seq<(Seq<u8>, bool)>> {
    let before = if entries.dom().contains(name) {
        entries[name]
    } else {
        Seq::empty()
    };
    entries.insert(name, before.push((value, false)))
}

/// The form in which this library writes field names: lower-case letters and hyphens.
pub open spec fn is_field_name(name: Seq<char>) -> bool {
    &&& 1 <= name.len() <= 64
    &&& forall|i: int| 0 <= i < name.len() ==> 'a' <= #[trigger] name[i] <= 'z' || name[i] == '-'
}

/// The bytes that a header value may hold: all but the control characters, the tab excepted.
pub open spec fn is_value_byte(byte: u8) -> bool {
    byte >= 32 && byte != 127 || byte == 9
}

/// Whether `bytes` can stand in a header value.
pub open spec fn are_value_bytes(bytes: Seq<u8>) -> bool {
    forall|i: int| 0 <= i < bytes.len() ==> is_value_byte(#[trigger] bytes[i])
}

/// Whether `text` can stand in a header value.
pub open spec fn is_value_text(text: Seq<char>) -> bool {
    are_value_bytes(encode_utf8(text))
}

/// `HeaderMap::new` of the `http` crate.
///
/// Trusted: the new map is empty.
#[verifier::external_body]
pub(crate) fn new_headers() -> (headers: HeaderMap<HeaderValue>)
    ensures
        header_entries(headers) == no_headers(),
{
    HeaderMap::new()
}

/// `HeaderMap::append` of the `http` crate, on a value made by `HeaderValue::from_str`.
///
/// Trusted: the value, not marked sensitive, is added at the end of the values of the field, and
/// nothing else changes. The map is not full: it takes at most 32768 different fields.
#[verifier::external_body]
pub(crate) fn append_header(
    headers: &mut HeaderMap<HeaderValue>,
    name: &'static str,
    text: &str,
)
    requires
        is_field_name(name@),
        is_value_text(text@),
        header_entries(*old(headers)).dom().finite(),
        header_entries(*old(headers)).dom().len() < 32768,
    ensures
        header_entries(*final(headers)) == with_header(
            header_entries(*old(headers)),
            name@,
            encode_utf8(text@),
        ),
{
    headers.append(name, HeaderValue::from_str(text).unwrap());
}

/// `HeaderMap::get` of the `http` crate, with the value taken apart by `HeaderValue::as_bytes`
/// and `HeaderValue::is_sensitive`.
///
/// Trusted: a value is found exactly when the map holds the field, it is the first value of that
/// field, and its bytes can stand in a header value.
#[verifier::external_body]
pub(crate) fn first_header(headers: &HeaderMap<HeaderValue>, name: &str) -> (found: Option<
    (Vec<u8>, bool),
>)
    requires
        is_field_name(name@),
    ensures
        found is Some <==> header_entries(*headers).dom().contains(name@),
        found matches Some(value) ==> {
            &&& header_entries(*headers)[name@].len() > 0
            &&& header_entries(*headers)[name@][0] == (value.0@, value.1)
            &&& are_value_bytes(value.0@)
        },
{
    headers.get(name).map(|value| (value.as_bytes().to_vec(), value.is_sensitive()))
}

/// A lower-case hexadecimal digit.
pub open spec fn hex_digit(value: int) -> char
    recommends
        0 <= value < 16,
{
    if value < 10 {
        ('0' as int + value) as char
    } else {
        ('a' as int + value - 10) as char
    }
}

/// How a byte of a header value is shown: visible characters and the tab as they are, the double
/// quote after a backslash, other bytes as `\x` and their hexadecimal digits.
pub open spec fn shown_byte(byte: u8) -> Seq<char> {
    if byte == 34 {
        seq!['\\', '"']
    } else if 32 <= byte < 127 || byte == 9 {
        seq![byte as char]
    } else if byte < 16 {
        seq!['\\', 'x', hex_digit(byte as int)]
    } else {
        seq!['\\', 'x', hex_digit(byte as int / 16), hex_digit(byte as int % 16)]
    }
}

/// How the bytes of a header value are shown, one after the other.
pub open spec fn shown_bytes(bytes: Seq<u8>) -> Seq<char>
    decreases bytes.len(),
{
    if bytes.len() == 0 {
        Seq::empty()
    } else {
        shown_bytes(bytes.drop_last()) + shown_byte(bytes.last())
    }
}

/// How a header value is shown: in double quotes, or as the word `Sensitive`.
pub open spec fn shown_value(bytes: Seq<u8>, sensitive: bool) -> Seq<char> {
    if sensitive {
        "Sensitive"@
    } else {
        seq!['"'] + shown_bytes(bytes) + seq!['"']
    }
}

/// The `Debug` form of `HeaderValue` of the `http` crate, on a value made by
/// `HeaderValue::from_bytes` and marked by `HeaderValue::set_sensitive`.
///
/// Trusted: a sensitive value is shown as the word `Sensitive`, any other byte by byte in double
/// quotes.
#[verifier::external_body]
pub(crate) fn show_header_value(bytes: &[u8], sensitive: bool) -> (text: String)
    requires
        are_value_bytes(bytes@),
    ensures
        text@ == shown_value(bytes@, sensitive),
{
    let mut value = HeaderValue::from_bytes(bytes).unwrap();
    value.set_sensitive(sensitive);
    format!("{:?}", value)
}

/// Tells whether `text` can stand in a header value.
pub fn is_header_text(text: &str) -> (valid: bool)
    ensures
        valid == is_value_text(text@),
{
    let bytes = text.as_bytes();
    let mut i: usize = 0;
    while i < bytes.len()
        invariant
            i <= bytes.len(),
            bytes@ == encode_utf8(text@),
            forall|k: int| 0 <= k < i ==> is_value_byte(#[trigger] bytes@[k]),
        decreases bytes.len() - i,
    {
        let byte: u8 = bytes[i];
        if !(byte >= 32 && byte != 127 || byte == 9) {
            return false;
        }
        i += 1;
    }
    true
}

/// Visible ASCII text can stand in a header value.
pub(crate) proof fn lemma_visible_is_value_text(text: Seq<char>)
    requires
        forall|i: int| 0 <= i < text.len() ==> ' ' <= #[trigger] text[i] <= '~',
    ensures
        is_value_text(text),
{
    is_ascii_chars_encode_utf8(text);
}

} // verus!
