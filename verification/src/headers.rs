use crate::text::{lower, octets, spelled};
use axum::http::header::{HeaderMap, HeaderValue};
use vstd::prelude::*;
use vstd::utf8::is_ascii_chars;

verus! {

/// `http::HeaderMap`, the multimap of the header fields of a message. Nothing is
/// known of what is inside but through `fields`.
#[verifier::external_type_specification]
#[verifier::external_body]
#[verifier::reject_recursive_types(T)]
pub struct ExHeaderMap<T>(HeaderMap<T>);

/// `http::HeaderValue`, the value of one header field. Nothing is known of what is
/// inside but through `value_bytes`.
#[verifier::external_type_specification]
#[verifier::external_body]
pub struct ExHeaderValue(HeaderValue);

/// The octets of a header value.
pub uninterp spec fn value_bytes(v: HeaderValue) -> Seq<u8>;

/// What a header map holds: under each field name, written in lower case, the values
/// of that field in the order in which they were added. A name that is in the map
/// has at least one value.
pub uninterp spec fn fields(hm: HeaderMap) -> Map<Seq<char>, Seq<Seq<u8>>>;

/// An octet that may stand in a header value that is read as text: a printable
/// ASCII character, a space or a tab.
pub open spec fn visible_octet(b: u8) -> bool {
    (32 <= b && b < 127) || b == 9
}

/// Whether every octet of a header value may stand in a text.
pub open spec fn visible(v: Seq<u8>) -> bool {
    forall|i: int| 0 <= i < v.len() ==> visible_octet(#[trigger] v[i])
}

/// The first value of the field `key`, whose name is matched without regard to
/// the case of ASCII letters.
pub open spec fn first_value(hm: HeaderMap, key: Seq<char>) -> Option<Seq<u8>> {
    if fields(hm).contains_key(lower(key)) {
        Some(fields(hm)[lower(key)][0])
    } else {
        None
    }
}

/// The first value of the field `key` as a text, where the field is there and that
/// value holds visible octets only.
pub open spec fn header_text(hm: HeaderMap, key: Seq<char>) -> Option<Seq<char>> {
    match first_value(hm, key) {
        Some(v) => if visible(v) {
            Some(spelled(v))
        } else {
            None
        },
        None => None,
    }
}

/// A text spelled by visible octets is ASCII.
pub proof fn lemma_visible_is_ascii(v: Seq<u8>)
    requires
        visible(v),
    ensures
        is_ascii_chars(spelled(v)),
{
    assert forall|i: int| 0 <= i < spelled(v).len() implies '\0' <= #[trigger] spelled(v)[i]
        <= '\u{7f}' by {
        assert(visible_octet(v[i]));
    }
}

/// `HeaderMap::get` with a text as the key. The key is matched against the field
/// names after its ASCII capital letters are made small; a key that is no valid
/// field name matches none. A field that is in the map has a value, and of several
/// values of one field the first is handed out.
#[verifier::external_body]
pub(crate) fn map_get<'a>(hm: &'a HeaderMap, key: &str) -> (r: Option<&'a HeaderValue>)
    ensures
        r.is_some() == fields(*hm).contains_key(lower(key@)),
        r.is_some() ==> fields(*hm)[lower(key@)].len() > 0,
        r matches Some(v) ==> Some(value_bytes(*v)) == first_value(*hm, key@),
{
    hm.get(key)
}

/// `HeaderMap::contains_key` with a text as the key, matched as `HeaderMap::get`
/// matches it. A field that is in the map has a value.
#[verifier::external_body]
pub(crate) fn map_contains(hm: &HeaderMap, key: &str) -> (r: bool)
    ensures
        r == fields(*hm).contains_key(lower(key@)),
        r ==> fields(*hm)[lower(key@)].len() > 0,
{
    hm.contains_key(key)
}

/// `HeaderMap::remove` with a text as the key: the field that the key matches
/// leaves the map with all its values, every other field stays as it is.
#[verifier::external_body]
pub(crate) fn map_remove(hm: &mut HeaderMap, key: &str)
    ensures
        fields(*final(hm)) == fields(*old(hm)).remove(lower(key@)),
{
    hm.remove(key);
}

/// `HeaderMap::clone`: the copy holds the same fields with the same values.
#[verifier::external_body]
pub(crate) fn map_clone(hm: &HeaderMap) -> (r: HeaderMap)
    ensures
        fields(r) == fields(*hm),
{
    hm.clone()
}

/// `HeaderValue::to_str`: the value as a text, where each of its octets is visible;
/// the text then has one character for each octet.
#[verifier::external_body]
pub(crate) fn value_to_str<'a>(v: &'a HeaderValue) -> (r: Option<&'a str>)
    ensures
        r.is_some() == visible(value_bytes(*v)),
        r matches Some(s) ==> s@ == spelled(value_bytes(*v)),
{
    v.to_str().ok()
}

/// `HeaderValue::from_static`: a value with the octets of the text. The text must be
/// made of visible ASCII characters, as the call panics on any other.
#[verifier::external_body]
pub(crate) fn static_value(s: &'static str) -> (r: HeaderValue)
    requires
        is_ascii_chars(s@),
        visible(octets(s@)),
    ensures
        value_bytes(r) == octets(s@),
{
    HeaderValue::from_static(s)
}

/// The text of the field `key` in `hm`, or what `or` gives where the field is not
/// there or its first value holds an octet that is not visible.
pub fn extract_header(hm: &HeaderMap, key: &str, or: impl FnOnce() -> String) -> (r: String)
    requires
        or.requires(()),
    ensures
        match header_text(*hm, key@) {
            Some(t) => r@ == t,
            None => or.ensures((), r),
        },
{
    match map_get(hm, key) {
        None => or(),
        Some(v) => match value_to_str(v) {
            Some(s) => s.to_owned(),
            None => or(),
        },
    }
}

/// The text of the field `key`, and the empty text where `header_text` has none.
pub open spec fn text_or_empty(hm: HeaderMap, key: Seq<char>) -> Seq<char> {
    match header_text(hm, key) {
        Some(t) => t,
        None => Seq::empty(),
    }
}

/// The text of the field `key` in `hm`, or the empty text where the field is not
/// there or its first value holds an octet that is not visible.
pub fn header_or_empty(hm: &HeaderMap, key: &str) -> (r: String)
    ensures
        r@ == text_or_empty(*hm, key@),
{
    let or = || -> (s: String)
        ensures
            s@ == Seq::<char>::empty(),
        { String::new() };
    extract_header(hm, key, or)
}

} // verus!
