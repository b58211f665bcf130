//! Header fields as `http` holds them: the names under which the contracts
//! speak of a field map and of a field value, and the calls into `http`.

use bytes::Bytes;
use http::header::{Entry, InvalidHeaderValue, ToStrError};
use http::{HeaderMap, HeaderValue, Method};
use vstd::prelude::*;
use vstd::string::*;

use crate::{buf, text};

verus! {

/// The field map of `http`. Verus sees nothing inside it.
#[verifier::external_type_specification]
#[verifier::external_body]
#[verifier::reject_recursive_types(T)]
pub struct ExHeaderMap<T>(HeaderMap<T>);

/// The field value of `http`. Verus sees nothing inside it.
#[verifier::external_type_specification]
#[verifier::external_body]
pub struct ExHeaderValue(HeaderValue);

/// The failure of `HeaderValue::to_str`.
#[verifier::external_type_specification]
#[verifier::external_body]
pub struct ExToStrError(ToStrError);

/// The failure of `HeaderValue::from_maybe_shared`.
#[verifier::external_type_specification]
#[verifier::external_body]
pub struct ExInvalidHeaderValue(InvalidHeaderValue);

/// The method of `http`. Verus sees nothing inside it.
#[verifier::external_type_specification]
#[verifier::external_body]
pub struct ExMethod(Method);

/// What a field map holds: for each field name, in lower case, the bytes of
/// its values in the order in which they were added. A name that is present
/// has at least one value.
pub uninterp spec fn field_values(headers: HeaderMap) -> Map<Seq<char>, Seq<Seq<u8>>>;

/// The bytes that a field value holds.
pub uninterp spec fn value_bytes(value: HeaderValue) -> Seq<u8>;

/// The characters that a method token holds.
pub uninterp spec fn method_token(method: Method) -> Seq<char>;

/// The values of a name, none where the fields do not hold it.
pub open spec fn values_in(held: Map<Seq<char>, Seq<Seq<u8>>>, name: Seq<char>) -> Seq<Seq<u8>> {
    if held.contains_key(field_key(name)) {
        held[field_key(name)]
    } else {
        Seq::empty()
    }
}

/// The values of a name, none where the map does not hold it.
pub open spec fn values_of(headers: HeaderMap, name: Seq<char>) -> Seq<Seq<u8>> {
    values_in(field_values(headers), name)
}

/// The bytes of each value.
pub open spec fn bytes_of_each(values: Seq<&HeaderValue>) -> Seq<Seq<u8>> {
    values.map_values(|value: &HeaderValue| value_bytes(*value))
}

/// Up to this many names a field map always has room for one more. `http`
/// refuses to grow a table of 32768 slots; it asks to at a fifth of them when
/// names collide.
pub const MAX_FIELD_NAMES: usize = 6553;

/// A character of a field name in its stored form: a lower-case letter, a
/// digit or a hyphen. Names may hold other characters too; those of this
/// library do not.
pub open spec fn is_name_char(c: char) -> bool {
    'a' <= c <= 'z' || '0' <= c <= '9' || c == '-'
}

/// A field name in its stored form.
pub open spec fn is_field_name(name: Seq<char>) -> bool {
    &&& 0 < name.len() <= 64
    &&& forall|i: int| 0 <= i < name.len() ==> is_name_char(#[trigger] name[i])
}

/// An ASCII letter in lower case; any other character as it is.
pub open spec fn lower_char(c: char) -> char {
    if 'A' <= c && c <= 'Z' {
        ((c as u32 + 32) as u32) as char
    } else {
        c
    }
}

/// Field names compare without regard to ASCII case: the key of a name.
pub open spec fn field_key(name: Seq<char>) -> Seq<char> {
    name.map_values(|c: char| lower_char(c))
}

/// A byte that may occur in a field value.
pub open spec fn is_value_byte(b: u8) -> bool {
    b >= 32 && b != 127 || b == 9
}

/// A byte that may occur in a field value read as text: visible ASCII, a
/// space or a tab.
pub open spec fn is_text_byte(b: u8) -> bool {
    32 <= b < 127 || b == 9
}

/// Whether a value can be read as text.
pub open spec fn is_text(bytes: Seq<u8>) -> bool {
    forall|i: int| 0 <= i < bytes.len() ==> is_text_byte(#[trigger] bytes[i])
}

/// The characters of ASCII bytes.
pub open spec fn chars_of(bytes: Seq<u8>) -> Seq<char> {
    bytes.map_values(|b: u8| b as char)
}

/// Calls `HeaderMap::remove`. It takes out every value of the name, matched
/// without regard to ASCII case, and returns the first of them; a name that no
/// map can hold removes nothing. A map holds finitely many names.
#[verifier::external_body]
pub(crate) fn remove_field(headers: &mut HeaderMap, name: &str) -> (removed: Option<HeaderValue>)
    ensures
        field_values(*final(headers)) == field_values(*old(headers)).remove(field_key(name@)),
        field_values(*final(headers)).dom().finite(),
        removed matches Some(value) ==> field_values(*old(headers)).contains_key(field_key(name@))
            && field_values(*old(headers))[field_key(name@)].len() > 0
            && value_bytes(value) == field_values(*old(headers))[field_key(name@)][0],
        removed is None ==> !field_values(*old(headers)).contains_key(field_key(name@)),
{
    headers.remove(name)
}

/// Calls `HeaderMap::get`: the first value of the name, matched without regard
/// to ASCII case.
#[verifier::external_body]
pub(crate) fn first_value<'a>(headers: &'a HeaderMap, name: &str) -> (value: Option<&'a HeaderValue>)
    ensures
        value matches Some(v) ==> field_values(*headers).contains_key(field_key(name@))
            && field_values(*headers)[field_key(name@)].len() > 0
            && value_bytes(*v) == field_values(*headers)[field_key(name@)][0],
        value is None ==> !field_values(*headers).contains_key(field_key(name@)),
{
    headers.get(name)
}

/// Calls `HeaderMap::get_all`: every value of the name, matched without regard
/// to ASCII case, in the order in which they were added. A name that is present
/// has at least one.
#[verifier::external_body]
pub(crate) fn all_values<'a>(headers: &'a HeaderMap, name: &str) -> (values: Vec<&'a HeaderValue>)
    ensures
        values@.len() == values_of(*headers, name@).len(),
        field_values(*headers).contains_key(field_key(name@)) ==> values@.len() > 0,
        forall|i: int|
            0 <= i < values@.len() ==> value_bytes(*#[trigger] values@[i]) == values_of(
                *headers,
                name@,
            )[i],
{
    headers.get_all(name).iter().collect()
}

/// Calls `HeaderMap::try_entry`, `Entry::or_try_insert_with` and the conversion
/// of a `u64` into a `HeaderValue`: a name without a value gets one, the decimal
/// digits of the number; a name that has values keeps them. It fails, with
/// nothing changed, only where the table cannot grow; whether it can with more
/// than `MAX_FIELD_NAMES` names depends on how they collide, and is not said.
#[verifier::external_body]
pub(crate) fn insert_number_if_missing(headers: &mut HeaderMap, name: &str, number: u64) -> (done:
    bool)
    requires
        is_field_name(name@),
    ensures
        done ==> field_values(*final(headers)) == if field_values(*old(headers)).contains_key(
            name@,
        ) {
            field_values(*old(headers))
        } else {
            field_values(*old(headers)).insert(name@, seq![text::decimal(number as nat)])
        },
        !done ==> field_values(*final(headers)) == field_values(*old(headers)),
        !done ==> field_values(*old(headers)).dom().len() > MAX_FIELD_NAMES,
{
    match headers.try_entry(name) {
        Ok(entry) => entry.or_try_insert_with(|| HeaderValue::from(number)).is_ok(),
        Err(_) => false,
    }
}

/// Calls `HeaderMap::try_entry`, `OccupiedEntry::iter_mut` and the iterator's
/// `next_back`: replaces the last value of a name that has values. It fails,
/// with nothing changed, only where the table cannot grow; whether it can with
/// more than `MAX_FIELD_NAMES` names depends on how they collide, and is not
/// said.
#[verifier::external_body]
pub(crate) fn replace_last_value(headers: &mut HeaderMap, name: &str, value: HeaderValue) -> (done:
    bool)
    requires
        is_field_name(name@),
        field_values(*old(headers)).contains_key(name@),
    ensures
        done ==> field_values(*final(headers)) == field_values(*old(headers)).insert(
            name@,
            field_values(*old(headers))[name@].drop_last().push(value_bytes(value)),
        ),
        !done ==> field_values(*final(headers)) == field_values(*old(headers)),
        !done ==> field_values(*old(headers)).dom().len() > MAX_FIELD_NAMES,
{
    if let Ok(Entry::Occupied(mut entry)) = headers.try_entry(name) {
        if let Some(last) = entry.iter_mut().next_back() {
            *last = value;
            return true;
        }
    }
    false
}

/// Calls `HeaderValue::as_bytes`: the bytes of the value, each of which may
/// occur in one.
#[verifier::external_body]
pub(crate) fn bytes_of(value: &HeaderValue) -> (bytes: &[u8])
    ensures
        bytes@ == value_bytes(*value),
        forall|i: int| 0 <= i < bytes@.len() ==> is_value_byte(#[trigger] bytes@[i]),
{
    value.as_bytes()
}

/// Calls `HeaderValue::to_str`: the value as text, unless one of its bytes is
/// neither visible ASCII nor a space or a tab.
#[verifier::external_body]
pub(crate) fn text_of(value: &HeaderValue) -> (text: Result<&str, ToStrError>)
    ensures
        text matches Ok(s) ==> is_text(value_bytes(*value)) && s@ == chars_of(value_bytes(*value)),
        text is Err ==> !is_text(value_bytes(*value)),
{
    value.to_str()
}

/// Calls `HeaderValue::from_maybe_shared` on `Bytes`: a value of those bytes,
/// unless one of them may not occur in a value.
#[verifier::external_body]
pub(crate) fn value_of(bytes: Bytes) -> (value: Result<HeaderValue, InvalidHeaderValue>)
    ensures
        value matches Ok(v) ==> value_bytes(v) == buf::content(bytes),
        value is Ok <==> forall|i: int|
            0 <= i < buf::content(bytes).len() ==> is_value_byte(
                #[trigger] buf::content(bytes)[i],
            ),
{
    HeaderValue::from_maybe_shared(bytes)
}

/// Calls `Method::as_str`: the token of the method.
#[verifier::external_body]
pub(crate) fn token_of(method: &Method) -> (token: &str)
    ensures
        token@ == method_token(*method),
{
    method.as_str()
}

/// The text of a value that can be read as text is ASCII, and its bytes are
/// those of the value.
pub(crate) proof fn lemma_text_bytes(text: &str, bytes: Seq<u8>)
    requires
        is_text(bytes),
        text@ == chars_of(bytes),
    ensures
        text.is_ascii(),
        text.spec_bytes() == bytes,
{
    broadcast use vstd::string::is_ascii_spec_bytes;

    assert forall|i: int| 0 <= i < text@.len() implies (#[trigger] text@[i]) as u32 <= 127 by {
        assert(is_text_byte(bytes[i]));
    }
    assert(text.is_ascii());
    assert(text.spec_bytes() =~= bytes) by {
        assert forall|i: int| 0 <= i < bytes.len() implies text@[i] as u8 == bytes[i] by {
            assert(is_text_byte(bytes[i]));
        }
    }
}

/// A value can be read as text where it holds visible ASCII, spaces and tabs, and
/// nothing else; and what can stand in a value at all is that and bytes beyond
/// ASCII.
pub proof fn law_text_is_visible_ascii(bytes: Seq<u8>, b: u8)
    ensures
        is_text(bytes) <==> forall|i: int|
            0 <= i < bytes.len() ==> 32 <= #[trigger] bytes[i] <= 126 || bytes[i] == 9,
        is_value_byte(b) <==> 32 <= b <= 126 || b >= 128 || b == 9,
{
    if is_text(bytes) {
        assert forall|i: int| 0 <= i < bytes.len() implies 32 <= #[trigger] bytes[i] <= 126
            || bytes[i] == 9 by {
            assert(is_text_byte(bytes[i]));
        }
    }
}

/// The values of a name are those that are stored under it in lower case, where
/// there are any.
pub proof fn law_values_are_found_without_case(
    held: Map<Seq<char>, Seq<Seq<u8>>>,
    name: Seq<char>,
    i: int,
)
    requires
        0 <= i < name.len(),
    ensures
        field_key(name).len() == name.len(),
        !('A' <= name[i] <= 'Z') ==> field_key(name)[i] == name[i],
        'A' <= name[i] <= 'Z' ==> field_key(name)[i] as u32 == name[i] as u32 + 32,
        held.contains_key(field_key(name)) ==> values_in(held, name) == held[field_key(name)],
        !held.contains_key(field_key(name)) ==> values_in(held, name).len() == 0,
{
}

} // verus!
