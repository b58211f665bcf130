//! Header fields with a meaning for the connection or for message framing.

use http::{HeaderMap, HeaderValue, Method};
use vstd::prelude::*;
use vstd::string::*;

use crate::{buf, fields, text};

verus! {

/// The fields of RFC 9110, Section 7.6.1 that HTTP/2 and HTTP/3 forbid.
/// `te` is not among them: a request may carry it with the value `trailers`.
pub open spec fn is_connection_field(name: Seq<char>) -> bool {
    ||| name == "keep-alive"@
    ||| name == "proxy-connection"@
    ||| name == "transfer-encoding"@
    ||| name == "upgrade"@
    ||| name == "connection"@
}

/// Whether the `te` field must go: always from a response, and from a request
/// whose first `te` value is not exactly `trailers`.
pub open spec fn refuses_te(held: Map<Seq<char>, Seq<Seq<u8>>>, is_request: bool) -> bool {
    is_request ==> held.contains_key("te"@) && held["te"@][0] != "trailers".spec_bytes()
}

/// Whether the first `connection` value, read as a comma-separated list, names
/// the field as meant for this connection only.
pub open spec fn is_nominated(held: Map<Seq<char>, Seq<Seq<u8>>>, name: Seq<char>) -> bool {
    &&& held.contains_key("connection"@)
    &&& fields::is_text(held["connection"@][0])
    &&& exists|k: int|
        0 <= k < text::items_of(held["connection"@][0]).len() && name == fields::field_key(
            fields::chars_of(#[trigger] text::items_of(held["connection"@][0])[k]),
        )
}

/// Whether the field may not be sent over HTTP/2 or HTTP/3.
pub open spec fn is_stripped(
    held: Map<Seq<char>, Seq<Seq<u8>>>,
    is_request: bool,
    name: Seq<char>,
) -> bool {
    ||| is_connection_field(name)
    ||| name == "te"@ && refuses_te(held, is_request)
    ||| is_nominated(held, name)
}

/// The fields that stay when those that belong to one connection are taken out.
pub open spec fn stripped(
    held: Map<Seq<char>, Seq<Seq<u8>>>,
    is_request: bool,
) -> Map<Seq<char>, Seq<Seq<u8>>> {
    Map::new(
        |name: Seq<char>| held.contains_key(name) && !is_stripped(held, is_request, name),
        |name: Seq<char>| held[name],
    )
}

pub(crate) proof fn lemma_stored_names()
    ensures
        fields::field_key("keep-alive"@) == "keep-alive"@,
        fields::field_key("proxy-connection"@) == "proxy-connection"@,
        fields::field_key("transfer-encoding"@) == "transfer-encoding"@,
        fields::field_key("upgrade"@) == "upgrade"@,
        fields::field_key("connection"@) == "connection"@,
        fields::field_key("te"@) == "te"@,
        fields::field_key("content-length"@) == "content-length"@,
        fields::field_key("host"@) == "host"@,
        fields::is_field_name("content-length"@),
        fields::is_field_name("transfer-encoding"@),
{
    reveal_strlit("keep-alive");
    reveal_strlit("proxy-connection");
    reveal_strlit("transfer-encoding");
    reveal_strlit("upgrade");
    reveal_strlit("connection");
    reveal_strlit("te");
    reveal_strlit("content-length");
    reveal_strlit("host");
    assert(fields::field_key("keep-alive"@) =~= "keep-alive"@);
    assert(fields::field_key("proxy-connection"@) =~= "proxy-connection"@);
    assert(fields::field_key("transfer-encoding"@) =~= "transfer-encoding"@);
    assert(fields::field_key("upgrade"@) =~= "upgrade"@);
    assert(fields::field_key("connection"@) =~= "connection"@);
    assert(fields::field_key("te"@) =~= "te"@);
    assert(fields::field_key("content-length"@) =~= "content-length"@);
    assert(fields::field_key("host"@) =~= "host"@);
}

proof fn lemma_names_differ()
    ensures
        "te"@ != "connection"@,
        "keep-alive"@ != "connection"@,
        "proxy-connection"@ != "connection"@,
        "transfer-encoding"@ != "connection"@,
        "upgrade"@ != "connection"@,
        "keep-alive"@ != "te"@,
        "proxy-connection"@ != "te"@,
        "transfer-encoding"@ != "te"@,
        "upgrade"@ != "te"@,
{
    reveal_strlit("keep-alive");
    reveal_strlit("proxy-connection");
    reveal_strlit("transfer-encoding");
    reveal_strlit("upgrade");
    reveal_strlit("connection");
    reveal_strlit("te");
    assert("upgrade"@.len() == 7 && "transfer-encoding"@.len() == 17 && "te"@.len() == 2);
    assert("keep-alive"@[0] == 'k' && "connection"@[0] == 'c');
}

/// What is kept of `kept` without `connection` and without the first `count`
/// fields that the first `connection` value of `held` names.
spec fn kept_after(
    kept: Map<Seq<char>, Seq<Seq<u8>>>,
    held: Map<Seq<char>, Seq<Seq<u8>>>,
    count: int,
) -> Map<Seq<char>, Seq<Seq<u8>>> {
    Map::new(
        |name: Seq<char>|
            {
                &&& kept.contains_key(name)
                &&& name != "connection"@
                &&& forall|k: int|
                    0 <= k < count ==> name != fields::field_key(
                        fields::chars_of(#[trigger] text::items_of(held["connection"@][0])[k]),
                    )
            },
        |name: Seq<char>| kept[name],
    )
}

proof fn lemma_kept_after_one_more(
    kept: Map<Seq<char>, Seq<Seq<u8>>>,
    held: Map<Seq<char>, Seq<Seq<u8>>>,
    count: int,
)
    requires
        0 <= count < text::items_of(held["connection"@][0]).len(),
    ensures
        kept_after(kept, held, count).remove(
            fields::field_key(fields::chars_of(text::items_of(held["connection"@][0])[count])),
        ) == kept_after(kept, held, count + 1),
{
    assert(kept_after(kept, held, count).remove(
        fields::field_key(fields::chars_of(text::items_of(held["connection"@][0])[count])),
    ) =~= kept_after(kept, held, count + 1));
}

pub(crate) proof fn lemma_stripped_is_smaller(
    held: Map<Seq<char>, Seq<Seq<u8>>>,
    is_request: bool,
)
    requires
        held.dom().finite(),
    ensures
        stripped(held, is_request).dom().finite(),
        stripped(held, is_request).dom().len() <= held.dom().len(),
{
    vstd::set_lib::lemma_len_subset(stripped(held, is_request).dom(), held.dom());
}

/// Takes out the fields that HTTP/2 and HTTP/3 forbid: those that belong to one
/// connection, `te` unless it says `trailers` in a request, and the fields that
/// the first `connection` value names.
pub fn strip_connection_headers(headers: &mut HeaderMap, is_request: bool)
    ensures
        fields::field_values(*final(headers)) == stripped(
            fields::field_values(*old(headers)),
            is_request,
        ),
        fields::field_values(*old(headers)).dom().finite(),
{
    let ghost held = fields::field_values(*headers);
    proof {
        lemma_stored_names();
        lemma_names_differ();
    }
    fields::remove_field(headers, "keep-alive");
    assert(held.dom().finite()) by {
        let key = "keep-alive"@;
        assert(held.remove(key).dom() == held.dom().remove(key));
        assert(held.dom() =~= held.dom().remove(key).insert(key) || held.dom()
            =~= held.dom().remove(key));
    }
    fields::remove_field(headers, "proxy-connection");
    fields::remove_field(headers, "transfer-encoding");
    fields::remove_field(headers, "upgrade");
    if is_request {
        let refused = match fields::first_value(headers, "te") {
            Some(te) => !text::equal_bytes(fields::bytes_of(te), "trailers".as_bytes()),
            None => false,
        };
        if refused {
            fields::remove_field(headers, "te");
        }
    } else {
        fields::remove_field(headers, "te");
    }
    let ghost kept = fields::field_values(*headers);
    let connection = fields::remove_field(headers, "connection");
    if let Some(value) = connection {
        if let Ok(list) = fields::text_of(&value) {
            proof {
                fields::lemma_text_bytes(list, held["connection"@][0]);
            }
            let ranges = text::item_ranges(list.as_bytes());
            let mut k: usize = 0;
            while k < ranges.len()
                invariant
                    k <= ranges@.len(),
                    list.is_ascii(),
                    list.spec_bytes() == held["connection"@][0],
                    list@ == fields::chars_of(held["connection"@][0]),
                    ranges@.len() == text::items_of(held["connection"@][0]).len(),
                    forall|j: int|
                        0 <= j < ranges@.len() ==> {
                            &&& (#[trigger] ranges@[j]).0 <= ranges@[j].1
                                <= held["connection"@][0].len()
                            &&& held["connection"@][0].subrange(
                                ranges@[j].0 as int,
                                ranges@[j].1 as int,
                            ) == text::items_of(held["connection"@][0])[j]
                        },
                    fields::field_values(*headers).dom().finite(),
                    fields::field_values(*headers) == kept_after(kept, held, k as int),
                decreases ranges@.len() - k,
            {
                let range = ranges[k];
                let name = list.substring_ascii(range.0, range.1);
                assert(name@ =~= fields::chars_of(text::items_of(held["connection"@][0])[k as int]));
                fields::remove_field(headers, name);
                proof {
                    lemma_kept_after_one_more(kept, held, k as int);
                }
                k += 1;
            }
        }
    }
    assert(fields::field_values(*headers) =~= stripped(held, is_request));
}

/// Whether a comma-separated list holds the word, compared without regard to
/// ASCII case. A value that is no text holds none.
pub open spec fn lists_word(value: Seq<u8>, word: Seq<u8>) -> bool {
    &&& fields::is_text(value)
    &&& exists|k: int|
        0 <= k < text::items_of(value).len() && text::same_ignoring_case(
            #[trigger] text::items_of(value)[k],
            word,
        )
}

/// Whether a `connection` value lists `keep-alive`.
pub fn connection_keep_alive(value: &HeaderValue) -> (keep: bool)
    ensures
        keep == lists_word(fields::value_bytes(*value), "keep-alive".spec_bytes()),
{
    connection_has(value, "keep-alive")
}

/// Whether a `connection` value lists `close`.
pub fn connection_close(value: &HeaderValue) -> (close: bool)
    ensures
        close == lists_word(fields::value_bytes(*value), "close".spec_bytes()),
{
    connection_has(value, "close")
}

/// Whether any of the values lists the word.
pub open spec fn any_lists(values: Seq<Seq<u8>>, word: Seq<u8>) -> bool {
    exists|i: int| 0 <= i < values.len() && lists_word(#[trigger] values[i], word)
}

/// Whether any `connection` value lists `close`. A message may have more than
/// one `connection` field line, so all of them are looked at.
pub fn connection_any_close(headers: &HeaderMap) -> (close: bool)
    ensures
        close == exists|i: int|
            0 <= i < fields::values_of(*headers, "connection"@).len() && lists_word(
                #[trigger] fields::values_of(*headers, "connection"@)[i],
                "close".spec_bytes(),
            ),
        close == any_lists(fields::values_of(*headers, "connection"@), "close".spec_bytes()),
{
    let values = fields::all_values(headers, "connection");
    let mut i: usize = 0;
    while i < values.len()
        invariant
            i <= values@.len(),
            values@.len() == fields::values_of(*headers, "connection"@).len(),
            forall|j: int|
                0 <= j < values@.len() ==> fields::value_bytes(*#[trigger] values@[j])
                    == fields::values_of(*headers, "connection"@)[j],
            forall|j: int|
                0 <= j < i ==> !lists_word(
                    #[trigger] fields::values_of(*headers, "connection"@)[j],
                    "close".spec_bytes(),
                ),
        decreases values@.len() - i,
    {
        if connection_close(values[i]) {
            assert(lists_word(
                fields::values_of(*headers, "connection"@)[i as int],
                "close".spec_bytes(),
            ));
            return true;
        }
        i += 1;
    }
    false
}

/// Whether a comma-separated value lists the word, without regard to ASCII
/// case.
pub fn connection_has(value: &HeaderValue, needle: &str) -> (has: bool)
    ensures
        has == lists_word(fields::value_bytes(*value), needle.spec_bytes()),
{
    let list = match fields::text_of(value) {
        Ok(list) => list,
        Err(_) => return false,
    };
    proof {
        fields::lemma_text_bytes(list, fields::value_bytes(*value));
    }
    let bytes = list.as_bytes();
    let ranges = text::item_ranges(bytes);
    let mut k: usize = 0;
    while k < ranges.len()
        invariant
            k <= ranges@.len(),
            bytes@ == fields::value_bytes(*value),
            ranges@.len() == text::items_of(bytes@).len(),
            forall|j: int|
                0 <= j < ranges@.len() ==> {
                    &&& (#[trigger] ranges@[j]).0 <= ranges@[j].1 <= bytes@.len()
                    &&& bytes@.subrange(ranges@[j].0 as int, ranges@[j].1 as int)
                        == text::items_of(bytes@)[j]
                },
            fields::is_text(bytes@),
            forall|j: int|
                0 <= j < k ==> !text::same_ignoring_case(
                    #[trigger] text::items_of(bytes@)[j],
                    needle.spec_bytes(),
                ),
        decreases ranges@.len() - k,
    {
        let range = ranges[k];
        let item = vstd::slice::slice_subrange(bytes, range.0, range.1);
        if text::equal_ignoring_case(item, needle.as_bytes()) {
            assert(text::same_ignoring_case(
                text::items_of(bytes@)[k as int],
                needle.spec_bytes(),
            ));
            return true;
        }
        k += 1;
    }
    false
}

/// Whether the `content-length` values agree on the length: there is at least
/// one, each is text, and every item of each, read as a comma-separated list,
/// spells this number.
pub open spec fn declares_length(values: Seq<Seq<u8>>, length: u64) -> bool {
    &&& values.len() > 0
    &&& forall|i: int|
        0 <= i < values.len() ==> fields::is_text(#[trigger] values[i]) && spells_only(
            values[i],
            length,
        )
}

/// Whether every item of a comma-separated list spells the number.
pub open spec fn spells_only(value: Seq<u8>, length: u64) -> bool {
    forall|k: int|
        0 <= k < text::items_of(value).len() ==> text::number_of(
            #[trigger] text::items_of(value)[k],
        ) == Some(length)
}

/// The length on which the `content-length` values agree, if they do.
pub open spec fn agreed_length(values: Seq<Seq<u8>>) -> Option<u64> {
    if exists|n: u64| declares_length(values, n) {
        Some(choose|n: u64| declares_length(values, n))
    } else {
        None
    }
}

proof fn lemma_agreed_length(values: Seq<Seq<u8>>, n: u64)
    ensures
        agreed_length(values) == Some(n) <==> declares_length(values, n),
{
    if let Some(m) = agreed_length(values) {
        law_declared_length_is_unanimous(values, n, m);
    }
}

/// The length that the `content-length` fields declare; see
/// [`content_length_parse_all_values`].
pub fn content_length_parse_all(headers: &HeaderMap) -> (length: Option<u64>)
    ensures
        match length {
            Some(n) => declares_length(fields::values_of(*headers, "content-length"@), n),
            None => forall|n: u64|
                !declares_length(fields::values_of(*headers, "content-length"@), n),
        },
        length == agreed_length(fields::values_of(*headers, "content-length"@)),
{
    let values = fields::all_values(headers, "content-length");
    let length = content_length_parse_all_values(&values);
    assert(fields::bytes_of_each(values@) =~= fields::values_of(
        *headers,
        "content-length"@,
    ));
    length
}

/// The length that `content-length` values declare. More than one value, or a
/// list, is in order as long as all of them parse and agree; no value, one that
/// does not parse and two that differ give `None`.
pub fn content_length_parse_all_values(values: &Vec<&HeaderValue>) -> (length: Option<u64>)
    ensures
        match length {
            Some(n) => declares_length(fields::bytes_of_each(values@), n),
            None => forall|n: u64| !declares_length(fields::bytes_of_each(values@), n),
        },
        length == agreed_length(fields::bytes_of_each(values@)),
{
    let ghost held = fields::bytes_of_each(values@);
    let mut content_length: Option<u64> = None;
    let mut i: usize = 0;
    while i < values.len()
        invariant
            i <= values@.len(),
            held == fields::bytes_of_each(values@),
            i == 0 ==> content_length is None,
            i > 0 ==> content_length is Some,
            content_length matches Some(n) ==> declares_length(held.take(i as int), n),
            content_length matches Some(n) ==> forall|m: u64| m != n ==> !declares_length(held, m),
        decreases values@.len() - i,
    {
        let list = match fields::text_of(values[i]) {
            Ok(list) => list,
            Err(_) => {
                assert(!fields::is_text(held[i as int]));
                return None;
            },
        };
        proof {
            fields::lemma_text_bytes(list, held[i as int]);
        }
        let bytes = list.as_bytes();
        let ranges = text::item_ranges(bytes);
        let mut k: usize = 0;
        while k < ranges.len()
            invariant
                k <= ranges@.len(),
                ranges@.len() > 0,
                i < values@.len(),
                held == fields::bytes_of_each(values@),
                bytes@ == held[i as int],
                ranges@.len() == text::items_of(bytes@).len(),
                forall|j: int|
                    0 <= j < ranges@.len() ==> {
                        &&& (#[trigger] ranges@[j]).0 <= ranges@[j].1 <= bytes@.len()
                        &&& bytes@.subrange(ranges@[j].0 as int, ranges@[j].1 as int)
                            == text::items_of(bytes@)[j]
                    },
                (i > 0 || k > 0) ==> content_length is Some,
                i == 0 && k == 0 ==> content_length is None,
                i > 0 ==> declares_length(held.take(i as int), content_length->0),
                forall|j: int|
                    0 <= j < k ==> text::number_of(#[trigger] text::items_of(bytes@)[j])
                        == content_length,
                content_length matches Some(n) ==> forall|m: u64|
                    m != n ==> !declares_length(held, m),
            decreases ranges@.len() - k,
        {
            let range = ranges[k];
            let item = vstd::slice::slice_subrange(bytes, range.0, range.1);
            let number = text::from_digits(item);
            assert(item@ == text::items_of(bytes@)[k as int]);
            assert forall|m: u64| number != Some(m) implies !declares_length(held, m) by {
                if declares_length(held, m) {
                    assert(spells_only(held[i as int], m));
                    assert(text::number_of(text::items_of(held[i as int])[k as int]) == Some(m));
                }
            }
            let n: u64 = match number {
                Some(n) => n,
                None => return None,
            };
            match content_length {
                None => {
                    content_length = Some(n);
                },
                Some(known) => {
                    if known != n {
                        return None;
                    }
                },
            }
            k += 1;
        }
        proof {
            let n = content_length->0;
            let next = held.take(i + 1);
            assert forall|j: int| 0 <= j < next.len() implies fields::is_text(#[trigger] next[j])
                && spells_only(next[j], n) by {
                if j < i {
                    assert(held.take(i as int)[j] == next[j]);
                } else {
                    assert(next[j] == bytes@);
                }
            }
        }
        i += 1;
    }
    assert(held.take(i as int) =~= held);
    proof {
        if let Some(n) = content_length {
            lemma_agreed_length(held, n);
        }
    }
    content_length
}

/// Whether a request of this method is expected to have content: every method
/// but `GET`, `HEAD`, `DELETE`, `CONNECT` and `OPTIONS`.
pub open spec fn defines_payload(token: Seq<char>) -> bool {
    &&& token != "GET"@
    &&& token != "HEAD"@
    &&& token != "DELETE"@
    &&& token != "CONNECT"@
    &&& token != "OPTIONS"@
}

/// Whether the method gives meaning to content in a request.
pub fn method_has_defined_payload_semantics(method: &Method) -> (defined: bool)
    ensures
        defined == defines_payload(fields::method_token(*method)),
{
    let token = fields::token_of(method);
    !(text::equal_text(token, "GET") || text::equal_text(token, "HEAD") || text::equal_text(
        token,
        "DELETE",
    ) || text::equal_text(token, "CONNECT") || text::equal_text(token, "OPTIONS"))
}

/// The fields with a `content-length` of `len`, unless they had one.
pub open spec fn with_length(
    held: Map<Seq<char>, Seq<Seq<u8>>>,
    len: u64,
) -> Map<Seq<char>, Seq<Seq<u8>>> {
    if held.contains_key("content-length"@) {
        held
    } else {
        held.insert("content-length"@, seq![text::decimal(len as nat)])
    }
}

/// There are so many fields that there is no room for another one.
#[derive(Clone, Copy, PartialEq, Eq, Structural, Debug)]
pub struct TooManyFields {}

/// Adds a `content-length` field unless there is one. This fails, with nothing
/// changed, only where there is no room for another field.
pub fn set_content_length_if_missing(headers: &mut HeaderMap, len: u64) -> (set: Result<
    (),
    TooManyFields,
>)
    ensures
        set is Ok ==> fields::field_values(*final(headers)) == with_length(
            fields::field_values(*old(headers)),
            len,
        ),
        set is Err ==> {
            &&& fields::field_values(*final(headers)) == fields::field_values(*old(headers))
            &&& fields::field_values(*old(headers)).dom().len() > fields::MAX_FIELD_NAMES
        },
{
    proof {
        lemma_stored_names();
    }
    if fields::insert_number_if_missing(headers, "content-length", len) {
        Ok(())
    } else {
        Err(TooManyFields {  })
    }
}

/// Whether `chunked` is the last encoding of the last `transfer-encoding`
/// value.
pub fn transfer_encoding_is_chunked(headers: &HeaderMap) -> (chunked: bool)
    ensures
        chunked == ends_chunked(fields::values_of(*headers, "transfer-encoding"@)),
{
    let values = fields::all_values(headers, "transfer-encoding");
    assert(fields::bytes_of_each(values@) =~= fields::values_of(
        *headers,
        "transfer-encoding"@,
    ));
    is_chunked(&values)
}

/// Whether the last value is text and the last item of its list is `chunked`,
/// without regard to ASCII case.
pub open spec fn ends_chunked(values: Seq<Seq<u8>>) -> bool {
    &&& values.len() > 0
    &&& fields::is_text(values.last())
    &&& text::same_ignoring_case(text::items_of(values.last()).last(), "chunked".spec_bytes())
}

/// Whether the encodings end in `chunked`, which must be the last one.
pub fn is_chunked(encodings: &Vec<&HeaderValue>) -> (chunked: bool)
    ensures
        chunked == ends_chunked(fields::bytes_of_each(encodings@)),
{
    if encodings.len() == 0 {
        return false;
    }
    let line = encodings[encodings.len() - 1];
    let list = match fields::text_of(line) {
        Ok(list) => list,
        Err(_) => return false,
    };
    proof {
        fields::lemma_text_bytes(list, fields::value_bytes(*line));
    }
    let bytes = list.as_bytes();
    let ranges = text::item_ranges(bytes);
    let range = ranges[ranges.len() - 1];
    let item = vstd::slice::slice_subrange(bytes, range.0, range.1);
    text::equal_ignoring_case(item, "chunked".as_bytes())
}

/// A `transfer-encoding` line with `chunked` as its last encoding.
pub open spec fn chunked_line(line: Seq<u8>) -> Seq<u8> {
    line + seq![44u8, 32u8] + "chunked".spec_bytes()
}

/// Appends `chunked` to the last `transfer-encoding` value. This fails, with
/// nothing changed, only where the field table is too full to be searched for
/// one to change.
pub fn add_chunked(headers: &mut HeaderMap) -> (added: Result<(), TooManyFields>)
    requires
        fields::field_values(*old(headers)).contains_key("transfer-encoding"@),
    ensures
        added is Ok ==> fields::field_values(*final(headers)) == fields::field_values(
            *old(headers),
        ).insert(
            "transfer-encoding"@,
            fields::field_values(*old(headers))["transfer-encoding"@].drop_last().push(
                chunked_line(fields::field_values(*old(headers))["transfer-encoding"@].last()),
            ),
        ),
        added is Err ==> {
            &&& fields::field_values(*final(headers)) == fields::field_values(*old(headers))
            &&& fields::field_values(*old(headers)).dom().len() > fields::MAX_FIELD_NAMES
        },
{
    proof {
        lemma_stored_names();
        lemma_chunked_bytes();
        lemma_separator_bytes();
    }
    let values = fields::all_values(headers, "transfer-encoding");
    let line = fields::bytes_of(values[values.len() - 1]);
    let mut longer = buf::gather();
    buf::append(&mut longer, line);
    buf::append(&mut longer, ", ".as_bytes());
    buf::append(&mut longer, "chunked".as_bytes());
    let longer = buf::frozen(longer);
    let ghost bytes = buf::content(longer);
    assert(bytes =~= chunked_line(line@));
    assert forall|j: int| 0 <= j < bytes.len() implies fields::is_value_byte(
        #[trigger] bytes[j],
    ) by {
        if j < line@.len() {
            assert(bytes[j] == line@[j]);
        }
    }
    if let Ok(value) = fields::value_of(longer) {
        if fields::replace_last_value(headers, "transfer-encoding", value) {
            return Ok(());
        }
    }
    Err(TooManyFields {  })
}

/// Appends `chunked` to the last `transfer-encoding` value, if there is one. A
/// message without that field is left as it is.
pub fn try_add_chunked(headers: &mut HeaderMap) -> (added: Option<Result<(), TooManyFields>>)
    ensures
        added is Some <==> fields::field_values(*old(headers)).contains_key("transfer-encoding"@),
        added is Some && added->0 is Ok ==> fields::field_values(*final(headers)) == fields::field_values(
            *old(headers),
        ).insert(
            "transfer-encoding"@,
            fields::field_values(*old(headers))["transfer-encoding"@].drop_last().push(
                chunked_line(fields::field_values(*old(headers))["transfer-encoding"@].last()),
            ),
        ),
        added is None || added->0 is Err ==> fields::field_values(*final(headers))
            == fields::field_values(*old(headers)),
        added is Some && added->0 is Err ==> fields::field_values(*old(headers)).dom().len()
            > fields::MAX_FIELD_NAMES,
{
    proof {
        lemma_stored_names();
    }
    if fields::first_value(headers, "transfer-encoding").is_none() {
        return None;
    }
    Some(add_chunked(headers))
}

proof fn lemma_separator_bytes()
    ensures
        ", ".spec_bytes() == seq![44u8, 32u8],
{
    broadcast use vstd::string::is_ascii_spec_bytes;

    reveal_strlit(", ");
    assert(", ".is_ascii());
    assert(", ".spec_bytes() =~= seq![44u8, 32u8]);
}

proof fn lemma_chunked_bytes()
    ensures
        "chunked".spec_bytes() == seq![99u8, 104u8, 117u8, 110u8, 107u8, 101u8, 100u8],
{
    broadcast use vstd::string::is_ascii_spec_bytes;

    reveal_strlit("chunked");
    assert("chunked".is_ascii());
    assert("chunked".spec_bytes() =~= seq![99u8, 104u8, 117u8, 110u8, 107u8, 101u8, 100u8]);
}

/// Stripping leaves no field that belongs to one connection; of `te` it leaves
/// only a request's whose first value is `trailers`; and every field that stays
/// keeps its values.
pub proof fn law_stripped_fields_may_be_sent(
    held: Map<Seq<char>, Seq<Seq<u8>>>,
    is_request: bool,
    name: Seq<char>,
)
    requires
        stripped(held, is_request).contains_key(name),
    ensures
        !is_connection_field(name),
        !is_nominated(held, name),
        name == "te"@ ==> is_request && held[name][0] == "trailers".spec_bytes(),
        held.contains_key(name),
        stripped(held, is_request)[name] == held[name],
{
}

/// Stripping what was stripped changes nothing.
pub proof fn law_stripping_twice_is_stripping_once(
    held: Map<Seq<char>, Seq<Seq<u8>>>,
    is_request: bool,
)
    ensures
        stripped(stripped(held, is_request), is_request) == stripped(held, is_request),
{
    lemma_names_differ();
    let once = stripped(held, is_request);
    assert(!once.contains_key("connection"@));
    assert(stripped(once, is_request) =~= once);
}

/// A length that was added where none was declared is the length that the
/// fields declare from then on.
pub proof fn law_added_length_is_declared(held: Map<Seq<char>, Seq<Seq<u8>>>, len: u64)
    requires
        !held.contains_key("content-length"@),
    ensures
        with_length(held, len).contains_key("content-length"@),
        declares_length(with_length(held, len)["content-length"@], len),
{
    let value = text::decimal(len as nat);
    text::lemma_decimal(len as nat);
    text::lemma_digits_are_one_item(value);
    assert forall|i: int| 0 <= i < value.len() implies fields::is_text_byte(
        #[trigger] value[i],
    ) by {
        assert(48 <= value[i] <= 57);
    }
    assert(with_length(held, len)["content-length"@] == seq![value]);
}

/// A `transfer-encoding` to which `chunked` was appended ends in `chunked`,
/// where the line it was appended to can be read as text.
pub proof fn law_added_chunked_is_chunked(values: Seq<Seq<u8>>)
    requires
        values.len() > 0,
        fields::is_text(values.last()),
    ensures
        ends_chunked(values.drop_last().push(chunked_line(values.last()))),
{
    lemma_chunked_bytes();
    let word = "chunked".spec_bytes();
    let line = values.last();
    let tail = seq![32u8] + word;
    let longer = chunked_line(line);
    assert(longer =~= line.push(44) + tail);
    text::lemma_last_piece(line, tail);
    reveal_with_fuel(text::trimmed_start, 2);
    assert(text::trimmed_end(tail) == tail);
    assert(tail.drop_first() =~= word);
    assert(text::trimmed(tail) == word);
    assert(text::items_of(longer).last() == word);
    assert forall|i: int| 0 <= i < longer.len() implies fields::is_text_byte(
        #[trigger] longer[i],
    ) by {
        if i < line.len() {
            assert(fields::is_text_byte(line[i]));
            assert(longer[i] == line[i]);
        }
    }
}

/// Stripping takes out exactly the fields that belong to one connection and keeps
/// every other one with its values: what is gone is one of the five connection
/// fields, a field that the first `connection` value names, or `te` from a
/// response or where its first value is not `trailers`.
pub proof fn law_stripping_takes_nothing_else(
    headers: &mut HeaderMap,
    is_request: bool,
    name: Seq<char>,
)
    requires
        call_ensures(strip_connection_headers, (headers, is_request), ()),
    ensures
        ({
            let before = fields::field_values(*old(headers));
            let after = fields::field_values(*final(headers));
            let bound_to_the_connection = name == "connection"@ || name == "keep-alive"@ || name
                == "proxy-connection"@ || name == "transfer-encoding"@ || name == "upgrade"@;
            let lists = before.contains_key("connection"@) && fields::is_text(
                before["connection"@][0],
            );
            let named = lists && exists|k: int|
                0 <= k < text::items_of(before["connection"@][0]).len() && fields::field_key(
                    fields::chars_of(#[trigger] text::items_of(before["connection"@][0])[k]),
                ) == name;
            let refused = name == "te"@ && !(is_request && before["te"@][0]
                == "trailers".spec_bytes());
            &&& after.contains_key(name) ==> before.contains_key(name) && after[name] == before[name]
            &&& before.contains_key(name) && !bound_to_the_connection && !named && !refused
                ==> after.contains_key(name)
            &&& bound_to_the_connection || named || refused ==> !after.contains_key(name)
        }),
{
}

/// A list holds a word where one of its items is the word but for the case of
/// letters, and only there; one that cannot be read as text holds none. Asking
/// for `keep-alive` and `close` is asking for these words.
pub proof fn law_lists_are_searched_whole(
    value: &HeaderValue,
    needle: &str,
    has: bool,
    keep: bool,
    close: bool,
)
    requires
        call_ensures(connection_has, (value, needle), has),
        call_ensures(connection_keep_alive, (value,), keep),
        call_ensures(connection_close, (value,), close),
    ensures
        ({
            let items = text::items_of(fields::value_bytes(*value));
            let reads = fields::is_text(fields::value_bytes(*value));
            &&& has <==> reads && exists|k: int|
                0 <= k < items.len() && text::same_ignoring_case(
                    #[trigger] items[k],
                    needle.spec_bytes(),
                )
            &&& keep <==> reads && exists|k: int|
                0 <= k < items.len() && text::same_ignoring_case(
                    #[trigger] items[k],
                    "keep-alive".spec_bytes(),
                )
            &&& close <==> reads && exists|k: int|
                0 <= k < items.len() && text::same_ignoring_case(
                    #[trigger] items[k],
                    "close".spec_bytes(),
                )
        }),
{
}

/// A message is to be closed after where any of its `connection` values lists
/// `close`, on whichever line, and only there.
pub proof fn law_any_line_may_close(headers: &HeaderMap, any: bool)
    requires
        call_ensures(connection_any_close, (headers,), any),
    ensures
        any <==> exists|i: int, k: int|
            {
                &&& 0 <= i < fields::values_of(*headers, "connection"@).len()
                &&& fields::is_text(fields::values_of(*headers, "connection"@)[i])
                &&& 0 <= k < text::items_of(fields::values_of(*headers, "connection"@)[i]).len()
                &&& text::same_ignoring_case(
                    #[trigger] text::items_of(fields::values_of(*headers, "connection"@)[i])[k],
                    "close".spec_bytes(),
                )
            },
{
    let close = "close".spec_bytes();
    let values = fields::values_of(*headers, "connection"@);
    assert(any == any_lists(values, close));
    if any {
        let i = choose|i: int| 0 <= i < values.len() && lists_word(#[trigger] values[i], close);
        let items = text::items_of(values[i]);
        let k = choose|k: int|
            0 <= k < items.len() && text::same_ignoring_case(#[trigger] items[k], close);
        assert(text::same_ignoring_case(text::items_of(values[i])[k], close));
    } else {
        assert forall|i: int, k: int|
            0 <= i < values.len() && fields::is_text(values[i]) && 0 <= k < text::items_of(
                values[i],
            ).len() implies !text::same_ignoring_case(
            #[trigger] text::items_of(values[i])[k],
            close,
        ) by {
            assert(!lists_word(values[i], close));
        }
    }
}

/// `content-length` values declare a length where there is a value, each can be
/// read as text, and every item of each reads as that number; then the reader
/// finds it, and otherwise none. There is at most one such length.
pub proof fn law_declared_length_is_unanimous(values: Seq<Seq<u8>>, n: u64, m: u64)
    ensures
        declares_length(values, n) <==> {
            &&& values.len() > 0
            &&& forall|i: int| 0 <= i < values.len() ==> fields::is_text(#[trigger] values[i])
            &&& forall|i: int, k: int|
                0 <= i < values.len() && 0 <= k < text::items_of(values[i]).len()
                    ==> text::number_of(#[trigger] text::items_of(values[i])[k]) == Some(n)
        },
        declares_length(values, n) && declares_length(values, m) ==> n == m,
{
    if declares_length(values, n) {
        assert(fields::is_text(values[0]) && spells_only(values[0], n));
        text::lemma_pieces_not_empty(values[0]);
        assert(text::number_of(text::items_of(values[0])[0]) == Some(n));
        assert forall|i: int, k: int|
            0 <= i < values.len() && 0 <= k < text::items_of(values[i]).len()
                implies text::number_of(#[trigger] text::items_of(values[i])[k]) == Some(n) by {
            assert(fields::is_text(values[i]) && spells_only(values[i], n));
        }
        if declares_length(values, m) {
            assert(spells_only(values[0], m));
        }
    }
    if values.len() > 0 && (forall|i: int|
        0 <= i < values.len() ==> fields::is_text(#[trigger] values[i])) && (forall|i: int, k: int|
        0 <= i < values.len() && 0 <= k < text::items_of(values[i]).len() ==> text::number_of(
            #[trigger] text::items_of(values[i])[k],
        ) == Some(n)) {
        assert forall|i: int| 0 <= i < values.len() implies fields::is_text(#[trigger] values[i])
            && spells_only(values[i], n) by {}
    }
}

/// The reader of `content-length` fields gives the length that they declare, and
/// gives one wherever they declare one.
pub proof fn law_reader_gives_the_declared_length(
    headers: &HeaderMap,
    read: Option<u64>,
    values: &Vec<&HeaderValue>,
    found: Option<u64>,
    n: u64,
)
    requires
        call_ensures(content_length_parse_all, (headers,), read),
        call_ensures(content_length_parse_all_values, (values,), found),
    ensures
        read == Some(n) <==> declares_length(
            fields::values_of(*headers, "content-length"@),
            n,
        ),
        found == Some(n) <==> declares_length(fields::bytes_of_each(values@), n),
{
    lemma_agreed_length(fields::values_of(*headers, "content-length"@), n);
    lemma_agreed_length(fields::bytes_of_each(values@), n);
}

/// A method gives meaning to content unless it is one of the five that do not;
/// methods are compared with regard to case.
pub proof fn law_methods_that_define_no_content(method: &Method, defined: bool)
    requires
        call_ensures(method_has_defined_payload_semantics, (method,), defined),
    ensures
        ({
            let token = fields::method_token(*method);
            !defined <==> token == "GET"@ || token == "HEAD"@ || token == "DELETE"@ || token
                == "OPTIONS"@ || token == "CONNECT"@
        }),
        defined == defines_payload(fields::method_token(*method)),
{
}

/// A length is set only where none is there, and then reads back as that length;
/// every other field stays as it is, and so does a length that was there.
pub proof fn law_setting_a_length_touches_nothing_else(
    headers: &mut HeaderMap,
    len: u64,
    set: Result<(), TooManyFields>,
    name: Seq<char>,
)
    requires
        call_ensures(set_content_length_if_missing, (headers, len), set),
    ensures
        ({
            let before = fields::field_values(*old(headers));
            let after = fields::field_values(*final(headers));
            &&& name != "content-length"@ || before.contains_key(name) ==> {
                &&& after.contains_key(name) <==> before.contains_key(name)
                &&& before.contains_key(name) ==> after[name] == before[name]
            }
            &&& set is Ok && !before.contains_key("content-length"@) ==> {
                &&& after.contains_key("content-length"@)
                &&& after["content-length"@].len() == 1
                &&& after["content-length"@][0] == text::decimal(len as nat)
                &&& declares_length(after["content-length"@], len)
            }
            &&& set is Err ==> after == before && before.dom().len() > 6553
        }),
{
    let before = fields::field_values(*old(headers));
    if !before.contains_key("content-length"@) {
        law_added_length_is_declared(before, len);
    }
}

/// An encoding is chunked where the last item of its last value, read as text, is
/// `chunked` but for the case of letters, and only there; earlier values and
/// earlier items do not matter.
pub proof fn law_only_the_last_encoding_decides(
    headers: &HeaderMap,
    chunked: bool,
    encodings: &Vec<&HeaderValue>,
    last_chunked: bool,
)
    requires
        call_ensures(transfer_encoding_is_chunked, (headers,), chunked),
        call_ensures(is_chunked, (encodings,), last_chunked),
    ensures
        ({
            let values = fields::values_of(*headers, "transfer-encoding"@);
            chunked <==> values.len() > 0 && fields::is_text(values.last())
                && text::same_ignoring_case(
                text::items_of(values.last()).last(),
                "chunked".spec_bytes(),
            )
        }),
        ({
            let values = fields::bytes_of_each(encodings@);
            last_chunked <==> values.len() > 0 && fields::is_text(values.last())
                && text::same_ignoring_case(
                text::items_of(values.last()).last(),
                "chunked".spec_bytes(),
            )
        }),
{
}

/// Adding `chunked` changes only the last `transfer-encoding` value, which then
/// is what it was, a comma, a space and the word. A message without the field is
/// left as it is.
pub proof fn law_adding_chunked_touches_nothing_else(
    headers: &mut HeaderMap,
    added: Option<Result<(), TooManyFields>>,
    name: Seq<char>,
)
    requires
        call_ensures(try_add_chunked, (headers,), added),
    ensures
        ({
            let before = fields::field_values(*old(headers));
            let after = fields::field_values(*final(headers));
            let key = "transfer-encoding"@;
            &&& added is None <==> !before.contains_key(key)
            &&& added is None || added->0 is Err ==> after == before
            &&& added is Some && added->0 is Err ==> before.dom().len() > 6553
            &&& name != key ==> {
                &&& after.contains_key(name) <==> before.contains_key(name)
                &&& before.contains_key(name) ==> after[name] == before[name]
            }
            &&& added is Some && added->0 is Ok ==> {
                &&& after.contains_key(key)
                &&& before[key].len() > 0 ==> {
                    &&& after[key].len() == before[key].len()
                    &&& after[key].drop_last() == before[key].drop_last()
                    &&& after[key].last() == before[key].last() + seq![44u8, 32u8]
                        + "chunked".spec_bytes()
                }
            }
        }),
{
    let before = fields::field_values(*old(headers));
    let key = "transfer-encoding"@;
    let values = before[key];
    if values.len() > 0 {
        let longer = values.drop_last().push(chunked_line(values.last()));
        assert(longer.drop_last() =~= values.drop_last());
    }
}

/// What is said of adding `chunked` to a message holds where the message is known
/// to have an encoding.
pub proof fn law_chunked_follows_the_last_encoding(
    headers: &mut HeaderMap,
    added: Result<(), TooManyFields>,
    name: Seq<char>,
)
    requires
        call_ensures(add_chunked, (headers,), added),
        fields::field_values(*old(headers)).contains_key("transfer-encoding"@),
        fields::field_values(*old(headers))["transfer-encoding"@].len() > 0,
    ensures
        ({
            let before = fields::field_values(*old(headers));
            let after = fields::field_values(*final(headers));
            let key = "transfer-encoding"@;
            &&& added is Err ==> after == before && before.dom().len() > 6553
            &&& name != key ==> {
                &&& after.contains_key(name) <==> before.contains_key(name)
                &&& before.contains_key(name) ==> after[name] == before[name]
            }
            &&& added is Ok ==> {
                &&& after.contains_key(key)
                &&& after[key].len() == before[key].len()
                &&& after[key].drop_last() == before[key].drop_last()
                &&& after[key].last() == before[key].last() + seq![44u8, 32u8]
                    + "chunked".spec_bytes()
            }
        }),
{
    let values = fields::field_values(*old(headers))["transfer-encoding"@];
    let longer = values.drop_last().push(chunked_line(values.last()));
    assert(longer.drop_last() =~= values.drop_last());
}

} // verus!
