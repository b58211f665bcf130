//! HTTP/3 request exchange: what a request must be before it is sent, the
//! order in which its stream is driven, and what becomes of its response.

use http::{HeaderMap, Method};
use vstd::prelude::*;
use vstd::string::*;

use crate::error::{Code, Error, Kind, Reason, StreamFailure, TrySendError};
use crate::{fields, headers, text};

verus! {

/// Largest chunk handed to the QUIC send half at once.
pub const CHUNK: usize = 16384;

/// The size of the next chunk when this many bytes are left to move.
pub open spec fn chunk_size(left: nat) -> nat {
    if left <= CHUNK {
        left
    } else {
        CHUNK as nat
    }
}

/// The size of the next chunk when this many bytes are left to move.
pub fn next_chunk(left: usize) -> (size: usize)
    ensures
        size == chunk_size(left as nat),
{
    if left <= CHUNK {
        left
    } else {
        CHUNK
    }
}

/// Lets the caller's callback, where there is one, see and reorder the fields of
/// a request once they are complete: what it leaves is what is sent.
pub fn preserve_headers<F: FnOnce(HeaderMap) -> HeaderMap>(
    headers: HeaderMap,
    callback: Option<F>,
) -> (sent: HeaderMap)
    requires
        callback is Some ==> call_requires(callback->0, (headers,)),
    ensures
        match callback {
            Some(callback) => call_ensures(callback, (headers,), sent),
            None => sent == headers,
        },
{
    match callback {
        Some(callback) => callback(headers),
        None => headers,
    }
}

/// How many ready steps in a row a stream may take before it yields.
pub const BURST: usize = 32;

/// What the library reads of a request.
pub struct RequestHead {
    pub method: Method,
    /// The authority of the target.
    pub authority: Option<String>,
    /// Whether the target has a scheme.
    pub scheme: bool,
    pub headers: HeaderMap,
    /// Whether the request names an Extended CONNECT protocol.
    pub protocol: bool,
    /// Whether the request asks for HTTP Datagrams.
    pub datagram: bool,
}

/// What the library reads of a request body before it is sent.
#[derive(Clone, Copy)]
pub struct BodyInfo {
    /// Whether the body has nothing to send.
    pub end_stream: bool,
    /// The exact size of the body, where it knows one.
    pub exact: Option<u64>,
}

impl RequestHead {
    /// Whether the method is CONNECT.
    pub open spec fn is_connect(self) -> bool {
        fields::method_token(self.method) == "CONNECT"@
    }

    /// Whether the method is HEAD.
    pub open spec fn is_head(self) -> bool {
        fields::method_token(self.method) == "HEAD"@
    }

    /// What is wrong with the request apart from its length, if anything: a
    /// protocol needs CONNECT; there must be an authority, and a scheme except
    /// in an ordinary CONNECT; the first `host` must be the authority; every
    /// `te` must be `trailers`.
    pub open spec fn fault(self) -> Option<Reason> {
        self.fault_with(fields::field_values(self.headers))
    }

    /// What is wrong with the request where it has these fields.
    pub open spec fn fault_with(self, held: Map<Seq<char>, Seq<Seq<u8>>>) -> Option<Reason> {
        if self.protocol && !self.is_connect() {
            Some(Reason::ProtocolWithoutConnect)
        } else if self.authority is None || !(self.is_connect() && !self.protocol)
            && !self.scheme {
            Some(Reason::MissingAuthority)
        } else if held.contains_key("host"@) && held["host"@][0] != vstd::utf8::encode_utf8(
            (self.authority->0)@,
        ) {
            Some(Reason::HostConflict)
        } else if exists|i: int|
            0 <= i < fields::values_in(held, "te"@).len() && !text::same_ignoring_case(
                #[trigger] fields::values_in(held, "te"@)[i],
                "trailers".spec_bytes(),
            ) {
            Some(Reason::TeNotTrailers)
        } else {
            None
        }
    }

    /// What checking the request comes to where it has these fields: its
    /// declared length, or what is wrong with it.
    pub open spec fn checked_length<X>(self, held: Map<Seq<char>, Seq<Seq<u8>>>) -> Result<
        Option<u64>,
        Error<X>,
    > {
        match self.fault_with(held) {
            Some(reason) => Err(Error::because(Kind::Http3, reason)),
            None => as_http3::<X, Option<u64>>(length_in(held)),
        }
    }

    pub(crate) fn connect(&self) -> (connect: bool)
        ensures
            connect == self.is_connect(),
    {
        text::equal_text(fields::token_of(&self.method), "CONNECT")
    }

    pub(crate) fn head(&self) -> (head: bool)
        ensures
            head == self.is_head(),
    {
        text::equal_text(fields::token_of(&self.method), "HEAD")
    }
}

/// The length known so far after one more item of a `content-length` list.
pub open spec fn length_after_item(known: Option<u64>, item: Seq<u8>) -> Result<
    Option<u64>,
    Reason,
> {
    if item.len() == 0 || !text::all_digits(item) {
        Err(Reason::InvalidLength)
    } else if text::digits_value(item) > u64::MAX {
        Err(Reason::LengthTooLarge)
    } else if known is Some && known->0 != text::digits_value(item) {
        Err(Reason::ConflictingLength)
    } else {
        Ok(Some(text::digits_value(item) as u64))
    }
}

/// The length known after the items, taken in order; the first item that does
/// not fit decides the error.
pub open spec fn length_after_items(known: Option<u64>, items: Seq<Seq<u8>>) -> Result<
    Option<u64>,
    Reason,
>
    decreases items.len(),
{
    if items.len() == 0 {
        Ok(known)
    } else {
        match length_after_items(known, items.drop_last()) {
            Ok(so_far) => length_after_item(so_far, items.last()),
            Err(reason) => Err(reason),
        }
    }
}

/// The length that `content-length` values declare, taken in order: none where
/// there is no value, and otherwise the number on which every item of every
/// value agrees.
pub open spec fn length_of_values(values: Seq<Seq<u8>>) -> Result<Option<u64>, Reason>
    decreases values.len(),
{
    if values.len() == 0 {
        Ok(None)
    } else {
        match length_of_values(values.drop_last()) {
            Ok(so_far) => if fields::is_text(values.last()) {
                length_after_items(so_far, text::items_of(values.last()))
            } else {
                Err(Reason::LengthNotText)
            },
            Err(reason) => Err(reason),
        }
    }
}

/// The length that fields declare.
pub open spec fn length_in(held: Map<Seq<char>, Seq<Seq<u8>>>) -> Result<Option<u64>, Reason> {
    length_of_values(fields::values_in(held, "content-length"@))
}

/// The length that the fields of a message declare.
pub open spec fn declared_length(headers: HeaderMap) -> Result<Option<u64>, Reason> {
    length_in(fields::field_values(headers))
}

/// A reason as an error of the HTTP/3 layer.
pub open spec fn as_http3<X, T>(result: Result<T, Reason>) -> Result<T, Error<X>> {
    match result {
        Ok(value) => Ok(value),
        Err(reason) => Err(Error::because(Kind::Http3, reason)),
    }
}

/// Parses every `content-length` field, rejecting malformed or conflicting
/// values.
pub fn content_length<X>(headers: &HeaderMap) -> (length: Result<Option<u64>, Error<X>>)
    ensures
        length == as_http3::<X, Option<u64>>(declared_length(*headers)),
{
    let values = fields::all_values(headers, "content-length");
    let ghost held = fields::values_of(*headers, "content-length"@);
    let mut length: Option<u64> = None;
    let mut i: usize = 0;
    while i < values.len()
        invariant
            i <= values@.len(),
            held == fields::values_of(*headers, "content-length"@),
            values@.len() == held.len(),
            forall|j: int|
                0 <= j < values@.len() ==> fields::value_bytes(*#[trigger] values@[j]) == held[j],
            length_of_values(held.take(i as int)) == Ok::<Option<u64>, Reason>(length),
        decreases values@.len() - i,
    {
        assert(held.take(i + 1).drop_last() =~= held.take(i as int));
        assert(held.take(i + 1).last() == held[i as int]);
        let list = match fields::text_of(values[i]) {
            Ok(list) => list,
            Err(_) => {
                proof {
                    lemma_first_fault_stays(held, i + 1);
                }
                return Err(Error::new_reason(Kind::Http3, Reason::LengthNotText));
            },
        };
        proof {
            fields::lemma_text_bytes(list, held[i as int]);
        }
        let read = read_items(length, list.as_bytes());
        match read {
            Ok(known) => {
                length = known;
            },
            Err(reason) => {
                proof {
                    lemma_first_fault_stays(held, i + 1);
                }
                return Err(Error::new_reason(Kind::Http3, reason));
            },
        }
        i += 1;
    }
    assert(held.take(i as int) =~= held);
    Ok(length)
}

proof fn lemma_first_fault_stays(values: Seq<Seq<u8>>, count: int)
    requires
        0 <= count <= values.len(),
        length_of_values(values.take(count)) is Err,
    ensures
        length_of_values(values) == length_of_values(values.take(count)),
    decreases values.len(),
{
    if count < values.len() {
        assert(values.drop_last().take(count) =~= values.take(count));
        lemma_first_fault_stays(values.drop_last(), count);
    } else {
        assert(values.take(count) =~= values);
    }
}

proof fn lemma_first_item_fault_stays(known: Option<u64>, items: Seq<Seq<u8>>, count: int)
    requires
        0 <= count <= items.len(),
        length_after_items(known, items.take(count)) is Err,
    ensures
        length_after_items(known, items) == length_after_items(known, items.take(count)),
    decreases items.len(),
{
    if count < items.len() {
        assert(items.drop_last().take(count) =~= items.take(count));
        lemma_first_item_fault_stays(known, items.drop_last(), count);
    } else {
        assert(items.take(count) =~= items);
    }
}

/// Reads one `content-length` value as a list of lengths that must agree with
/// each other and with what is known.
fn read_items(known: Option<u64>, list: &[u8]) -> (length: Result<Option<u64>, Reason>)
    ensures
        length == length_after_items(known, text::items_of(list@)),
{
    let ranges = text::item_ranges(list);
    let ghost items = text::items_of(list@);
    let mut length: Option<u64> = known;
    let mut k: usize = 0;
    while k < ranges.len()
        invariant
            k <= ranges@.len(),
            items == text::items_of(list@),
            ranges@.len() == items.len(),
            forall|j: int|
                0 <= j < ranges@.len() ==> {
                    &&& (#[trigger] ranges@[j]).0 <= ranges@[j].1 <= list@.len()
                    &&& list@.subrange(ranges@[j].0 as int, ranges@[j].1 as int) == items[j]
                },
            length_after_items(known, items.take(k as int)) == Ok::<Option<u64>, Reason>(length),
        decreases ranges@.len() - k,
    {
        assert(items.take(k + 1).drop_last() =~= items.take(k as int));
        assert(items.take(k + 1).last() == items[k as int]);
        let range = ranges[k];
        let item = vstd::slice::slice_subrange(list, range.0, range.1);
        let read = read_item(length, item);
        match read {
            Ok(next) => {
                length = next;
            },
            Err(reason) => {
                proof {
                    lemma_first_item_fault_stays(known, items, k + 1);
                }
                return Err(reason);
            },
        }
        k += 1;
    }
    assert(items.take(k as int) =~= items);
    Ok(length)
}

/// Reads one length.
fn read_item(known: Option<u64>, item: &[u8]) -> (length: Result<Option<u64>, Reason>)
    ensures
        length == length_after_item(known, item@),
{
    if item.len() == 0 || !text::are_digits(item) {
        return Err(Reason::InvalidLength);
    }
    proof {
        text::lemma_digits_value_not_negative(item@);
    }
    match text::from_digits(item) {
        Some(parsed) => {
            if let Some(n) = known {
                if n != parsed {
                    return Err(Reason::ConflictingLength);
                }
            }
            Ok(Some(parsed))
        },
        None => Err(Reason::LengthTooLarge),
    }
}

/// Validates the request and returns its declared length.
pub fn validate_request<X>(request: &RequestHead) -> (length: Result<Option<u64>, Error<X>>)
    ensures
        length == request.checked_length::<X>(fields::field_values(request.headers)),
{
    proof {
        headers::lemma_stored_names();
    }
    let connect = request.connect();
    if request.protocol && !connect {
        return Err(Error::new_reason(Kind::Http3, Reason::ProtocolWithoutConnect));
    }
    let ordinary_connect = connect && !request.protocol;
    let authority = match &request.authority {
        Some(authority) => authority,
        None => return Err(Error::new_reason(Kind::Http3, Reason::MissingAuthority)),
    };
    if !ordinary_connect && !request.scheme {
        return Err(Error::new_reason(Kind::Http3, Reason::MissingAuthority));
    }
    // Refused here, before the layer below takes the request and turns a field
    // that it cannot send into a failure of the connection.
    if let Some(host) = fields::first_value(&request.headers, "host") {
        if !text::equal_bytes(authority.as_str().as_bytes(), fields::bytes_of(host)) {
            return Err(Error::new_reason(Kind::Http3, Reason::HostConflict));
        }
    }
    let values = fields::all_values(&request.headers, "te");
    let mut i: usize = 0;
    while i < values.len()
        invariant
            i <= values@.len(),
            values@.len() == fields::values_of(request.headers, "te"@).len(),
            forall|j: int|
                0 <= j < values@.len() ==> fields::value_bytes(*#[trigger] values@[j])
                    == fields::values_of(request.headers, "te"@)[j],
            forall|j: int|
                0 <= j < i ==> text::same_ignoring_case(
                    #[trigger] fields::values_of(request.headers, "te"@)[j],
                    "trailers".spec_bytes(),
                ),
            request.fault() is None || request.fault() == Some(Reason::TeNotTrailers),
            request.fault() == Some(Reason::TeNotTrailers) <==> exists|j: int|
                0 <= j < fields::values_of(request.headers, "te"@).len()
                    && !text::same_ignoring_case(
                    #[trigger] fields::values_of(request.headers, "te"@)[j],
                    "trailers".spec_bytes(),
                ),
        decreases values@.len() - i,
    {
        if !text::equal_ignoring_case(fields::bytes_of(values[i]), "trailers".as_bytes()) {
            assert(!text::same_ignoring_case(
                fields::values_of(request.headers, "te"@)[i as int],
                "trailers".spec_bytes(),
            ));
            return Err(Error::new_reason(Kind::Http3, Reason::TeNotTrailers));
        }
        i += 1;
    }
    content_length(&request.headers)
}

proof fn lemma_items_agree(known: Option<u64>, items: Seq<Seq<u8>>, n: u64)
    requires
        items.len() > 0,
    ensures
        length_after_items(known, items) == Ok::<Option<u64>, Reason>(Some(n)) <==> {
            &&& known is None || known == Some(n)
            &&& forall|k: int| 0 <= k < items.len() ==> text::number_of(#[trigger] items[k]) == Some(n)
        },
        length_after_items(known, items) != Ok::<Option<u64>, Reason>(None),
    decreases items.len(),
{
    let last = items.last();
    if text::all_digits(last) {
        text::lemma_digits_value_not_negative(last);
    }
    assert(items[items.len() - 1] == last);
    if items.len() == 1 {
        assert(length_after_items(known, items.drop_last()) == Ok::<Option<u64>, Reason>(known));
    } else {
        let before = items.drop_last();
        lemma_items_agree(known, before, n);
        match length_after_items(known, before) {
            Ok(so_far) => {
                lemma_items_agree(known, before, so_far->0);
            },
            Err(_) => {},
        }
        assert forall|k: int| 0 <= k < before.len() implies before[k] == items[k] by {}
    }
}

/// The two readers of `content-length` agree: the fields of a message declare a
/// length for the one exactly if they do for the other, and none is declared
/// without an error exactly where there is no value.
pub proof fn law_length_readers_agree(values: Seq<Seq<u8>>, n: u64)
    ensures
        length_of_values(values) == Ok::<Option<u64>, Reason>(Some(n))
            <==> headers::declares_length(values, n),
        length_of_values(values) == Ok::<Option<u64>, Reason>(None) <==> values.len() == 0,
    decreases values.len(),
{
    if values.len() > 0 {
        let before = values.drop_last();
        let last = values.last();
        let items = text::items_of(last);
        text::lemma_pieces_not_empty(last);
        law_length_readers_agree(before, n);
        assert(values[values.len() - 1] == last);
        match length_of_values(before) {
            Ok(so_far) => {
                lemma_items_agree(so_far, items, n);
                if let Some(m) = so_far {
                    law_length_readers_agree(before, m);
                }
            },
            Err(_) => {},
        }
        assert forall|i: int| 0 <= i < before.len() implies before[i] == values[i] by {}
        if headers::declares_length(values, n) {
            assert(headers::spells_only(last, n));
            if before.len() > 0 {
                assert forall|i: int| 0 <= i < before.len() implies fields::is_text(
                    #[trigger] before[i],
                ) && headers::spells_only(before[i], n) by {
                    assert(fields::is_text(values[i]));
                }
                assert(headers::declares_length(before, n));
            }
        }
        if length_of_values(values) == Ok::<Option<u64>, Reason>(Some(n)) {
            assert(headers::spells_only(last, n));
            assert forall|i: int| 0 <= i < values.len() implies fields::is_text(
                #[trigger] values[i],
            ) && headers::spells_only(values[i], n) by {
                if i < before.len() {
                    assert(fields::is_text(before[i]));
                }
            }
        }
    }
}

/// What is left of a declared length after `size` more bytes, and whether they
/// fit in it.
pub open spec fn length_left(remaining: Option<u64>, size: nat) -> Result<Option<u64>, Reason> {
    match remaining {
        None => Ok(None),
        Some(left) => if size <= left {
            Ok(Some((left - size) as u64))
        } else {
            Err(Reason::BodyTooLong)
        },
    }
}

/// Counts `size` against the declared length.
pub fn consume_length(remaining: &mut Option<u64>, size: usize) -> (fits: Result<(), Reason>)
    ensures
        match length_left(*old(remaining), size as nat) {
            Ok(left) => fits is Ok && *final(remaining) == left,
            Err(reason) => fits == Err::<(), Reason>(reason) && *final(remaining) == *old(
                remaining,
            ),
        },
{
    if let Some(left) = *remaining {
        match left.checked_sub(size as u64) {
            Some(rest) => {
                *remaining = Some(rest);
            },
            None => return Err(Reason::BodyTooLong),
        }
    }
    Ok(())
}

/// Counts a ready step and tells whether to yield, which is after a burst of
/// them, so that one stream cannot starve the runtime.
pub fn cooperate(budget: &mut usize) -> (yields: bool)
    requires
        *old(budget) < usize::MAX,
    ensures
        yields == (*old(budget) + 1 >= BURST),
        *final(budget) == if yields {
            0
        } else {
            (*old(budget) + 1) as usize
        },
{
    *budget = *budget + 1;
    if *budget < BURST {
        return false;
    }
    *budget = 0;
    true
}

/// Failure before the request left the caller; the request is returned.
pub fn rejected<R, X>(error: Error<X>, request: R) -> (failed: TrySendError<R, X>)
    ensures
        failed == (TrySendError { error, message: Some(request) }),
{
    TrySendError { error, message: Some(request) }
}

/// Failure after the stream opened; the request cannot be returned.
pub fn lost<R, X>(error: Error<X>) -> (failed: TrySendError<R, X>)
    ensures
        failed == (TrySendError::<R, X> { error, message: None }),
{
    TrySendError { error, message: None }
}

/// A Datagram on a request without Datagram semantics is a stream error,
/// RFC 9297, Section 2.1.
pub fn invalid_datagram_error<X>() -> (error: Error<X>)
    ensures
        error == Error::<X>::because(Kind::Http3, Reason::InvalidDatagram),
{
    Error::new_reason(Kind::Http3, Reason::InvalidDatagram)
}

/// Send half of a request stream. Dropping it before `finished` resets the
/// upload, so a completed FIN must set the flag first.
#[derive(Clone, Copy, PartialEq, Eq, Structural, Debug)]
pub struct SendGuard {
    /// Whether the request has a Datagram route.
    pub datagrams: bool,
    pub finished: bool,
}

/// Receive half of a request stream. Dropping it before `finished` sends
/// STOP_SENDING with `code`, which defaults to a local cancellation.
#[derive(Clone, Copy, PartialEq, Eq, Structural, Debug)]
pub struct RecvGuard {
    /// Whether the request has a Datagram route.
    pub datagrams: bool,
    pub finished: bool,
    pub code: Code,
}

/// What dropping a receive half calls for.
#[derive(Clone, Copy, PartialEq, Eq, Structural, Debug)]
pub struct RecvDrop {
    /// The Datagram route takes no more Datagrams; those that come late are
    /// discarded, without canceling an upload that still sends.
    pub close_route: bool,
    /// The code for STOP_SENDING.
    pub stop_sending: Option<Code>,
}

impl SendGuard {
    /// The code with which dropping the half resets the stream, if it does.
    /// `invalid` tells whether an invalid Datagram came for the request.
    pub open spec fn reset_code(self, invalid: bool) -> Option<Code> {
        if self.finished {
            None
        } else if self.datagrams && invalid {
            Some(Code::DatagramError)
        } else {
            Some(Code::RequestCancelled)
        }
    }

    /// Drops the half: the code with which to reset the stream, if at all.
    pub fn abandon(self, invalid: bool) -> (reset: Option<Code>)
        ensures
            reset == self.reset_code(invalid),
    {
        if !self.finished {
            if self.datagrams && invalid {
                Some(Code::DatagramError)
            } else {
                Some(Code::RequestCancelled)
            }
        } else {
            None
        }
    }

    /// Closes the send direction of an empty upload, given how the FIN went.
    /// After a peer's STOP_SENDING the half stays unfinished, so that dropping
    /// it answers with a reset. A finished half also closes its Datagram route
    /// for sending, which the second part of the result tells.
    pub fn finish<X>(self, sent: Result<(), StreamFailure<X>>) -> (finished: Result<
        (SendGuard, bool),
        Error<X>,
    >)
        ensures
            finished == match sent {
                Ok(_) => Ok((SendGuard { finished: true, ..self }, self.datagrams)),
                Err(StreamFailure::RemoteTerminate) => Ok((self, false)),
                Err(StreamFailure::Other(failure)) => Err(Error::outside(Kind::Http3, failure)),
            },
    {
        match sent {
            Ok(_) => Ok((SendGuard { datagrams: self.datagrams, finished: true }, self.datagrams)),
            Err(StreamFailure::RemoteTerminate) => Ok((self, false)),
            Err(StreamFailure::Other(failure)) => Err(Error::new_outside(Kind::Http3, failure)),
        }
    }
}

impl RecvGuard {
    /// A receive half that has just been opened.
    pub open spec fn opened(datagrams: bool) -> Self {
        RecvGuard { datagrams, finished: false, code: Code::RequestCancelled }
    }

    /// What dropping the half calls for. `invalid` tells whether an invalid
    /// Datagram came for the request.
    pub open spec fn dropped(self, invalid: bool) -> RecvDrop {
        if self.finished {
            RecvDrop { close_route: false, stop_sending: None }
        } else {
            RecvDrop {
                close_route: self.datagrams,
                stop_sending: Some(
                    if self.datagrams && invalid {
                        Code::DatagramError
                    } else {
                        self.code
                    },
                ),
            }
        }
    }

    /// Drops the half.
    pub fn abandon(self, invalid: bool) -> (result: RecvDrop)
        ensures
            result == self.dropped(invalid),
    {
        if !self.finished {
            let code = if self.datagrams && invalid {
                Code::DatagramError
            } else {
                self.code
            };
            RecvDrop { close_route: self.datagrams, stop_sending: Some(code) }
        } else {
            RecvDrop { close_route: false, stop_sending: None }
        }
    }
}

/// Dropping both halves of a stream before either is finished cancels both
/// directions: the stream is reset and the peer is told to stop sending, for an
/// invalid Datagram where one came. Finished halves leave the stream alone.
pub proof fn law_dropping_unfinished_halves_cancels_both(
    send: SendGuard,
    recv: RecvGuard,
    invalid: bool,
)
    ensures
        send.reset_code(invalid) is Some <==> !send.finished,
        recv.dropped(invalid).stop_sending is Some <==> !recv.finished,
        !send.finished && send.datagrams && invalid ==> send.reset_code(invalid) == Some(
            Code::DatagramError,
        ),
        !recv.finished && recv.datagrams && invalid ==> recv.dropped(invalid).stop_sending == Some(
            Code::DatagramError,
        ),
{
}

/// What the library reads of a response head.
pub struct ResponseHead {
    pub status: u16,
    pub headers: HeaderMap,
}

impl ResponseHead {
    /// Whether the response is followed by another one to the same request.
    pub open spec fn is_informational(self) -> bool {
        100 <= self.status <= 199
    }

    /// Whether the response says that the request succeeded.
    pub open spec fn is_success(self) -> bool {
        200 <= self.status <= 299
    }

    /// Whether a response of this status never has content.
    pub open spec fn is_empty(self) -> bool {
        self.status == 204 || self.status == 304
    }
}

/// What a response head calls for.
pub enum HeadStep<X> {
    /// It is the final one.
    Final(ResponseHead),
    /// It is informational; read the next one, after yielding where it says so.
    Next { yields: bool },
    /// It is malformed, or reading it failed.
    Failed(Error<X>),
}

/// Takes a response head, skipping informational responses. One that uses
/// status 101, and an informational one whose length does not parse, are
/// malformed; the receive half is then stopped with that code. The length of an
/// informational response is ignored otherwise.
pub fn response_headers<X>(
    recv: &mut RecvGuard,
    read: Result<ResponseHead, X>,
    budget: &mut usize,
) -> (step: HeadStep<X>)
    requires
        *old(budget) < BURST,
    ensures
        *final(budget) < BURST,
        match read {
            Err(failure) => {
                &&& step == HeadStep::Failed(Error::outside(Kind::Http3, failure))
                &&& *final(recv) == *old(recv)
                &&& *final(budget) == *old(budget)
            },
            Ok(head) => if head.status == 101 {
                &&& step == HeadStep::Failed(
                    Error::<X>::because(Kind::Http3, Reason::SwitchingProtocols),
                )
                &&& *final(recv) == (RecvGuard { code: Code::MessageError, ..*old(recv) })
                &&& *final(budget) == *old(budget)
            } else if !head.is_informational() {
                &&& step == HeadStep::<X>::Final(head)
                &&& *final(recv) == *old(recv)
                &&& *final(budget) == *old(budget)
            } else {
                match declared_length(head.headers) {
                    Err(reason) => {
                        &&& step == HeadStep::Failed(Error::<X>::because(Kind::Http3, reason))
                        &&& *final(recv) == (RecvGuard { code: Code::MessageError, ..*old(recv) })
                        &&& *final(budget) == *old(budget)
                    },
                    Ok(_) => {
                        &&& step == HeadStep::<X>::Next { yields: *old(budget) + 1 == BURST }
                        &&& *final(recv) == *old(recv)
                        &&& *final(budget) == (*old(budget) + 1) % BURST as int
                    },
                }
            },
        },
{
    let head = match read {
        Ok(head) => head,
        Err(failure) => return HeadStep::Failed(Error::new_outside(Kind::Http3, failure)),
    };
    if head.status == 101 {
        recv.code = Code::MessageError;
        return HeadStep::Failed(Error::new_reason(Kind::Http3, Reason::SwitchingProtocols));
    }
    if head.status < 100 || head.status > 199 {
        return HeadStep::Final(head);
    }
    match content_length(&head.headers) {
        Err(error) => {
            recv.code = Code::MessageError;
            HeadStep::Failed(error)
        },
        Ok(_) => HeadStep::Next { yields: cooperate(budget) },
    }
}

/// The length of the content that a final response announces: what its fields
/// declare, but none where the request was HEAD or the status never has
/// content. The fields are parsed in either case.
pub open spec fn response_length(head_request: bool, head: ResponseHead) -> Result<
    Option<u64>,
    Reason,
> {
    match declared_length(head.headers) {
        Err(reason) => Err(reason),
        Ok(declared) => if head_request || head.is_empty() {
            Ok(Some(0))
        } else {
            Ok(declared)
        },
    }
}

/// Reads the length of the content that a final response announces. A malformed
/// one is a stream error, not a local cancellation, RFC 9114, Section 4.1.2.
pub fn read_response_length<X>(
    recv: &mut RecvGuard,
    head_request: bool,
    head: &ResponseHead,
) -> (length: Result<Option<u64>, Error<X>>)
    ensures
        length == as_http3::<X, Option<u64>>(response_length(head_request, *head)),
        *final(recv) == if length is Err {
            RecvGuard { code: Code::MessageError, ..*old(recv) }
        } else {
            *old(recv)
        },
{
    let declared = match content_length(&head.headers) {
        Ok(declared) => declared,
        Err(error) => {
            recv.code = Code::MessageError;
            return Err(error);
        },
    };
    if head_request || head.status == 204 || head.status == 304 {
        Ok(Some(0))
    } else {
        Ok(declared)
    }
}

/// A chunk is what is left, up to a limit: as much as there is where that fits,
/// and the limit otherwise.
pub proof fn law_chunk_is_what_is_left_up_to_the_limit(left: usize, size: usize)
    requires
        call_ensures(next_chunk, (left,), size),
    ensures
        size == chunk_size(left as nat),
        size <= left,
        size <= 16384,
        size == left || size == 16384,
        left > 0 ==> size > 0,
{
}

/// Without a callback the fields are sent as they are; with one, what it makes of
/// them is.
pub proof fn law_callback_decides_what_is_sent<F: FnOnce(HeaderMap) -> HeaderMap>(
    headers: HeaderMap,
    callback: Option<F>,
    sent: HeaderMap,
)
    requires
        callback is Some ==> call_requires(callback->0, (headers,)),
        call_ensures(preserve_headers::<F>, (headers, callback), sent),
    ensures
        callback is None ==> sent == headers,
        callback is Some ==> call_ensures(callback->0, (headers,), sent),
{
}

/// A request is refused for the first of these that holds of it, and for no
/// other: it names a protocol and is no CONNECT; it has no authority, or no scheme
/// and is no ordinary CONNECT; its first `host` is not its authority; one of its
/// `te` values is not `trailers`. Then its length is read.
pub proof fn law_request_is_refused_for_its_first_fault<X>(
    request: &RequestHead,
    checked: Result<Option<u64>, Error<X>>,
)
    requires
        call_ensures(validate_request::<X>, (request,), checked),
    ensures
        ({
            let held = fields::field_values(request.headers);
            let connect = fields::method_token(request.method) == "CONNECT"@;
            let protocol = request.protocol && !connect;
            let target = request.authority is None || !request.scheme && !(connect
                && !request.protocol);
            let host = held.contains_key("host"@) && held["host"@][0] != vstd::utf8::encode_utf8(
                (request.authority->0)@,
            );
            let te = held.contains_key("te"@) && exists|i: int|
                0 <= i < held["te"@].len() && !text::same_ignoring_case(
                    #[trigger] held["te"@][i],
                    "trailers".spec_bytes(),
                );
            let refused = |reason: Reason|
                checked == Err::<Option<u64>, Error<X>>(Error::because(Kind::Http3, reason));
            &&& protocol ==> refused(Reason::ProtocolWithoutConnect)
            &&& !protocol && target ==> refused(Reason::MissingAuthority)
            &&& !protocol && !target && host ==> refused(Reason::HostConflict)
            &&& !protocol && !target && !host && te ==> refused(Reason::TeNotTrailers)
            &&& !protocol && !target && !host && !te ==> checked == as_http3::<X, Option<u64>>(
                length_in(held),
            )
        }),
{
    headers::lemma_stored_names();
    let held = fields::field_values(request.headers);
    let values = fields::values_in(held, "te"@);
    if held.contains_key("te"@) {
        assert(values == held["te"@]);
    } else {
        assert(values.len() == 0);
    }
}

/// A reading that fails is a failure of the HTTP/3 layer for that reason, and one
/// that succeeds stays what it is. The length of fields is that of their
/// `content-length` values.
pub proof fn law_length_of_fields_is_that_of_their_values<X>(
    headers: &HeaderMap,
    length: Result<Option<u64>, Error<X>>,
)
    requires
        call_ensures(content_length::<X>, (headers,), length),
    ensures
        ({
            let held = fields::field_values(*headers);
            let values = if held.contains_key("content-length"@) {
                held["content-length"@]
            } else {
                Seq::empty()
            };
            &&& declared_length(*headers) == length_of_values(values)
            &&& length_in(held) == length_of_values(values)
            &&& length_of_values(values) matches Ok(read) ==> length == Ok::<Option<u64>, Error<X>>(
                read,
            )
            &&& length_of_values(values) matches Err(reason) ==> length == Err::<
                Option<u64>,
                Error<X>,
            >(Error::because(Kind::Http3, reason))
        }),
{
    headers::lemma_stored_names();
}

/// The first value at fault decides why a length cannot be read: what was wrong
/// before stays so, a value that is no text is refused as such, and otherwise the
/// first item at fault of the value decides.
pub proof fn law_first_value_at_fault_decides(values: Seq<Seq<u8>>, value: Seq<u8>)
    ensures
        length_of_values(Seq::empty()) == Ok::<Option<u64>, Reason>(None),
        length_of_values(values) matches Err(reason) ==> length_of_values(values.push(value))
            == Err::<Option<u64>, Reason>(reason),
        length_of_values(values) is Ok && !fields::is_text(value) ==> length_of_values(
            values.push(value),
        ) == Err::<Option<u64>, Reason>(Reason::LengthNotText),
        length_of_values(values) is Ok && fields::is_text(value) ==> length_of_values(
            values.push(value),
        ) == length_after_items(length_of_values(values)->Ok_0, text::items_of(value)),
{
    assert(values.push(value).drop_last() =~= values);
}

/// The first item at fault decides: what was wrong before stays so; an item that
/// is empty or holds anything but digits is invalid; one that does not fit in 64
/// bits is too large; one that differs from the length known so far conflicts
/// with it; any other is the length that is known from then on.
pub proof fn law_first_item_at_fault_decides(
    known: Option<u64>,
    items: Seq<Seq<u8>>,
    item: Seq<u8>,
)
    ensures
        length_after_items(known, Seq::empty()) == Ok::<Option<u64>, Reason>(known),
        length_after_items(known, items) matches Err(reason) ==> length_after_items(
            known,
            items.push(item),
        ) == Err::<Option<u64>, Reason>(reason),
        length_after_items(known, items) matches Ok(so_far) ==> {
            let digits = item.len() > 0 && forall|i: int|
                0 <= i < item.len() ==> 48 <= #[trigger] item[i] <= 57;
            let read = length_after_items(known, items.push(item));
            &&& !digits ==> read == Err::<Option<u64>, Reason>(Reason::InvalidLength)
            &&& digits && text::number_of(item) is None ==> read == Err::<Option<u64>, Reason>(
                Reason::LengthTooLarge,
            )
            &&& text::number_of(item) matches Some(n) ==> read == if so_far is Some && so_far
                != Some(n) {
                Err::<Option<u64>, Reason>(Reason::ConflictingLength)
            } else {
                Ok::<Option<u64>, Reason>(Some(n))
            }
        },
{
    assert(items.push(item).drop_last() =~= items);
    if text::all_digits(item) {
        text::lemma_digits_value_not_negative(item);
    }
}

/// Counting against a declared length takes exactly the size off it, where the
/// size fits; where it does not, that is told and nothing is taken off. A length
/// that is not known stays so, whatever the size.
pub proof fn law_counting_takes_the_size_off(
    remaining: &mut Option<u64>,
    size: usize,
    fits: Result<(), Reason>,
)
    requires
        call_ensures(consume_length, (remaining, size), fits),
    ensures
        *old(remaining) is None ==> fits is Ok && *final(remaining) is None,
        *old(remaining) is Some && size <= (*old(remaining))->0 ==> fits is Ok && *final(remaining)
            == Some(((*old(remaining))->0 - size) as u64),
        *old(remaining) is Some && size > (*old(remaining))->0 ==> fits == Err::<(), Reason>(
            Reason::BodyTooLong,
        ) && *final(remaining) == *old(remaining),
        match length_left(*old(remaining), size as nat) {
            Ok(left) => fits is Ok && *final(remaining) == left,
            Err(reason) => fits == Err::<(), Reason>(reason),
        },
{
}

/// What is left of a length, with what was counted, is the length.
pub proof fn law_length_left_and_counted_make_up_the_length(remaining: Option<u64>, size: nat)
    ensures
        length_left(remaining, size) is Err <==> remaining is Some && size > remaining->0,
        length_left(remaining, size) matches Err(reason) ==> reason == Reason::BodyTooLong,
        length_left(remaining, size) matches Ok(left) ==> {
            &&& left is Some <==> remaining is Some
            &&& left is Some ==> left->0 + size == remaining->0
        },
{
}

/// A stream yields after every thirty-two ready steps, and not before.
pub proof fn law_streams_yield_after_a_burst(budget: &mut usize, yields: bool)
    requires
        *old(budget) < usize::MAX,
        call_ensures(cooperate, (budget,), yields),
    ensures
        *old(budget) < 31 ==> !yields && *final(budget) == *old(budget) + 1,
        *old(budget) >= 31 ==> yields && *final(budget) == 0,
{
}

/// A request that failed before it left the caller is handed back as it is, and
/// one that failed later is not; the error is the one that was found.
pub proof fn law_failed_request_is_handed_back_or_lost<R, X>(
    error: Error<X>,
    request: R,
    back: TrySendError<R, X>,
    gone: TrySendError<R, X>,
    invalid: Error<X>,
)
    requires
        call_ensures(rejected::<R, X>, (error, request), back),
        call_ensures(lost::<R, X>, (error,), gone),
        call_ensures(invalid_datagram_error::<X>, (), invalid),
    ensures
        back.error == error && back.message == Some(request),
        gone.error == error && gone.message is None,
        invalid == Error::<X>::because(Kind::Http3, Reason::InvalidDatagram),
{
}

/// What dropping a half comes to, in full: a finished half leaves the stream
/// alone. An unfinished send half resets it as canceled, and an unfinished
/// receive half closes its Datagram route, if it has one, and stops the peer with
/// its code; either names an invalid Datagram instead where the half has a route
/// and one came.
pub proof fn law_dropped_halves_tell_why(
    send: SendGuard,
    recv: RecvGuard,
    invalid: bool,
    reset: Option<Code>,
    stopped: RecvDrop,
)
    requires
        call_ensures(SendGuard::abandon, (send, invalid), reset),
        call_ensures(RecvGuard::abandon, (recv, invalid), stopped),
    ensures
        reset == send.reset_code(invalid),
        stopped == recv.dropped(invalid),
        send.finished ==> reset is None,
        !send.finished && send.datagrams && invalid ==> reset == Some(Code::DatagramError),
        !send.finished && !(send.datagrams && invalid) ==> reset == Some(Code::RequestCancelled),
        recv.finished ==> stopped.stop_sending is None && !stopped.close_route,
        !recv.finished ==> stopped.close_route == recv.datagrams,
        !recv.finished && recv.datagrams && invalid ==> stopped.stop_sending == Some(
            Code::DatagramError,
        ),
        !recv.finished && !(recv.datagrams && invalid) ==> stopped.stop_sending == Some(recv.code),
        RecvGuard::opened(recv.datagrams).datagrams == recv.datagrams,
        !RecvGuard::opened(recv.datagrams).finished,
        RecvGuard::opened(recv.datagrams).code == Code::RequestCancelled,
{
}

/// A FIN that was taken finishes its half and closes the half's route for
/// sending; a peer that stopped the stream first leaves the half unfinished and
/// is no failure; anything else is.
pub proof fn law_taken_fin_finishes_the_half<X>(
    send: SendGuard,
    sent: Result<(), StreamFailure<X>>,
    finished: Result<(SendGuard, bool), Error<X>>,
)
    requires
        call_ensures(SendGuard::finish::<X>, (send, sent), finished),
    ensures
        sent is Ok ==> finished is Ok && finished->Ok_0.0.finished && finished->Ok_0.0.datagrams
            == send.datagrams && finished->Ok_0.1 == send.datagrams,
        sent is Err && sent->Err_0 is RemoteTerminate ==> finished is Ok && finished->Ok_0.0 == send
            && !finished->Ok_0.1,
        sent matches Err(StreamFailure::Other(failure)) ==> finished is Err && finished->Err_0
            == Error::outside(Kind::Http3, failure),
{
}

/// A response head is final unless its status is between 100 and 199; then it is
/// passed over, whatever length it declares, unless it switches protocols or its
/// length cannot be read, which are malformed and stop the peer with that code. A
/// head that could not be read is a failure of the HTTP/3 layer.
pub proof fn law_only_informational_heads_are_passed_over<X>(
    recv: &mut RecvGuard,
    read: Result<ResponseHead, X>,
    budget: &mut usize,
    step: HeadStep<X>,
)
    requires
        *old(budget) < 32,
        call_ensures(response_headers::<X>, (recv, read, budget), step),
    ensures
        read matches Err(failure) ==> step == HeadStep::<X>::Failed(
            Error::outside(Kind::Http3, failure),
        ),
        read matches Ok(head) ==> {
            let informational = 100 <= head.status <= 199;
            let unread = declared_length(head.headers) is Err;
            &&& !informational ==> step == HeadStep::<X>::Final(head)
            &&& head.status == 101 ==> step == HeadStep::<X>::Failed(
                Error::because(Kind::Http3, Reason::SwitchingProtocols),
            )
            &&& informational && head.status != 101 && unread ==> step == HeadStep::<X>::Failed(
                Error::because(Kind::Http3, declared_length(head.headers)->Err_0),
            )
            &&& informational && head.status != 101 && !unread ==> step is Next && step->yields == (
            *old(budget) == 31)
            &&& head.status == 101 || informational && unread ==> *final(recv) == (RecvGuard {
                code: Code::MessageError,
                ..*old(recv)
            })
        },
        !(read is Ok && step is Failed) ==> *final(recv) == *old(recv),
        step is Next ==> *final(budget) == if *old(budget) == 31 {
            0
        } else {
            (*old(budget) + 1) as usize
        },
        step !is Next ==> *final(budget) == *old(budget),
{
}

/// The content of a final response has the length that its fields declare, and a
/// length that is not known where they declare none. Only to a HEAD, and with the
/// status 204 or 304, it has none. Fields that cannot be read are malformed in
/// either case, and then the peer is stopped with that code.
pub proof fn law_response_has_the_declared_length<X>(
    recv: &mut RecvGuard,
    head_request: bool,
    head: &ResponseHead,
    length: Result<Option<u64>, Error<X>>,
)
    requires
        call_ensures(read_response_length::<X>, (recv, head_request, head), length),
    ensures
        ({
            let empty = head_request || head.status == 204 || head.status == 304;
            let declared = declared_length(head.headers);
            &&& declared matches Err(reason) ==> length == Err::<Option<u64>, Error<X>>(
                Error::because(Kind::Http3, reason),
            ) && *final(recv) == (RecvGuard { code: Code::MessageError, ..*old(recv) })
            &&& declared matches Ok(said) ==> *final(recv) == *old(recv) && length == Ok::<
                Option<u64>,
                Error<X>,
            >(
                if empty {
                    Some(0)
                } else {
                    said
                },
            )
            &&& response_length(head_request, *head) is Ok <==> declared is Ok
            &&& declared is Ok && !empty ==> response_length(head_request, *head) == declared
            &&& declared is Ok && empty ==> response_length(head_request, *head) == Ok::<
                Option<u64>,
                Reason,
            >(Some(0))
            &&& declared is Err ==> response_length(head_request, *head) == declared
        }),
{
}

/// A response is a success where its status is between 200 and 299, and only
/// there; a request is a CONNECT or a HEAD where its method is exactly that.
pub proof fn law_status_and_method_tell_the_class(head: ResponseHead, request: RequestHead)
    ensures
        head.is_success() <==> 200 <= head.status <= 299,
        head.is_informational() <==> 100 <= head.status <= 199,
        head.is_empty() <==> head.status == 204 || head.status == 304,
        request.is_connect() <==> fields::method_token(request.method) == "CONNECT"@,
        request.is_head() <==> fields::method_token(request.method) == "HEAD"@,
{
}

/// What is said of the check of a request holds of any fields that it may have:
/// the first fault decides, and a request without one has the length that the
/// fields declare.
pub proof fn law_check_looks_at_the_fields_it_is_given<X>(
    request: RequestHead,
    held: Map<Seq<char>, Seq<Seq<u8>>>,
)
    ensures
        ({
            let connect = fields::method_token(request.method) == "CONNECT"@;
            let protocol = request.protocol && !connect;
            let target = request.authority is None || !request.scheme && !(connect
                && !request.protocol);
            let host = held.contains_key("host"@) && held["host"@][0] != vstd::utf8::encode_utf8(
                (request.authority->0)@,
            );
            let te = held.contains_key("te"@) && exists|i: int|
                0 <= i < held["te"@].len() && !text::same_ignoring_case(
                    #[trigger] held["te"@][i],
                    "trailers".spec_bytes(),
                );
            let values = if held.contains_key("content-length"@) {
                held["content-length"@]
            } else {
                Seq::empty()
            };
            let checked = request.checked_length::<X>(held);
            let refused = |reason: Reason|
                checked == Err::<Option<u64>, Error<X>>(Error::because(Kind::Http3, reason));
            &&& protocol ==> refused(Reason::ProtocolWithoutConnect)
            &&& !protocol && target ==> refused(Reason::MissingAuthority)
            &&& !protocol && !target && host ==> refused(Reason::HostConflict)
            &&& !protocol && !target && !host && te ==> refused(Reason::TeNotTrailers)
            &&& !protocol && !target && !host && !te ==> match length_of_values(values) {
                Ok(length) => checked == Ok::<Option<u64>, Error<X>>(length),
                Err(reason) => refused(reason),
            }
        }),
{
    headers::lemma_stored_names();
    let values = fields::values_in(held, "te"@);
    if held.contains_key("te"@) {
        assert(values == held["te"@]);
    } else {
        assert(values.len() == 0);
    }
}

/// A request is a CONNECT, or a HEAD, where its method is that very word.
pub proof fn law_method_is_told_by_its_word(request: RequestHead)
    ensures
        request.is_connect() <==> fields::method_token(request.method) == "CONNECT"@,
        request.is_head() <==> fields::method_token(request.method) == "HEAD"@,
{
}

} // verus!
