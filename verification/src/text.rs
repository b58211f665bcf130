//! Lists and numbers inside field values: comma-separated pieces, blanks
//! around them, comparison without regard to ASCII case, and decimal numbers.

use vstd::prelude::*;

verus! {

/// The comma that separates the pieces of a list.
pub const COMMA: u8 = 44;

/// A space or a tab. In text that holds only visible ASCII, spaces and tabs
/// these are the only blanks.
pub open spec fn is_blank(b: u8) -> bool {
    b == 32 || b == 9
}

/// The pieces of a list: what stands before, between and after its commas.
/// There is always at least one piece, which may be empty.
pub open spec fn pieces_of(s: Seq<u8>) -> Seq<Seq<u8>>
    decreases s.len(),
{
    if s.len() == 0 {
        seq![Seq::empty()]
    } else {
        let before = pieces_of(s.drop_last());
        if s.last() == COMMA {
            before.push(Seq::empty())
        } else {
            before.update(before.len() - 1, before.last().push(s.last()))
        }
    }
}

/// The bytes without the blanks at their end.
pub open spec fn trimmed_end(s: Seq<u8>) -> Seq<u8>
    decreases s.len(),
{
    if s.len() > 0 && is_blank(s.last()) {
        trimmed_end(s.drop_last())
    } else {
        s
    }
}

/// The bytes without the blanks at their start.
pub open spec fn trimmed_start(s: Seq<u8>) -> Seq<u8>
    decreases s.len(),
{
    if s.len() > 0 && is_blank(s.first()) {
        trimmed_start(s.drop_first())
    } else {
        s
    }
}

/// The bytes without the blanks around them.
pub open spec fn trimmed(s: Seq<u8>) -> Seq<u8> {
    trimmed_start(trimmed_end(s))
}

/// The pieces of a list without the blanks around each.
pub open spec fn items_of(s: Seq<u8>) -> Seq<Seq<u8>> {
    pieces_of(s).map_values(|piece: Seq<u8>| trimmed(piece))
}

/// An ASCII letter in lower case; any other byte as it is.
pub open spec fn lower_byte(b: u8) -> u8 {
    if 65 <= b <= 90 {
        (b + 32) as u8
    } else {
        b
    }
}

/// Whether two byte strings are equal but for the case of ASCII letters.
pub open spec fn same_ignoring_case(a: Seq<u8>, b: Seq<u8>) -> bool {
    a.len() == b.len() && forall|i: int|
        0 <= i < a.len() ==> lower_byte(#[trigger] a[i]) == lower_byte(b[i])
}

/// Whether every byte is a decimal digit.
pub open spec fn all_digits(s: Seq<u8>) -> bool {
    forall|i: int| 0 <= i < s.len() ==> 48 <= #[trigger] s[i] <= 57
}

/// The number that decimal digits spell.
pub open spec fn digits_value(s: Seq<u8>) -> int
    decreases s.len(),
{
    if s.len() == 0 {
        0
    } else {
        digits_value(s.drop_last()) * 10 + (s.last() - 48)
    }
}

/// The number that a byte string spells, where it is one or more decimal
/// digits and the number fits in 64 bits.
pub open spec fn number_of(s: Seq<u8>) -> Option<u64> {
    if s.len() > 0 && all_digits(s) && digits_value(s) <= u64::MAX {
        Some(digits_value(s) as u64)
    } else {
        None
    }
}

/// The decimal digits of a number, without leading zeros.
pub open spec fn decimal(n: nat) -> Seq<u8>
    decreases n,
{
    if n < 10 {
        seq![(48 + n) as u8]
    } else {
        decimal(n / 10).push((48 + n % 10) as u8)
    }
}

proof fn lemma_digits_value_grows(s: Seq<u8>, i: int)
    requires
        all_digits(s),
        0 <= i <= s.len(),
    ensures
        0 <= digits_value(s.take(i)) <= digits_value(s),
    decreases s.len() - i, s.len(),
{
    if i < s.len() {
        lemma_digits_value_grows(s, i + 1);
        assert(s.take(i + 1).drop_last() =~= s.take(i));
        lemma_digits_value_not_negative(s.take(i));
    } else {
        assert(s.take(i) =~= s);
        lemma_digits_value_not_negative(s);
    }
}

pub(crate) proof fn lemma_digits_value_not_negative(s: Seq<u8>)
    requires
        all_digits(s),
    ensures
        digits_value(s) >= 0,
    decreases s.len(),
{
    if s.len() > 0 {
        lemma_digits_value_not_negative(s.drop_last());
    }
}

/// The digits of a number are digits, spell that number, and hold no comma and
/// no blank.
pub proof fn lemma_decimal(n: nat)
    ensures
        decimal(n).len() > 0,
        all_digits(decimal(n)),
        digits_value(decimal(n)) == n,
    decreases n,
{
    if n >= 10 {
        lemma_decimal(n / 10);
        assert(decimal(n).drop_last() =~= decimal(n / 10));
    } else {
        assert(decimal(n).drop_last() =~= Seq::<u8>::empty());
        assert(decimal(n).last() == 48 + n);
        assert(digits_value(Seq::<u8>::empty()) == 0);
    }
}

/// Digits alone are a list of one item, which is those digits.
pub proof fn lemma_digits_are_one_item(s: Seq<u8>)
    requires
        all_digits(s),
    ensures
        items_of(s) == seq![s],
{
    lemma_digits_are_one_piece(s);
    assert(trimmed_end(s) == s);
    assert(trimmed(s) == s);
    assert(items_of(s) =~= seq![s]);
}

proof fn lemma_digits_are_one_piece(s: Seq<u8>)
    requires
        all_digits(s),
    ensures
        pieces_of(s) == seq![s],
    decreases s.len(),
{
    if s.len() == 0 {
        assert(s =~= Seq::<u8>::empty());
    } else {
        lemma_digits_are_one_piece(s.drop_last());
        assert(s.drop_last().push(s.last()) =~= s);
        assert(pieces_of(s) =~= seq![s]);
    }
}

/// A list has at least one item.
pub proof fn lemma_pieces_not_empty(s: Seq<u8>)
    ensures
        pieces_of(s).len() > 0,
        items_of(s).len() > 0,
    decreases s.len(),
{
    if s.len() > 0 {
        lemma_pieces_not_empty(s.drop_last());
    }
}

/// What follows the last comma of a list is its last piece.
pub proof fn lemma_last_piece(s: Seq<u8>, tail: Seq<u8>)
    requires
        forall|i: int| 0 <= i < tail.len() ==> #[trigger] tail[i] != COMMA,
    ensures
        pieces_of(s.push(COMMA) + tail).len() > 0,
        pieces_of(s.push(COMMA) + tail).last() == tail,
    decreases tail.len(),
{
    let whole = s.push(COMMA) + tail;
    if tail.len() == 0 {
        assert(whole.drop_last() =~= s);
        assert(whole.last() == COMMA);
        assert(tail =~= Seq::empty());
    } else {
        lemma_last_piece(s, tail.drop_last());
        assert(whole.drop_last() =~= s.push(COMMA) + tail.drop_last());
        assert(tail.drop_last().push(tail.last()) =~= tail);
    }
}

/// Reads decimal digits as a number. An empty string, a byte that is no digit
/// and a number above 64 bits give `None`; there is no sign.
pub fn from_digits(bytes: &[u8]) -> (number: Option<u64>)
    ensures
        number == number_of(bytes@),
{
    let mut result: u64 = 0;
    if bytes.len() == 0 {
        return None;
    }
    let mut i: usize = 0;
    while i < bytes.len()
        invariant
            i <= bytes@.len(),
            bytes@.len() > 0,
            all_digits(bytes@.take(i as int)),
            result == digits_value(bytes@.take(i as int)),
        decreases bytes@.len() - i,
    {
        let b: u8 = bytes[i];
        let ghost next = bytes@.take(i + 1);
        assert(next.drop_last() =~= bytes@.take(i as int));
        assert(next.last() == b);
        if b < 48 || b > 57 {
            return None;
        }
        proof {
            assert forall|j: int| 0 <= j < next.len() implies 48 <= #[trigger] next[j] <= 57 by {
                if j < i {
                    assert(next[j] == bytes@.take(i as int)[j]);
                }
            }
            if all_digits(bytes@) {
                lemma_digits_value_grows(bytes@, i + 1);
            }
        }
        result = match result.checked_mul(10) {
            Some(shifted) => match shifted.checked_add((b - 48) as u64) {
                Some(sum) => sum,
                None => return None,
            },
            None => return None,
        };
        i += 1;
    }
    assert(bytes@.take(i as int) =~= bytes@);
    Some(result)
}

/// Whether every byte is a decimal digit.
pub fn are_digits(bytes: &[u8]) -> (digits: bool)
    ensures
        digits == all_digits(bytes@),
{
    let mut i: usize = 0;
    while i < bytes.len()
        invariant
            i <= bytes@.len(),
            forall|j: int| 0 <= j < i ==> 48 <= #[trigger] bytes@[j] <= 57,
        decreases bytes@.len() - i,
    {
        if bytes[i] < 48 || bytes[i] > 57 {
            return false;
        }
        i += 1;
    }
    true
}

/// Compares two byte strings without regard to the case of ASCII letters.
pub fn equal_ignoring_case(a: &[u8], b: &[u8]) -> (equal: bool)
    ensures
        equal == same_ignoring_case(a@, b@),
{
    if a.len() != b.len() {
        return false;
    }
    let mut i: usize = 0;
    while i < a.len()
        invariant
            i <= a@.len(),
            a@.len() == b@.len(),
            forall|j: int| 0 <= j < i ==> lower_byte(#[trigger] a@[j]) == lower_byte(b@[j]),
        decreases a@.len() - i,
    {
        if to_lower(a[i]) != to_lower(b[i]) {
            return false;
        }
        i += 1;
    }
    true
}

fn to_lower(b: u8) -> (lower: u8)
    ensures
        lower == lower_byte(b),
{
    if 65 <= b && b <= 90 {
        b + 32
    } else {
        b
    }
}

/// Compares two byte strings.
pub fn equal_bytes(a: &[u8], b: &[u8]) -> (equal: bool)
    ensures
        equal == (a@ == b@),
{
    if a.len() != b.len() {
        return false;
    }
    let mut i: usize = 0;
    while i < a.len()
        invariant
            i <= a@.len(),
            a@.len() == b@.len(),
            forall|j: int| 0 <= j < i ==> a@[j] == b@[j],
        decreases a@.len() - i,
    {
        if a[i] != b[i] {
            return false;
        }
        i += 1;
    }
    assert(a@ =~= b@);
    true
}

/// Compares two strings.
pub fn equal_text(a: &str, b: &str) -> (equal: bool)
    ensures
        equal == (a@ == b@),
{
    proof {
        vstd::utf8::encode_utf8_decode_utf8(a@);
        vstd::utf8::encode_utf8_decode_utf8(b@);
    }
    equal_bytes(a.as_bytes(), b.as_bytes())
}

/// The bounds of `s[start..end]` without the blanks around it.
fn trim_range(s: &[u8], start: usize, end: usize) -> (range: (usize, usize))
    requires
        start <= end <= s@.len(),
    ensures
        start <= range.0 <= range.1 <= end,
        s@.subrange(range.0 as int, range.1 as int) == trimmed(
            s@.subrange(start as int, end as int),
        ),
{
    let mut to: usize = end;
    while to > start && (s[to - 1] == 32 || s[to - 1] == 9)
        invariant
            start <= to <= end <= s@.len(),
            trimmed_end(s@.subrange(start as int, to as int)) == trimmed_end(
                s@.subrange(start as int, end as int),
            ),
        decreases to - start,
    {
        assert(s@.subrange(start as int, to as int).drop_last() =~= s@.subrange(
            start as int,
            to - 1,
        ));
        to -= 1;
    }
    let mut from: usize = start;
    while from < to && (s[from] == 32 || s[from] == 9)
        invariant
            start <= from <= to <= end <= s@.len(),
            trimmed_start(s@.subrange(from as int, to as int)) == trimmed_start(
                s@.subrange(start as int, to as int),
            ),
        decreases to - from,
    {
        assert(s@.subrange(from as int, to as int).drop_first() =~= s@.subrange(
            from + 1,
            to as int,
        ));
        from += 1;
    }
    (from, to)
}

/// Where the items of a list stand in it: the bounds of each piece between
/// commas, without the blanks around it.
pub fn item_ranges(s: &[u8]) -> (ranges: Vec<(usize, usize)>)
    ensures
        ranges@.len() == items_of(s@).len(),
        ranges@.len() > 0,
        forall|k: int|
            0 <= k < ranges@.len() ==> {
                &&& (#[trigger] ranges@[k]).0 <= ranges@[k].1 <= s@.len()
                &&& s@.subrange(ranges@[k].0 as int, ranges@[k].1 as int) == items_of(s@)[k]
            },
{
    let mut ranges: Vec<(usize, usize)> = Vec::new();
    let mut start: usize = 0;
    let mut i: usize = 0;
    assert(s@.take(0) =~= Seq::<u8>::empty());
    assert(s@.subrange(0, 0) =~= Seq::<u8>::empty());
    while i < s.len()
        invariant
            start <= i <= s@.len(),
            pieces_of(s@.take(i as int)).len() == ranges@.len() + 1,
            pieces_of(s@.take(i as int)).last() == s@.subrange(start as int, i as int),
            forall|k: int|
                0 <= k < ranges@.len() ==> {
                    &&& (#[trigger] ranges@[k]).0 <= ranges@[k].1 <= s@.len()
                    &&& s@.subrange(ranges@[k].0 as int, ranges@[k].1 as int) == trimmed(
                        pieces_of(s@.take(i as int))[k],
                    )
                },
        decreases s@.len() - i,
    {
        let ghost before = pieces_of(s@.take(i as int));
        let ghost next = s@.take(i + 1);
        assert(next.drop_last() =~= s@.take(i as int));
        assert(next.last() == s@[i as int]);
        if s[i] == COMMA {
            let range: (usize, usize) = trim_range(s, start, i);
            ranges.push(range);
            start = i + 1;
            assert(s@.subrange(start as int, i + 1) =~= Seq::<u8>::empty());
            assert(pieces_of(next) == before.push(Seq::empty()));
        } else {
            assert(s@.subrange(start as int, i + 1) =~= s@.subrange(start as int, i as int).push(
                s@[i as int],
            ));
            assert(pieces_of(next) == before.update(
                before.len() - 1,
                before.last().push(s@[i as int]),
            ));
        }
        i += 1;
    }
    let range: (usize, usize) = trim_range(s, start, i);
    ranges.push(range);
    assert(s@.take(i as int) =~= s@);
    ranges
}

/// Pieces with a comma between each and the next.
pub open spec fn joined(pieces: Seq<Seq<u8>>) -> Seq<u8>
    decreases pieces.len(),
{
    if pieces.len() == 0 {
        Seq::empty()
    } else if pieces.len() == 1 {
        pieces[0]
    } else {
        joined(pieces.drop_last()).push(44u8) + pieces.last()
    }
}

/// The pieces of a list hold no comma, and joined by commas they are the list
/// again: nothing of it is lost, moved or made up.
pub proof fn law_pieces_make_up_the_list(s: Seq<u8>)
    ensures
        pieces_of(s).len() > 0,
        joined(pieces_of(s)) == s,
        forall|k: int, i: int|
            0 <= k < pieces_of(s).len() && 0 <= i < pieces_of(s)[k].len() ==> (
            #[trigger] pieces_of(s)[k][i]) != 44u8,
    decreases s.len(),
{
    if s.len() == 0 {
        assert(joined(pieces_of(s)) =~= s);
    } else {
        let before = pieces_of(s.drop_last());
        law_pieces_make_up_the_list(s.drop_last());
        if s.last() == 44u8 {
            let now = before.push(Seq::empty());
            assert(now.drop_last() =~= before);
            assert(joined(now) =~= s);
        } else {
            let now = before.update(before.len() - 1, before.last().push(s.last()));
            assert(now.drop_last() =~= before.drop_last());
            assert(joined(now) =~= joined(before).push(s.last()));
            assert(joined(now) =~= s);
            assert forall|k: int, i: int| 0 <= k < now.len() && 0 <= i < now[k].len() implies (
            #[trigger] now[k][i]) != 44u8 by {
                if k < before.len() - 1 {
                    assert(now[k] == before[k]);
                    assert(before[k][i] != 44u8);
                } else if i < before[k].len() {
                    assert(now[k][i] == before[k][i]);
                }
            }
        }
    }
}

/// Whether `item` is `piece` without the spaces and tabs around it: what was cut
/// off on either side is spaces and tabs, and what is left begins and ends with
/// neither.
pub open spec fn is_without_blanks(piece: Seq<u8>, item: Seq<u8>) -> bool {
    exists|from: int, to: int|
        {
            &&& 0 <= from <= to <= piece.len()
            &&& item == #[trigger] piece.subrange(from, to)
            &&& forall|i: int|
                0 <= i < from || to <= i < piece.len() ==> (#[trigger] piece[i]) == 32u8 || piece[i]
                    == 9u8
            &&& from < to ==> piece[from] != 32u8 && piece[from] != 9u8 && piece[to - 1] != 32u8
                && piece[to - 1] != 9u8
        }
}

/// The items of a list are its pieces, each without the spaces and tabs around
/// it, in their order.
pub proof fn law_items_are_the_pieces_without_blanks(s: Seq<u8>)
    ensures
        items_of(s).len() == pieces_of(s).len(),
        forall|k: int|
            0 <= k < items_of(s).len() ==> is_without_blanks(
                #[trigger] pieces_of(s)[k],
                items_of(s)[k],
            ),
{
    assert forall|k: int| 0 <= k < items_of(s).len() implies is_without_blanks(
        #[trigger] pieces_of(s)[k],
        items_of(s)[k],
    ) by {
        let piece = pieces_of(s)[k];
        let to = lemma_trimmed_end(piece);
        let middle = piece.take(to);
        let from = lemma_trimmed_start(middle);
        assert(middle.subrange(from, to) =~= piece.subrange(from, to));
        assert(items_of(s)[k] == piece.subrange(from, to));
        assert forall|i: int| 0 <= i < from || to <= i < piece.len() implies (#[trigger] piece[i])
            == 32u8 || piece[i] == 9u8 by {
            if i < from {
                assert(middle[i] == piece[i]);
            }
        }
        if from < to {
            assert(middle[from] == piece[from]);
        }
    }
}

proof fn lemma_trimmed_end(s: Seq<u8>) -> (to: int)
    ensures
        0 <= to <= s.len(),
        trimmed_end(s) == s.take(to),
        forall|i: int| to <= i < s.len() ==> (#[trigger] s[i]) == 32u8 || s[i] == 9u8,
        to > 0 ==> s[to - 1] != 32u8 && s[to - 1] != 9u8,
    decreases s.len(),
{
    if s.len() > 0 && is_blank(s.last()) {
        let to = lemma_trimmed_end(s.drop_last());
        assert(s.drop_last().take(to) =~= s.take(to));
        assert forall|i: int| to <= i < s.len() implies (#[trigger] s[i]) == 32u8 || s[i]
            == 9u8 by {
            if i < s.len() - 1 {
                assert(s.drop_last()[i] == s[i]);
            }
        }
        to
    } else {
        assert(s.take(s.len() as int) =~= s);
        s.len() as int
    }
}

proof fn lemma_trimmed_start(s: Seq<u8>) -> (from: int)
    ensures
        0 <= from <= s.len(),
        trimmed_start(s) == s.subrange(from, s.len() as int),
        forall|i: int| 0 <= i < from ==> (#[trigger] s[i]) == 32u8 || s[i] == 9u8,
        from < s.len() ==> s[from] != 32u8 && s[from] != 9u8,
    decreases s.len(),
{
    if s.len() > 0 && is_blank(s.first()) {
        let rest = s.drop_first();
        let from = lemma_trimmed_start(rest);
        assert(rest.subrange(from, rest.len() as int) =~= s.subrange(from + 1, s.len() as int));
        assert forall|i: int| 0 <= i < from + 1 implies (#[trigger] s[i]) == 32u8 || s[i]
            == 9u8 by {
            if i > 0 {
                assert(rest[i - 1] == s[i]);
            }
        }
        if from < rest.len() {
            assert(rest[from] == s[from + 1]);
        }
        from + 1
    } else {
        assert(s.subrange(0, s.len() as int) =~= s);
        0
    }
}

/// Two byte strings are equal without regard to ASCII case exactly where they
/// are as long, and in each place hold the same byte or the same letter, of
/// which one is upper case and the other lower case.
pub proof fn law_case_of_letters_is_all_that_may_differ(a: Seq<u8>, b: Seq<u8>)
    ensures
        same_ignoring_case(a, b) <==> a.len() == b.len() && forall|i: int|
            0 <= i < a.len() ==> {
                ||| (#[trigger] a[i]) == b[i]
                ||| 65 <= a[i] <= 90 && b[i] == a[i] + 32
                ||| 65 <= b[i] <= 90 && a[i] == b[i] + 32
            },
{
}

/// Digits read as a decimal number: one digit is its own value, and a further
/// digit makes ten times the number and that digit more, where that fits in 64
/// bits. Nothing else is a number: not the empty string, none with a byte that is
/// no digit, and none that is too large.
pub proof fn law_digits_read_as_a_decimal_number(s: Seq<u8>, digit: u8)
    ensures
        number_of(Seq::empty()) is None,
        48 <= digit <= 57 ==> number_of(seq![digit]) == Some((digit - 48) as u64),
        !(48 <= digit <= 57) ==> number_of(s.push(digit)) is None,
        s.len() > 0 && 48 <= digit <= 57 ==> match number_of(s) {
            Some(n) => number_of(s.push(digit)) == if 10 * n + (digit - 48) <= u64::MAX {
                Some((10 * n + (digit - 48)) as u64)
            } else {
                None
            },
            None => number_of(s.push(digit)) is None,
        },
        number_of(s) is Some <==> s.len() > 0 && (forall|i: int|
            0 <= i < s.len() ==> 48 <= #[trigger] s[i] <= 57) && digits_value(s) <= u64::MAX,
{
    let more = s.push(digit);
    assert(more.drop_last() =~= s);
    assert(more.last() == digit);
    assert(seq![digit].drop_last() =~= Seq::<u8>::empty());
    assert(digits_value(Seq::<u8>::empty()) == 0);
    assert(digits_value(seq![digit]) == digit - 48);
    if !(48 <= digit <= 57) {
        assert(more[s.len() as int] == digit);
    } else if s.len() > 0 {
        if all_digits(s) {
            lemma_digits_value_not_negative(s);
            assert forall|i: int| 0 <= i < more.len() implies 48 <= #[trigger] more[i] <= 57 by {
                if i < s.len() {
                    assert(more[i] == s[i]);
                }
            }
        } else {
            let i = choose|i: int| 0 <= i < s.len() && !(48 <= #[trigger] s[i] <= 57);
            assert(more[i] == s[i]);
        }
    }
}

/// The digits that are written for a number are the shortest that read as it:
/// reading them gives the number back, and only zero begins with a zero.
pub proof fn law_written_number_reads_back(n: u64)
    ensures
        number_of(decimal(n as nat)) == Some(n),
        decimal(n as nat).len() > 1 ==> decimal(n as nat)[0] != 48u8,
{
    lemma_decimal(n as nat);
    lemma_no_leading_zero(n as nat);
}

proof fn lemma_no_leading_zero(n: nat)
    ensures
        decimal(n).len() > 0,
        n > 0 ==> decimal(n)[0] != 48u8,
        n == 0 ==> decimal(n).len() == 1,
    decreases n,
{
    if n >= 10 {
        lemma_no_leading_zero(n / 10);
    }
}

/// What the readers of text do is what the laws above speak of: the bounds of
/// the items are those of the items in their order, and the comparisons and the
/// number are exact.
pub proof fn law_readers_of_text(
    list: &[u8],
    ranges: Vec<(usize, usize)>,
    a: &[u8],
    b: &[u8],
    loosely: bool,
    exactly: bool,
    number: Option<u64>,
    digits: bool,
)
    requires
        call_ensures(item_ranges, (list,), ranges),
        call_ensures(equal_ignoring_case, (a, b), loosely),
        call_ensures(equal_bytes, (a, b), exactly),
        call_ensures(from_digits, (a,), number),
        call_ensures(are_digits, (a,), digits),
    ensures
        ranges@.len() == items_of(list@).len(),
        forall|k: int|
            0 <= k < ranges@.len() ==> {
                &&& (#[trigger] ranges@[k]).0 <= ranges@[k].1 <= list@.len()
                &&& list@.subrange(ranges@[k].0 as int, ranges@[k].1 as int) == items_of(list@)[k]
            },
        exactly <==> a@ == b@,
        exactly ==> loosely,
        loosely ==> a@.len() == b@.len(),
        loosely <==> same_ignoring_case(a@, b@),
        number == number_of(a@),
        number is Some ==> digits,
        digits <==> forall|i: int| 0 <= i < a@.len() ==> 48 <= #[trigger] a@[i] <= 57,
{
}

/// Two strings are equal where they have the same characters in the same order.
pub proof fn law_equal_text_has_the_same_characters(a: &str, b: &str, equal: bool)
    requires
        call_ensures(equal_text, (a, b), equal),
    ensures
        equal <==> a@.len() == b@.len() && forall|i: int| 0 <= i < a@.len() ==> #[trigger] a@[i]
            == b@[i],
{
    if a@.len() == b@.len() && forall|i: int| 0 <= i < a@.len() ==> #[trigger] a@[i] == b@[i] {
        assert(a@ =~= b@);
    }
}

} // verus!
