//! Text: comparison and case folding from the standard library, prefixes,
//! and the decimal numbers that ids and dates are written in.

use vstd::prelude::*;
use vstd::string::StrSliceExecFns;

verus! {

/// `==` on string slices, as the standard library documents it: two slices
/// are equal exactly when they hold the same characters.
pub assume_specification[ <str as PartialEq>::eq ](a: &str, b: &str) -> (equal: bool)
    ensures
        equal == (a@ == b@),
;

/// `String::push`, as the standard library documents it: the character is
/// appended to the end of the string.
pub assume_specification[ String::push ](text: &mut String, c: char)
    ensures
        final(text)@ == old(text)@.push(c),
;

/// The lower-case form of a text, as `str::to_lowercase` gives it: the
/// Unicode rule takes tables to state, so it only has a name here.
pub uninterp spec fn lowercase(text: Seq<char>) -> Seq<char>;

/// Calls `str::to_lowercase`. The standard library documents the result as
/// the lower-case equivalent of the slice, which depends on the text alone.
#[verifier::external_body]
pub(crate) fn to_lowercase(text: &str) -> (lower: String)
    ensures
        lower@ == lowercase(text@),
{
    text.to_lowercase()
}

/// Whether `text` begins with `prefix`, character for character.
pub fn starts_with(text: &str, prefix: &str) -> (found: bool)
    ensures
        found == prefix@.is_prefix_of(text@),
{
    let wanted = prefix.unicode_len();
    if wanted > text.unicode_len() {
        return false;
    }
    let mut i: usize = 0;
    while i < wanted
        invariant
            i <= wanted,
            wanted == prefix@.len(),
            wanted <= text@.len(),
            forall|j: int| 0 <= j < i ==> text@[j] == prefix@[j],
        decreases wanted - i,
    {
        if text.get_char(i) != prefix.get_char(i) {
            assert(text@.subrange(0, wanted as int)[i as int] != prefix@[i as int]);
            return false;
        }
        i += 1;
    }
    assert(prefix@ =~= text@.subrange(0, wanted as int));
    true
}

/// One of the ten decimal digits.
pub open spec fn is_digit(c: char) -> bool {
    '0' <= c <= '9'
}

/// The number that a digit stands for.
pub open spec fn digit_value(c: char) -> int {
    c as int - '0' as int
}

/// The digit that stands for a number below ten.
pub open spec fn digit_char(value: int) -> char {
    (value + '0' as int) as char
}

/// Every character is a decimal digit.
pub open spec fn all_digits(text: Seq<char>) -> bool {
    forall|i: int| 0 <= i < text.len() ==> is_digit(#[trigger] text[i])
}

/// The number that a run of digits stands for, read as decimal.
pub open spec fn digits_value(digits: Seq<char>) -> int
    decreases digits.len(),
{
    if digits.len() == 0 {
        0
    } else {
        digits_value(digits.drop_last()) * 10 + digit_value(digits.last())
    }
}

/// The digits of a written number: the text without one leading plus sign.
pub open spec fn unsigned_digits(text: Seq<char>) -> Seq<char> {
    if text.len() > 0 && text[0] == '+' {
        text.drop_first()
    } else {
        text
    }
}

/// The number that `text` is the decimal writing of, if it is one and the
/// number is at most `max`: an optional plus sign, then one digit or more and
/// nothing else.
pub open spec fn decimal_value(text: Seq<char>, max: int) -> Option<int> {
    let digits = unsigned_digits(text);
    if digits.len() > 0 && all_digits(digits) && digits_value(digits) <= max {
        Some(digits_value(digits))
    } else {
        None
    }
}

/// A number in decimal, without leading zeros.
pub open spec fn decimal_text(value: nat) -> Seq<char>
    decreases value,
{
    if value < 10 {
        seq![digit_char(value as int)]
    } else {
        decimal_text(value / 10).push(digit_char((value % 10) as int))
    }
}

/// A number in decimal, with a leading zero where it has one digit only.
pub open spec fn two_digit_text(value: nat) -> Seq<char> {
    if value < 10 {
        seq!['0'].add(decimal_text(value))
    } else {
        decimal_text(value)
    }
}

/// A longer run of digits never stands for a smaller number than its start.
pub proof fn lemma_digits_value_grows(digits: Seq<char>, prefix: int)
    requires
        all_digits(digits),
        0 <= prefix <= digits.len(),
    ensures
        0 <= digits_value(digits.take(prefix)) <= digits_value(digits),
    decreases digits.len(),
{
    if digits.len() == 0 {
        assert(digits.take(prefix) =~= digits);
    } else if prefix == digits.len() {
        assert(digits.take(prefix) =~= digits);
        assert(is_digit(digits[digits.len() - 1]));
        lemma_digits_value_grows(digits.drop_last(), prefix - 1);
        assert(digits.drop_last().take(prefix - 1) =~= digits.drop_last());
    } else {
        assert(is_digit(digits[digits.len() - 1]));
        assert(digits.drop_last().take(prefix) =~= digits.take(prefix));
        lemma_digits_value_grows(digits.drop_last(), prefix);
    }
}

/// Reads a number written in decimal.
///
/// The text may start with one plus sign; after it there must be a digit, and
/// nothing but digits. A number above the range of the type is refused, as is
/// everything else.
pub fn parse_decimal(text: &str) -> (value: Option<u64>)
    ensures
        value is Some <==> decimal_value(text@, u64::MAX as int) is Some,
        value matches Some(v) ==> decimal_value(text@, u64::MAX as int) == Some(v as int),
{
    let n = text.unicode_len();
    let mut i: usize = 0;
    if n > 0 && text.get_char(0) == '+' {
        i = 1;
    }
    let start = i;
    let ghost digits = unsigned_digits(text@);
    assert(digits =~= text@.skip(start as int));
    if i == n {
        return None;
    }
    let mut total: u64 = 0;
    while i < n
        invariant
            start <= i <= n,
            n == text@.len(),
            digits == text@.skip(start as int),
            digits == unsigned_digits(text@),
            all_digits(digits.take(i - start)),
            total == digits_value(digits.take(i - start)),
        decreases n - i,
    {
        let c = text.get_char(i);
        let ghost upto = digits.take(i - start + 1);
        assert(upto.drop_last() =~= digits.take(i - start));
        assert(upto.last() == c);
        if !(c >= '0' && c <= '9') {
            assert(!is_digit(digits[i - start]));
            return None;
        }
        let d = (c as u32 - '0' as u32) as u64;
        assert(d == digit_value(c));
        assert(digits_value(upto) == total * 10 + d);
        if total > (u64::MAX - d) / 10 {
            proof {
                if all_digits(digits) {
                    lemma_digits_value_grows(digits, i - start + 1);
                }
            }
            return None;
        }
        total = total * 10 + d;
        assert forall|j: int| 0 <= j < upto.len() implies is_digit(#[trigger] upto[j]) by {
            if j < upto.len() - 1 {
                assert(is_digit(digits.take(i - start)[j]));
            }
        }
        i += 1;
    }
    assert(digits.take(i - start) =~= digits);
    Some(total)
}

/// Reads a number written in decimal that fits in 32 bits; see
/// [`parse_decimal`].
pub fn parse_decimal_u32(text: &str) -> (value: Option<u32>)
    ensures
        value is Some <==> decimal_value(text@, u32::MAX as int) is Some,
        value matches Some(v) ==> decimal_value(text@, u32::MAX as int) == Some(v as int),
{
    match parse_decimal(text) {
        Some(v) => if v <= u32::MAX as u64 {
            Some(v as u32)
        } else {
            None
        },
        None => None,
    }
}

/// Appends `value` in decimal, without leading zeros.
pub fn push_decimal(text: &mut String, value: u64)
    ensures
        final(text)@ == old(text)@ + decimal_text(value as nat),
    decreases value,
{
    if value >= 10 {
        push_decimal(text, value / 10);
    }
    let digit = (value % 10) as u8;
    text.push((digit + 48) as char);
    proof {
        let c = digit_char((value % 10) as int);
        assert((digit + 48) as char == c);
        if value < 10 {
            assert(old(text)@.push(c) =~= old(text)@ + decimal_text(value as nat));
        } else {
            assert((old(text)@ + decimal_text((value / 10) as nat)).push(c) =~= old(text)@
                + decimal_text(value as nat));
        }
    }
}

/// Appends `value` in decimal, in two digits at least.
pub fn push_two_digits(text: &mut String, value: u64)
    ensures
        final(text)@ == old(text)@ + two_digit_text(value as nat),
{
    if value < 10 {
        text.push('0');
    }
    push_decimal(text, value);
    proof {
        if value < 10 {
            assert(old(text)@.push('0') + decimal_text(value as nat) =~= old(text)@
                + two_digit_text(value as nat));
        }
    }
}

/// The text holds `mark` at `at` and nowhere else.
pub open spec fn splits_at(text: Seq<char>, mark: char, at: int) -> bool {
    &&& 0 <= at < text.len()
    &&& text[at] == mark
    &&& forall|j: int| 0 <= j < text.len() && j != at ==> text[j] != mark
}

/// The two parts of a text that holds `mark` exactly once: what stands before
/// the mark and what stands after it.
pub open spec fn parts_around(text: Seq<char>, mark: char) -> Option<(Seq<char>, Seq<char>)> {
    if exists|at: int| splits_at(text, mark, at) {
        let at = choose|at: int| splits_at(text, mark, at);
        Some((text.take(at), text.skip(at + 1)))
    } else {
        None
    }
}

/// A text has at most one place where it splits.
pub proof fn lemma_split_is_unique(text: Seq<char>, mark: char, at: int)
    requires
        splits_at(text, mark, at),
    ensures
        (choose|k: int| splits_at(text, mark, k)) == at,
        parts_around(text, mark) == Some((text.take(at), text.skip(at + 1))),
{
    let k = choose|k: int| splits_at(text, mark, k);
    if k != at {
        assert(text[k] != mark);
    }
}

/// Finds the place of `mark` in a text that holds it exactly once.
pub fn find_only(text: &str, mark: char) -> (found: Option<usize>)
    ensures
        found is Some <==> exists|at: int| splits_at(text@, mark, at),
        found matches Some(at) ==> splits_at(text@, mark, at as int),
{
    let n = text.unicode_len();
    let mut found: Option<usize> = None;
    let mut i: usize = 0;
    while i < n
        invariant
            i <= n,
            n == text@.len(),
            found is None ==> forall|j: int| 0 <= j < i ==> text@[j] != mark,
            found matches Some(at) ==> at < i && text@[at as int] == mark && forall|j: int|
                0 <= j < i && j != at ==> text@[j] != mark,
        decreases n - i,
    {
        if text.get_char(i) == mark {
            match found {
                Some(at) => {
                    assert forall|k: int| !splits_at(text@, mark, k) by {
                        if splits_at(text@, mark, k) {
                            if k != at {
                                assert(text@[at as int] != mark);
                            } else {
                                assert(text@[i as int] != mark);
                            }
                        }
                    }
                    return None;
                },
                None => {
                    found = Some(i);
                },
            }
        }
        i += 1;
    }
    proof {
        match found {
            Some(at) => {
                assert(splits_at(text@, mark, at as int));
            },
            None => {
                assert forall|k: int| !splits_at(text@, mark, k) by {}
            },
        }
    }
    found
}

/// The digits of a number are digits.
pub proof fn lemma_decimal_text_is_digits(value: nat)
    ensures
        decimal_text(value).len() > 0,
        all_digits(decimal_text(value)),
        digits_value(decimal_text(value)) == value,
    decreases value,
{
    let text = decimal_text(value);
    if value < 10 {
        assert(text =~= seq![digit_char(value as int)]);
        assert(text.drop_last() =~= Seq::<char>::empty());
        assert(digits_value(text.drop_last()) == 0);
    } else {
        lemma_decimal_text_is_digits(value / 10);
        let head = decimal_text(value / 10);
        assert(text.drop_last() =~= head);
        assert forall|i: int| 0 <= i < text.len() implies is_digit(#[trigger] text[i]) by {
            if i < head.len() {
                assert(is_digit(head[i]));
            }
        }
    }
}

/// A number that is written and read again is the same number.
pub proof fn lemma_decimal_round_trip(value: u64)
    ensures
        decimal_value(decimal_text(value as nat), u64::MAX as int) == Some(value as int),
{
    lemma_decimal_text_is_digits(value as nat);
    let text = decimal_text(value as nat);
    assert(is_digit(text[0]));
}

} // verus!
