//! Decimal numbers as the user types them, read with six decimals.
//!
//! A number is an optional sign, digits, and optionally a point followed by
//! more digits; at least one digit is needed. It is read in millionths:
//! what follows the sixth decimal is dropped.
use vstd::prelude::*;

verus! {

pub open spec fn is_digit(c: char) -> bool {
    0x30 <= c as u32 <= 0x39
}

pub open spec fn digit_value(c: char) -> int {
    c as u32 - 0x30
}

pub open spec fn all_digits(text: Seq<char>) -> bool {
    forall|i: int| 0 <= i < text.len() ==> is_digit(#[trigger] text[i])
}

/// The number that a run of digits writes.
pub open spec fn digits_value(digits: Seq<char>) -> int
    decreases digits.len(),
{
    if digits.len() == 0 {
        0
    } else {
        10 * digits_value(digits.drop_last()) + digit_value(digits.last())
    }
}

/// Where the first point stands, or the length of the text if it has none.
pub open spec fn point_position(text: Seq<char>) -> int
    decreases text.len(),
{
    if text.len() == 0 || text[0] == '.' {
        0
    } else {
        1 + point_position(text.drop_first())
    }
}

/// The digits before the first point.
pub open spec fn whole_part(text: Seq<char>) -> Seq<char> {
    text.take(point_position(text))
}

/// The digits after the first point.
pub open spec fn fraction_part(text: Seq<char>) -> Seq<char> {
    if point_position(text) < text.len() {
        text.skip(point_position(text) + 1)
    } else {
        Seq::empty()
    }
}

/// The first six decimals, with zeros where there are fewer.
pub open spec fn six_places(fraction: Seq<char>) -> Seq<char> {
    (fraction + seq!['0', '0', '0', '0', '0', '0']).take(6)
}

/// Whether an unsigned text is a number.
pub open spec fn is_number(text: Seq<char>) -> bool {
    &&& all_digits(whole_part(text))
    &&& all_digits(fraction_part(text))
    &&& whole_part(text).len() + fraction_part(text).len() > 0
}

/// What an unsigned number is worth, in millionths.
pub open spec fn magnitude(text: Seq<char>) -> int {
    digits_value(whole_part(text)) * 1_000_000 + digits_value(six_places(fraction_part(text)))
}

pub open spec fn has_sign(text: Seq<char>) -> bool {
    text.len() > 0 && (text[0] == '-' || text[0] == '+')
}

/// The text without its sign.
pub open spec fn unsigned_part(text: Seq<char>) -> Seq<char> {
    if has_sign(text) {
        text.skip(1)
    } else {
        text
    }
}

/// What a number is worth, in millionths.
pub open spec fn signed_value(text: Seq<char>) -> int {
    if text.len() > 0 && text[0] == '-' {
        -magnitude(unsigned_part(text))
    } else {
        magnitude(unsigned_part(text))
    }
}

/// What a text reads as: its worth in millionths, if it is a number and the
/// worth fits.
pub open spec fn decimal(text: Seq<char>) -> Option<i64> {
    if is_number(unsigned_part(text)) && i64::MIN <= signed_value(text) <= i64::MAX {
        Some(signed_value(text) as i64)
    } else {
        None
    }
}

/// The largest whole part whose millionths may still fit.
const LARGEST_WHOLE: u64 = 9_223_372_036_854;

/// How many characters the sign takes.
spec fn sign_length(text: Seq<char>) -> int {
    if has_sign(text) {
        1
    } else {
        0
    }
}

/// The point position is the first point's, and the text's length if there
/// is no point.
pub proof fn point_position_is_first(text: Seq<char>)
    ensures
        0 <= point_position(text) <= text.len(),
        forall|j: int| 0 <= j < point_position(text) ==> text[j] != '.',
        point_position(text) < text.len() ==> text[point_position(text)] == '.',
    decreases text.len(),
{
    if text.len() > 0 && text[0] != '.' {
        let rest = text.drop_first();
        point_position_is_first(rest);
        assert forall|j: int| 0 <= j < point_position(text) implies text[j] != '.' by {
            if j > 0 {
                assert(text[j] == rest[j - 1]);
            }
        }
    }
}

/// A run of `count` zeros.
pub open spec fn zeros(count: int) -> Seq<char> {
    Seq::new(count as nat, |i: int| '0')
}

/// Ten to the power of `places`, for the places a fraction can have.
pub open spec fn pow10(places: int) -> int {
    if places <= 0 {
        1
    } else if places == 1 {
        10
    } else if places == 2 {
        100
    } else if places == 3 {
        1_000
    } else if places == 4 {
        10_000
    } else if places == 5 {
        100_000
    } else {
        1_000_000
    }
}

/// A run of at most six digits is worth less than ten to their number.
proof fn digits_below(digits: Seq<char>)
    requires
        all_digits(digits),
        digits.len() <= 6,
    ensures
        0 <= digits_value(digits) < pow10(digits.len() as int),
    decreases digits.len(),
{
    if digits.len() > 0 {
        assert(all_digits(digits.drop_last())) by {
            assert forall|i: int| 0 <= i < digits.drop_last().len() implies is_digit(
                #[trigger] digits.drop_last()[i],
            ) by {
                assert(digits.drop_last()[i] == digits[i]);
            }
        }
        digits_below(digits.drop_last());
    }
}

/// One more digit: ten times what was written, and the digit.
proof fn digits_value_grows(text: Seq<char>, from: int, to: int)
    requires
        0 <= from <= to < text.len(),
    ensures
        digits_value(text.subrange(from, to + 1)) == 10 * digits_value(text.subrange(from, to))
            + digit_value(text[to]),
{
    assert(text.subrange(from, to + 1).drop_last() =~= text.subrange(from, to));
}

/// A text with a character that is neither a digit in its place nor the
/// first point is no number. The character stands at `at`; before it come
/// the sign, if any, then digits, and if `point` is given a point at that
/// place and more digits.
proof fn stray_character(text: Seq<char>, at: int, point: Option<int>)
    requires
        sign_length(text) <= at < text.len(),
        !is_digit(text[at]),
        match point {
            Some(p) => {
                &&& sign_length(text) <= p < at
                &&& text[p] == '.'
                &&& forall|j: int| sign_length(text) <= j < at && j != p ==> is_digit(#[trigger] text[j])
            },
            None => {
                &&& text[at] != '.'
                &&& forall|j: int| sign_length(text) <= j < at ==> is_digit(#[trigger] text[j])
            },
        },
    ensures
        !is_number(unsigned_part(text)),
{
    let from = sign_length(text);
    let body = unsigned_part(text);
    point_position_is_first(body);
    let first = point_position(body);
    match point {
        Some(p) => {
            assert(body[p - from] == '.');
            assert(first == p - from) by {
                if first < p - from {
                    assert(is_digit(text[first + from]));
                }
            }
            assert(fraction_part(body)[at - p - 1] == text[at]);
        },
        None => {
            assert(first > at - from) by {
                if first < at - from {
                    assert(is_digit(text[first + from]));
                }
            }
            assert(whole_part(body)[at - from] == text[at]);
        },
    }
}

/// The parts of a text that holds, after the sign, only digits and at most
/// one point, at `point` if given.
proof fn parts_of_scanned(text: Seq<char>, point: Option<int>)
    requires
        match point {
            Some(p) => {
                &&& sign_length(text) <= p < text.len()
                &&& text[p] == '.'
                &&& forall|j: int|
                    sign_length(text) <= j < text.len() && j != p ==> is_digit(#[trigger] text[j])
            },
            None => forall|j: int| sign_length(text) <= j < text.len() ==> is_digit(#[trigger] text[j]),
        },
    ensures
        all_digits(whole_part(unsigned_part(text))),
        all_digits(fraction_part(unsigned_part(text))),
        match point {
            Some(p) => {
                &&& whole_part(unsigned_part(text)) == text.subrange(sign_length(text), p)
                &&& fraction_part(unsigned_part(text)) == text.subrange(p + 1, text.len() as int)
            },
            None => {
                &&& whole_part(unsigned_part(text)) == text.subrange(
                    sign_length(text),
                    text.len() as int,
                )
                &&& fraction_part(unsigned_part(text)) == Seq::<char>::empty()
            },
        },
{
    let from = sign_length(text);
    let body = unsigned_part(text);
    point_position_is_first(body);
    let first = point_position(body);
    match point {
        Some(p) => {
            assert(body[p - from] == '.');
            assert(first == p - from) by {
                if first < p - from {
                    assert(is_digit(text[first + from]));
                }
            }
        },
        None => {
            assert(first == body.len()) by {
                if first < body.len() {
                    assert(is_digit(text[first + from]));
                }
            }
        },
    }
}

fn digit_of(c: char) -> (digit: Option<u64>)
    ensures
        digit is Some <==> is_digit(c),
        digit matches Some(d) ==> d == digit_value(c) && d <= 9,
{
    let code: u32 = c as u32;
    if 0x30 <= code && code <= 0x39 {
        Some((code - 0x30) as u64)
    } else {
        None
    }
}

/// Fills a fraction of fewer than six decimals up with zeros.
fn six_decimals(fraction: u64, places: u8, Ghost(shown): Ghost<Seq<char>>) -> (millionths: u64)
    requires
        all_digits(shown),
        places <= 6,
        places == (if shown.len() < 6 { shown.len() as int } else { 6 }),
        fraction == digits_value(shown.take(places as int)),
    ensures
        millionths == digits_value(six_places(shown)),
        millionths < 1_000_000,
{
    let ghost given = places as int;
    let mut millionths: u64 = fraction;
    let mut filled: u8 = places;
    proof {
        digits_below(shown.take(given));
        if given == 6 {
            assert(six_places(shown) =~= shown.take(6));
        } else {
            assert(shown.take(given) =~= shown);
        }
    }
    while filled < 6
        invariant
            given <= filled <= 6,
            given < 6 ==> given == shown.len(),
            given == 6 ==> millionths == digits_value(six_places(shown)),
            given < 6 ==> millionths == digits_value(shown + zeros(filled - given)),
            millionths < pow10(filled as int),
        decreases 6 - filled,
    {
        proof {
            let before = shown + zeros(filled - given);
            let after = shown + zeros(filled + 1 - given);
            assert(after.drop_last() =~= before);
        }
        millionths = millionths * 10;
        filled = filled + 1;
    }
    proof {
        if given < 6 {
            assert(shown + zeros(6 - given) =~= six_places(shown));
        }
    }
    millionths
}

/// Reads a decimal number in millionths. A text that is no number, or whose
/// worth does not fit, reads as nothing.
pub fn parse_decimal(text: &str) -> (value: Option<i64>)
    ensures
        value == decimal(text@),
{
    let ghost t = text@;
    let mut first: bool = true;
    let mut negative: bool = false;
    let mut in_fraction: bool = false;
    let mut any_digit: bool = false;
    let mut too_large: bool = false;
    let mut whole: u64 = 0;
    let mut fraction: u64 = 0;
    let mut places: u8 = 0;
    let ghost mut start: int = 0;
    let ghost mut point: int = 0;
    for c in it: text.chars()
        invariant
            it.seq() == t,
            t == text@,
            first == (it.index() == 0),
            start == (if it.index() > 0 { sign_length(t) } else { 0 }),
            negative == (it.index() > 0 && t[0] == '-'),
            start <= it.index(),
            any_digit == (it.index() - start - (if in_fraction { 1int } else { 0int }) > 0),
            forall|j: int|
                start <= j < it.index() && !(in_fraction && j == point) ==> is_digit(
                    #[trigger] t[j],
                ),
            !in_fraction ==> point == it.index() && fraction == 0 && places == 0,
            in_fraction ==> start <= point < it.index() && t[point] == '.',
            in_fraction ==> places == (if it.index() - point - 1 < 6 {
                it.index() - point - 1
            } else {
                6
            }),
            in_fraction ==> fraction == digits_value(t.subrange(point + 1, point + 1 + places)),
            fraction < pow10(places as int),
            !too_large ==> whole == digits_value(t.subrange(start, point)) && whole
                <= LARGEST_WHOLE,
            too_large ==> digits_value(t.subrange(start, point)) > LARGEST_WHOLE,
    {
        let ghost i = it.index() as int;
        let was_first: bool = first;
        first = false;
        let digit: Option<u64> = digit_of(c);
        if was_first && (c == '-' || c == '+') {
            negative = c == '-';
            proof {
                start = 1;
                point = 1;
            }
        } else if let Some(d) = digit {
            any_digit = true;
            if in_fraction {
                if places < 6 {
                    proof {
                        digits_value_grows(t, point + 1, i);
                    }
                    fraction = fraction * 10 + d;
                    places = places + 1;
                }
            } else {
                proof {
                    digits_value_grows(t, start, i);
                    point = i + 1;
                }
                if !too_large {
                    whole = whole * 10 + d;
                    if whole > LARGEST_WHOLE {
                        too_large = true;
                    }
                }
            }
        } else if c == '.' && !in_fraction {
            in_fraction = true;
        } else {
            proof {
                stray_character(t, i, if in_fraction { Some(point) } else { None });
            }
            return None;
        }
    }
    let ghost body = unsigned_part(t);
    proof {
        parts_of_scanned(t, if in_fraction { Some(point) } else { None });
    }
    if !any_digit {
        return None;
    }
    proof {
        if in_fraction {
            assert(fraction_part(body).take(places as int) =~= t.subrange(
                point + 1,
                point + 1 + places,
            ));
        }
    }
    let millionths: u64 = six_decimals(fraction, places, Ghost(fraction_part(body)));
    if too_large {
        return None;
    }
    let size: u64 = whole * 1_000_000 + millionths;
    if negative {
        if size > 9_223_372_036_854_775_808 {
            None
        } else {
            Some((-(size as i128)) as i64)
        }
    } else {
        if size > 9_223_372_036_854_775_807 {
            None
        } else {
            Some(size as i64)
        }
    }
}

/// What a text reads as where a mass fraction is expected: its worth in
/// millionths, and zero if it is no number, is negative or does not fit.
pub open spec fn lenient_fraction(text: Seq<char>) -> u32 {
    match decimal(text) {
        Some(value) => if 0 <= value <= u32::MAX {
            value as u32
        } else {
            0
        },
        None => 0,
    }
}

/// Reads a mass fraction leniently: whatever cannot be read counts as zero.
pub fn parse_fraction(text: &str) -> (fraction: u32)
    ensures
        fraction == lenient_fraction(text@),
{
    match parse_decimal(text) {
        Some(value) => {
            if 0 <= value && value <= 0xffff_ffff {
                value as u32
            } else {
                0
            }
        },
        None => 0,
    }
}

} // verus!
