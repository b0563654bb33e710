//! Numbers as they are shown.
use vstd::prelude::*;
use crate::decimal::{
    all_digits, decimal, digit_value, digits_value, fraction_part, is_digit, is_number, magnitude,
    point_position, point_position_is_first, pow10, six_places, unsigned_part, whole_part, zeros,
};

verus! {

/// The character of a digit.
pub open spec fn digit_char(digit: int) -> char {
    if digit == 0 {
        '0'
    } else if digit == 1 {
        '1'
    } else if digit == 2 {
        '2'
    } else if digit == 3 {
        '3'
    } else if digit == 4 {
        '4'
    } else if digit == 5 {
        '5'
    } else if digit == 6 {
        '6'
    } else if digit == 7 {
        '7'
    } else if digit == 8 {
        '8'
    } else {
        '9'
    }
}

/// A number in decimal digits, without leading zeros.
pub open spec fn digits_of(number: nat) -> Seq<char>
    decreases number,
{
    if number < 10 {
        seq![digit_char(number as int)]
    } else {
        digits_of(number / 10).push(digit_char((number % 10) as int))
    }
}

/// The last `places` digits of a number, with zeros in front where it has
/// fewer.
pub open spec fn last_digits(number: nat, places: nat) -> Seq<char>
    decreases places,
{
    if places == 0 {
        Seq::empty()
    } else {
        last_digits(number / 10, (places - 1) as nat).push(digit_char((number % 10) as int))
    }
}

/// A run of digits without the zeros at its end.
pub open spec fn without_trailing_zeros(digits: Seq<char>) -> Seq<char>
    decreases digits.len(),
{
    if digits.len() > 0 && digits.last() == '0' {
        without_trailing_zeros(digits.drop_last())
    } else {
        digits
    }
}

/// `value` in units of `unit`, rounded to the nearest; a value halfway
/// between two goes to the even one.
pub open spec fn rounded(value: nat, unit: nat) -> nat {
    let below = value / unit;
    let rest = value % unit;
    if 2 * rest > unit || (2 * rest == unit && below % 2 == 1) {
        below + 1
    } else {
        below
    }
}

/// A level, which has twelve decimals, rounded to thousandths.
pub open spec fn thousandths(level: nat) -> nat {
    rounded(level, 1_000_000_000)
}

/// How a level is shown: with three decimals.
pub open spec fn value_text(level: nat) -> Seq<char> {
    digits_of(thousandths(level) / 1_000) + seq!['.'] + last_digits(thousandths(level), 3)
}

/// A dosage, which has six decimals, rounded to hundredths.
pub open spec fn hundredths(dose: nat) -> nat {
    rounded(dose, 10_000)
}

/// How a dosage is shown: with two decimals.
pub open spec fn amount_text(dose: nat) -> Seq<char> {
    digits_of(hundredths(dose) / 100) + seq!['.'] + last_digits(hundredths(dose), 2)
}

/// A percentage, given in millionths of a percent, rounded to a whole
/// number.
pub open spec fn whole_percentage(percentage: nat) -> nat {
    rounded(percentage, 1_000_000)
}

/// How an ammonium share is shown: the percentage, rounded to a whole
/// number, and what it is a percentage of.
pub open spec fn share_text(nh4_percentage: nat) -> Seq<char> {
    digits_of(whole_percentage(nh4_percentage)) + "% NH₄⁺"@
}

/// The size of a number.
pub open spec fn size_of(value: int) -> nat {
    if value < 0 {
        (-value) as nat
    } else {
        value as nat
    }
}

/// How a number with six decimals that is not negative is written out: its
/// whole part, and, unless they are all zero, a point and its decimals up to
/// the last that is not zero.
pub open spec fn unsigned_text(size: nat) -> Seq<char> {
    if size % 1_000_000 == 0 {
        digits_of(size / 1_000_000)
    } else {
        digits_of(size / 1_000_000) + seq!['.'] + without_trailing_zeros(
            last_digits(size % 1_000_000, 6),
        )
    }
}

/// How a number with six decimals is written out: as its size is, after a
/// minus sign if it is negative.
pub open spec fn decimal_text(value: int) -> Seq<char> {
    if value < 0 {
        seq!['-'] + unsigned_text(size_of(value))
    } else {
        unsigned_text(size_of(value))
    }
}

fn digit_text(digit: u64) -> (text: &'static str)
    requires
        digit < 10,
    ensures
        text@ == seq![digit_char(digit as int)],
{
    proof {
        reveal_strlit("0");
        reveal_strlit("1");
        reveal_strlit("2");
        reveal_strlit("3");
        reveal_strlit("4");
        reveal_strlit("5");
        reveal_strlit("6");
        reveal_strlit("7");
        reveal_strlit("8");
        reveal_strlit("9");
    }
    let text: &'static str = match digit {
        0 => "0",
        1 => "1",
        2 => "2",
        3 => "3",
        4 => "4",
        5 => "5",
        6 => "6",
        7 => "7",
        8 => "8",
        _ => "9",
    };
    text
}

fn append_digits(text: &mut String, number: u128)
    ensures
        final(text)@ == old(text)@ + digits_of(number as nat),
    decreases number,
{
    if number >= 10 {
        append_digits(text, number / 10);
    }
    text.append(digit_text((number % 10) as u64));
}

fn append_last_digits(text: &mut String, number: u128, places: u8)
    ensures
        final(text)@ == old(text)@ + last_digits(number as nat, places as nat),
    decreases places,
{
    if places > 0 {
        append_last_digits(text, number / 10, places - 1);
        text.append(digit_text((number % 10) as u64));
    }
}

fn round(value: u128, unit: u128) -> (r: u128)
    requires
        2 <= unit <= 1_000_000_000,
    ensures
        r == rounded(value as nat, unit as nat),
{
    let below: u128 = value / unit;
    let rest: u128 = value % unit;
    assert(below < u128::MAX) by (nonlinear_arith)
        requires
            below == value / unit,
            2 <= unit,
            value <= u128::MAX,
    ;
    if 2 * rest > unit || (2 * rest == unit && below % 2 == 1) {
        below + 1
    } else {
        below
    }
}

/// Shows a level with three decimals.
pub fn format_value(level: u128) -> (text: String)
    ensures
        text@ == value_text(level as nat),
{
    let shown: u128 = round(level, 1_000_000_000);
    let mut text: String = String::new();
    append_digits(&mut text, shown / 1_000);
    text.append(".");
    append_last_digits(&mut text, shown, 3);
    proof {
        reveal_strlit(".");
    }
    text
}

/// Shows a dosage with two decimals.
pub fn format_amount(dose: u32) -> (text: String)
    ensures
        text@ == amount_text(dose as nat),
{
    let shown: u128 = round(dose as u128, 10_000);
    let mut text: String = String::new();
    append_digits(&mut text, shown / 100);
    text.append(".");
    append_last_digits(&mut text, shown, 2);
    proof {
        reveal_strlit(".");
    }
    text
}

/// Rounds a percentage, given in millionths of a percent, to a whole number.
pub fn round_percentage(percentage: u32) -> (whole: u32)
    ensures
        whole == whole_percentage(percentage as nat),
{
    let whole: u128 = round(percentage as u128, 1_000_000);
    whole as u32
}

/// Shows an ammonium share, given as a percentage in millionths of a
/// percent, as a whole percentage.
pub fn format_share(nh4_percentage: u32) -> (text: String)
    ensures
        text@ == share_text(nh4_percentage as nat),
{
    let mut text: String = String::new();
    append_digits(&mut text, round_percentage(nh4_percentage) as u128);
    text.append("% NH₄⁺");
    text
}

/// Writes a number with six decimals out, as short as it can be written.
pub fn format_decimal(value: i64) -> (text: String)
    ensures
        text@ == decimal_text(value as int),
{
    let size: u64 = if value < 0 {
        (-(value as i128)) as u64
    } else {
        value as u64
    };
    let mut text: String = String::new();
    if value < 0 {
        text.append("-");
    }
    append_digits(&mut text, (size / 1_000_000) as u128);
    let first: u64 = size % 1_000_000;
    proof {
        reveal_strlit("-");
        reveal_strlit(".");
    }
    if first != 0 {
        text.append(".");
        let mut fraction: u64 = first;
        let mut places: u8 = 6;
        while fraction % 10 == 0
            invariant
                0 < fraction < pow10(places as int),
                places <= 6,
                without_trailing_zeros(last_digits(fraction as nat, places as nat))
                    == without_trailing_zeros(last_digits(first as nat, 6)),
            decreases places,
        {
            proof {
                let digits = last_digits(fraction as nat, places as nat);
                let shorter = last_digits((fraction / 10) as nat, (places - 1) as nat);
                assert(digits == shorter.push('0'));
                assert(digits.drop_last() =~= shorter);
            }
            fraction = fraction / 10;
            places = places - 1;
        }
        append_last_digits(&mut text, fraction as u128, places);
        assert(places > 0);
    }
    text
}

/// A level that rounds to nothing is shown as zero: below half a thousandth
/// the text is "0.000".
pub proof fn small_levels_show_zero(level: nat)
    requires
        level < 500_000_000,
    ensures
        value_text(level) == seq!['0', '.', '0', '0', '0'],
{
    assert(thousandths(level) == 0);
    reveal_with_fuel(last_digits, 4);
}

/// The character of a digit is a digit, and is worth the digit.
proof fn digit_char_is_digit(digit: int)
    requires
        0 <= digit <= 9,
    ensures
        is_digit(digit_char(digit)),
        digit_value(digit_char(digit)) == digit,
{
}

/// The digits of a number are digits, and write the number.
proof fn digits_of_writes(number: nat)
    ensures
        digits_of(number).len() > 0,
        all_digits(digits_of(number)),
        digits_value(digits_of(number)) == number,
    decreases number,
{
    let digits = digits_of(number);
    digit_char_is_digit((number % 10) as int);
    if number >= 10 {
        digits_of_writes(number / 10);
        assert(digits.drop_last() =~= digits_of(number / 10));
        assert(digits.last() == digit_char((number % 10) as int));
    } else {
        assert(digits.drop_last() =~= Seq::<char>::empty());
        assert(digits.last() == digit_char(number as int));
        assert(digits_value(digits.drop_last()) == 0);
    }
}

/// The last digits of a number are digits, and write the number if it has no
/// more digits than that.
proof fn last_digits_write(number: nat, places: nat)
    requires
        places <= 6,
    ensures
        last_digits(number, places).len() == places,
        all_digits(last_digits(number, places)),
        number < pow10(places as int) ==> digits_value(last_digits(number, places)) == number,
    decreases places,
{
    if places > 0 {
        let digits = last_digits(number, places);
        digit_char_is_digit((number % 10) as int);
        last_digits_write(number / 10, (places - 1) as nat);
        assert(digits.drop_last() =~= last_digits(number / 10, (places - 1) as nat));
        assert(digits.last() == digit_char((number % 10) as int));
    }
}

/// What is left of a run of digits without the zeros at its end: a run of
/// digits that with the zeros gives the run again, and that is not empty
/// unless the run is worth nothing.
proof fn trailing_zeros_fill_up(digits: Seq<char>)
    requires
        all_digits(digits),
    ensures
        without_trailing_zeros(digits).len() <= digits.len(),
        all_digits(without_trailing_zeros(digits)),
        without_trailing_zeros(digits) + zeros(
            digits.len() - without_trailing_zeros(digits).len(),
        ) == digits,
        without_trailing_zeros(digits).len() == 0 ==> digits_value(digits) == 0,
    decreases digits.len(),
{
    let rest = without_trailing_zeros(digits);
    if digits.len() > 0 && digits.last() == '0' {
        let front = digits.drop_last();
        assert forall|i: int| 0 <= i < front.len() implies is_digit(#[trigger] front[i]) by {
            assert(front[i] == digits[i]);
        }
        trailing_zeros_fill_up(front);
        assert(rest + zeros(digits.len() - rest.len()) =~= (rest + zeros(
            front.len() - rest.len(),
        )).push('0'));
        assert(front.push('0') =~= digits);
    } else {
        assert(rest + zeros(0) =~= digits);
    }
}

/// The parts of a text that is digits, a point and more digits.
proof fn parts_of_written(whole: Seq<char>, fraction: Seq<char>)
    requires
        all_digits(whole),
        all_digits(fraction),
    ensures
        whole_part(whole) == whole,
        fraction_part(whole) == Seq::<char>::empty(),
        whole_part(whole + seq!['.'] + fraction) == whole,
        fraction_part(whole + seq!['.'] + fraction) == fraction,
{
    point_position_is_first(whole);
    assert(point_position(whole) == whole.len()) by {
        if point_position(whole) < whole.len() {
            assert(is_digit(whole[point_position(whole)]));
        }
    }
    assert(whole_part(whole) =~= whole);
    let body = whole + seq!['.'] + fraction;
    point_position_is_first(body);
    let at = point_position(body);
    assert(body[whole.len() as int] == '.');
    assert(at == whole.len()) by {
        if at < whole.len() {
            assert(body[at] == whole[at]);
            assert(is_digit(whole[at]));
        }
    }
    assert(whole_part(body) =~= whole);
    assert(fraction_part(body) =~= fraction);
}

/// What is written without a sign is a number, and is worth what was
/// written.
proof fn unsigned_text_reads_back(size: nat)
    ensures
        is_number(unsigned_text(size)),
        magnitude(unsigned_text(size)) == size,
        is_digit(unsigned_text(size)[0]),
{
    let whole = digits_of(size / 1_000_000);
    let last = size % 1_000_000;
    let six = last_digits(last, 6);
    let shown = without_trailing_zeros(six);
    digits_of_writes(size / 1_000_000);
    last_digits_write(last, 6);
    trailing_zeros_fill_up(six);
    parts_of_written(whole, shown);
    assert(is_digit(whole[0]));
    if last == 0 {
        last_digits_write(0, 6);
        assert(six_places(Seq::<char>::empty()) =~= zeros(6));
        trailing_zeros_fill_up(last_digits(0, 6));
        assert(last_digits(0, 6) =~= zeros(6)) by {
            reveal_with_fuel(last_digits, 7);
        }
    } else {
        assert(six_places(shown) =~= shown + zeros(6 - shown.len()));
        assert(unsigned_text(size)[0] == whole[0]);
    }
}

/// What is written reads back: the text that a number with six decimals is
/// written out as reads as that number.
pub proof fn written_number_reads_back(value: int)
    requires
        i64::MIN <= value <= i64::MAX,
    ensures
        decimal(decimal_text(value)) == Some(value as i64),
{
    let text = decimal_text(value);
    let body = unsigned_text(size_of(value));
    unsigned_text_reads_back(size_of(value));
    if value < 0 {
        assert(text[0] == '-');
        assert(unsigned_part(text) =~= body);
    }
}

} // verus!
