//! Numbers written in decimal.

use vstd::prelude::*;
use vstd::string::StringExecFns;

use crate::primitives::U256;

verus! {

/// The character of a decimal digit.
pub open spec fn digit_char(digit: nat) -> char {
    (48 + digit) as char
}

/// A number written in decimal, without leading zeros.
pub open spec fn decimal(value: nat) -> Seq<char>
    decreases value,
{
    if value < 10 {
        seq![digit_char(value)]
    } else {
        decimal(value / 10).push(digit_char(value % 10))
    }
}

/// The number that a sequence of decimal digits stands for.
pub open spec fn decimal_value(text: Seq<char>) -> int
    decreases text.len(),
{
    if text.len() == 0 {
        0
    } else {
        decimal_value(text.drop_last()) * 10 + (text.last() as int - 48)
    }
}

/// Reading a number's decimal text gives the number back, so that different
/// numbers have different texts.
pub proof fn law_decimal_reads_back(value: nat)
    ensures
        decimal_value(decimal(value)) == value,
    decreases value,
{
    let text = decimal(value);
    if value < 10 {
        assert(text.drop_last() =~= seq![]);
        assert(decimal_value(text.drop_last()) == 0);
    } else {
        law_decimal_reads_back(value / 10);
        assert(text.drop_last() =~= decimal(value / 10));
    }
}

/// A number's decimal text is made of digits alone, is not empty, and starts
/// with a zero only if the number is zero.
pub proof fn law_decimal_is_canonical(value: nat)
    ensures
        decimal(value).len() > 0,
        forall|i: int| 0 <= i < decimal(value).len() ==> '0' <= #[trigger] decimal(value)[i] <= '9',
        decimal(value)[0] == '0' ==> value == 0,
    decreases value,
{
    if value >= 10 {
        law_decimal_is_canonical(value / 10);
    }
}

/// Where a number is followed by something that is not a digit, or by nothing,
/// the text tells which number it is, and what follows.
pub proof fn law_decimal_is_told_from_rest(a: nat, rest_a: Seq<char>, b: nat, rest_b: Seq<char>)
    requires
        decimal(a) + rest_a == decimal(b) + rest_b,
        rest_a.len() > 0 ==> !('0' <= rest_a[0] <= '9'),
        rest_b.len() > 0 ==> !('0' <= rest_b[0] <= '9'),
    ensures
        a == b,
        rest_a == rest_b,
{
    let text = decimal(a) + rest_a;
    let len_a = decimal(a).len() as int;
    let len_b = decimal(b).len() as int;
    law_decimal_is_canonical(a);
    law_decimal_is_canonical(b);
    if len_a < len_b {
        assert(text[len_a] == decimal(b)[len_a]);
        assert(text[len_a] == rest_a[0]);
    }
    if len_b < len_a {
        assert(text[len_b] == decimal(a)[len_b]);
        assert(text[len_b] == rest_b[0]);
    }
    assert(text.subrange(0, len_a) =~= decimal(a));
    assert(text.subrange(0, len_b) =~= decimal(b));
    assert(text.subrange(len_a, text.len() as int) =~= rest_a);
    assert(text.subrange(len_b, text.len() as int) =~= rest_b);
    law_decimal_reads_back(a);
    law_decimal_reads_back(b);
}

/// The text of one digit.
fn digit_text(digit: u64) -> (r: &'static str)
    requires
        digit < 10,
    ensures
        r@ == seq![digit_char(digit as nat)],
{
    proof {
        reveal_strlit("0");
        reveal_strlit("1");
        reveal_strlit("2");
        reveal_strlit("3");
        reveal_strlit("4");
        reveal_strlit("5");
        reveal_strlit("6");
        reveal_strlit("7");
        reveal_strlit("8");
        reveal_strlit("9");
    }
    match digit {
        0 => "0",
        1 => "1",
        2 => "2",
        3 => "3",
        4 => "4",
        5 => "5",
        6 => "6",
        7 => "7",
        8 => "8",
        _ => "9",
    }
}

/// Appends a number to a text, in decimal.
pub fn push_decimal(text: &mut String, value: U256)
    ensures
        final(text)@ == old(text)@ + decimal(value@),
    decreases value@,
{
    let (quotient, digit) = value.div_rem_ten();
    if !quotient.is_zero() {
        push_decimal(text, quotient);
    }
    text.append(digit_text(digit));
}

/// A number below ten is written as its digit, and a greater one as the number
/// without its last digit, followed by that digit.
pub proof fn law_decimal_is_written_digit_by_digit(value: nat, digit: nat)
    requires
        value > 0,
        digit < 10,
    ensures
        decimal(10 * value + digit) == decimal(value) + decimal(digit),
        decimal(0) == "0"@,
        decimal(1) == "1"@,
        decimal(2) == "2"@,
        decimal(3) == "3"@,
        decimal(4) == "4"@,
        decimal(5) == "5"@,
        decimal(6) == "6"@,
        decimal(7) == "7"@,
        decimal(8) == "8"@,
        decimal(9) == "9"@,
{
    reveal_strlit("0");
    reveal_strlit("1");
    reveal_strlit("2");
    reveal_strlit("3");
    reveal_strlit("4");
    reveal_strlit("5");
    reveal_strlit("6");
    reveal_strlit("7");
    reveal_strlit("8");
    reveal_strlit("9");
    assert((10 * value + digit) / 10 == value);
    assert((10 * value + digit) % 10 == digit);
    assert(decimal(10 * value + digit) =~= decimal(value) + decimal(digit));
}

} // verus!
