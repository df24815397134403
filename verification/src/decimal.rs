//! Base-10 text of integers, as it appears in a datagram.
use vstd::prelude::*;
use vstd::string::*;

verus! {

/// The character of one decimal digit.
pub open spec fn digit_char(d: nat) -> char
    recommends
        d < 10,
{
    if d == 0 {
        '0'
    } else if d == 1 {
        '1'
    } else if d == 2 {
        '2'
    } else if d == 3 {
        '3'
    } else if d == 4 {
        '4'
    } else if d == 5 {
        '5'
    } else if d == 6 {
        '6'
    } else if d == 7 {
        '7'
    } else if d == 8 {
        '8'
    } else {
        '9'
    }
}

/// The decimal text of a natural number: most significant digit first, no
/// leading zero, a single `0` for zero.
pub open spec fn decimal_text(n: nat) -> Seq<char>
    decreases n,
{
    if n < 10 {
        seq![digit_char(n)]
    } else {
        decimal_text(n / 10).push(digit_char(n % 10))
    }
}

/// The decimal text of an integer: a `-` before the digits of a negative one.
pub open spec fn signed_decimal_text(i: int) -> Seq<char> {
    if i < 0 {
        seq!['-'] + decimal_text((-i) as nat)
    } else {
        decimal_text(i as nat)
    }
}

/// The digit that a character stands for; 0 for a character that is none.
pub open spec fn digit_value(c: char) -> nat {
    if c == '1' {
        1
    } else if c == '2' {
        2
    } else if c == '3' {
        3
    } else if c == '4' {
        4
    } else if c == '5' {
        5
    } else if c == '6' {
        6
    } else if c == '7' {
        7
    } else if c == '8' {
        8
    } else if c == '9' {
        9
    } else {
        0
    }
}

/// Whether a character is a decimal digit.
pub open spec fn is_digit(c: char) -> bool {
    c == '0' || digit_value(c) != 0
}

/// The number that a text of digits is read as.
pub open spec fn decimal_value(text: Seq<char>) -> nat
    decreases text.len(),
{
    if text.len() == 0 {
        0
    } else {
        decimal_value(text.drop_last()) * 10 + digit_value(text.last())
    }
}

/// The integer that a text of digits with an optional `-` before them is
/// read as.
pub open spec fn signed_decimal_value(text: Seq<char>) -> int {
    if text.len() > 0 && text[0] == '-' {
        -(decimal_value(text.drop_first()) as int)
    } else {
        decimal_value(text) as int
    }
}

/// The decimal text of a number is canonical: it holds digits only, at least
/// one, and begins with `0` only where the number is zero.
pub proof fn lemma_decimal_text_canonical(n: nat)
    ensures
        decimal_text(n).len() >= 1,
        forall|i: int| 0 <= i < decimal_text(n).len() ==> is_digit(#[trigger] decimal_text(n)[i]),
        decimal_text(n)[0] == '0' <==> n == 0,
    decreases n,
{
    if n >= 10 {
        lemma_decimal_text_canonical(n / 10);
    }
}

/// The decimal text of a number reads back as that number, so two numbers
/// with one text are the same.
pub proof fn lemma_decimal_text_value(n: nat)
    ensures
        decimal_value(decimal_text(n)) == n,
    decreases n,
{
    if n < 10 {
        assert(decimal_text(n).drop_last() =~= Seq::<char>::empty());
        assert(decimal_value(Seq::<char>::empty()) == 0);
    } else {
        lemma_decimal_text_value(n / 10);
        assert(decimal_text(n).drop_last() =~= decimal_text(n / 10));
    }
}

/// The decimal text of an integer begins with `-` exactly where the integer
/// is negative, and reads back as that integer.
pub proof fn lemma_signed_decimal_text_value(i: int)
    ensures
        signed_decimal_text(i)[0] == '-' <==> i < 0,
        signed_decimal_value(signed_decimal_text(i)) == i,
{
    if i < 0 {
        let digits = decimal_text((-i) as nat);
        lemma_decimal_text_value((-i) as nat);
        assert(signed_decimal_text(i).drop_first() =~= digits);
    } else {
        lemma_decimal_text_canonical(i as nat);
        lemma_decimal_text_value(i as nat);
    }
}

/// The text of one digit, as a string slice.
fn digit_str(d: u8) -> (s: &'static str)
    requires
        d < 10,
    ensures
        s@ == seq![digit_char(d as nat)],
{
    proof {
        reveal_strlit("0");
        reveal_strlit("1");
        reveal_strlit("2");
        reveal_strlit("3");
        reveal_strlit("4");
        reveal_strlit("5");
        reveal_strlit("6");
        reveal_strlit("7");
        reveal_strlit("8");
        reveal_strlit("9");
    }
    let s = if d == 0 {
        "0"
    } else if d == 1 {
        "1"
    } else if d == 2 {
        "2"
    } else if d == 3 {
        "3"
    } else if d == 4 {
        "4"
    } else if d == 5 {
        "5"
    } else if d == 6 {
        "6"
    } else if d == 7 {
        "7"
    } else if d == 8 {
        "8"
    } else {
        "9"
    };
    s
}

/// Appends the decimal text of `n` to `buf`.
pub fn push_decimal(buf: &mut String, n: u128)
    ensures
        final(buf)@ == old(buf)@ + decimal_text(n as nat),
    decreases n,
{
    if n >= 10 {
        push_decimal(buf, n / 10);
    }
    let d: u8 = (n % 10) as u8;
    buf.append(digit_str(d));
}

/// Appends the decimal text of `i` to `buf`, with a `-` first where `i` is
/// negative.
pub fn push_signed_decimal(buf: &mut String, i: i128)
    ensures
        final(buf)@ == old(buf)@ + signed_decimal_text(i as int),
{
    if i < 0 {
        proof {
            reveal_strlit("-");
        }
        buf.append("-");
        let magnitude: u128 = (-(i + 1)) as u128 + 1;
        push_decimal(buf, magnitude);
    } else {
        push_decimal(buf, i as u128);
    }
}

} // verus!
