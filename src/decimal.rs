//! Decimal and hexadecimal text of integers.
use vstd::prelude::*;

verus! {

/// The character of a decimal digit.
pub open spec fn digit_char(d: nat) -> char {
    if d == 0 { '0' }
    else if d == 1 { '1' }
    else if d == 2 { '2' }
    else if d == 3 { '3' }
    else if d == 4 { '4' }
    else if d == 5 { '5' }
    else if d == 6 { '6' }
    else if d == 7 { '7' }
    else if d == 8 { '8' }
    else { '9' }
}

/// Decimal text of a natural number, without leading zeros.
pub open spec fn decimal_spec(n: nat) -> Seq<char>
    decreases n,
{
    if n < 10 {
        seq![digit_char(n)]
    } else {
        decimal_spec(n / 10) + seq![digit_char(n % 10)]
    }
}

/// Decimal text of an integer, with a leading '-' when it is negative.
pub open spec fn signed_decimal_spec(n: int) -> Seq<char> {
    if n < 0 {
        seq!['-'] + decimal_spec((-n) as nat)
    } else {
        decimal_spec(n as nat)
    }
}

/// The character of a lower-case hexadecimal digit.
pub open spec fn hex_char(d: nat) -> char {
    if d < 10 { digit_char(d) }
    else if d == 10 { 'a' }
    else if d == 11 { 'b' }
    else if d == 12 { 'c' }
    else if d == 13 { 'd' }
    else if d == 14 { 'e' }
    else { 'f' }
}

/// Two lower-case hexadecimal digits for each byte, high nibble first.
pub open spec fn lower_hex_spec(b: Seq<u8>) -> Seq<char>
    decreases b.len(),
{
    if b.len() == 0 {
        Seq::empty()
    } else {
        lower_hex_spec(b.drop_last()) + seq![
            hex_char((b.last() / 16) as nat),
            hex_char((b.last() % 16) as nat),
        ]
    }
}

fn digit_str(d: u64) -> (r: &'static str)
    requires
        d < 10,
    ensures
        r@ == seq![digit_char(d as nat)],
{
    proof {
        reveal_strlit("0");
        reveal_strlit("1");
        reveal_strlit("2");
        reveal_strlit("3");
        reveal_strlit("4");
        reveal_strlit("5");
        reveal_strlit("6");
        reveal_strlit("7");
        reveal_strlit("8");
        reveal_strlit("9");
    }
    if d == 0 { "0" }
    else if d == 1 { "1" }
    else if d == 2 { "2" }
    else if d == 3 { "3" }
    else if d == 4 { "4" }
    else if d == 5 { "5" }
    else if d == 6 { "6" }
    else if d == 7 { "7" }
    else if d == 8 { "8" }
    else { "9" }
}

fn hex_str(d: u8) -> (r: &'static str)
    requires
        d < 16,
    ensures
        r@ == seq![hex_char(d as nat)],
{
    proof {
        reveal_strlit("a");
        reveal_strlit("b");
        reveal_strlit("c");
        reveal_strlit("d");
        reveal_strlit("e");
        reveal_strlit("f");
    }
    if d < 10 { digit_str(d as u64) }
    else if d == 10 { "a" }
    else if d == 11 { "b" }
    else if d == 12 { "c" }
    else if d == 13 { "d" }
    else if d == 14 { "e" }
    else { "f" }
}

/// The digits of `n` above its last one: empty when `n` is a single digit.
pub open spec fn leading_digits(n: nat) -> Seq<char> {
    if n == 0 { Seq::empty() } else { decimal_spec(n) }
}

proof fn lemma_decimal_split(n: nat)
    ensures
        decimal_spec(n) == leading_digits(n / 10) + seq![digit_char(n % 10)],
{
    if n < 10 {
        assert(n / 10 == 0);
        assert(leading_digits(n / 10) + seq![digit_char(n % 10)] =~= seq![digit_char(n)]);
    }
}

/// Decimal text is never empty, and starts with '0' only for zero itself.
pub proof fn decimal_has_no_leading_zero(n: nat)
    ensures
        decimal_spec(n).len() >= 1,
        decimal_spec(n)[0] == '0' ==> n == 0,
    decreases n,
{
    if n >= 10 {
        decimal_has_no_leading_zero(n / 10);
        assert(decimal_spec(n)[0] == decimal_spec(n / 10)[0]);
    }
}

/// Decimal text of `n`.
pub fn u64_text(n: u64) -> (r: String)
    ensures
        r@ == decimal_spec(n as nat),
{
    proof { lemma_decimal_split(n as nat); }
    let mut rest: u64 = n / 10;
    let mut text = String::from_str(digit_str(n % 10));
    while rest > 0
        invariant
            decimal_spec(n as nat) == leading_digits(rest as nat) + text@,
        decreases rest,
    {
        let d = digit_str(rest % 10);
        proof { lemma_decimal_split(rest as nat); }
        let ghost old_text = text@;
        text = String::from_str(d).concat(text.as_str());
        proof {
            assert(leading_digits(rest as nat) + old_text =~= leading_digits((rest / 10) as nat) + text@);
        }
        rest = rest / 10;
    }
    assert(text@ =~= leading_digits(0) + text@);
    text
}

/// Decimal text of `n`, with a leading '-' when it is negative.
pub fn i64_text(n: i64) -> (r: String)
    ensures
        r@ == signed_decimal_spec(n as int),
{
    if n < 0 {
        let magnitude: u64 = if n == i64::MIN { 9223372036854775808u64 } else { (-n) as u64 };
        let digits = u64_text(magnitude);
        proof { reveal_strlit("-"); }
        String::from_str("-").concat(digits.as_str())
    } else {
        u64_text(n as u64)
    }
}

/// Lower-case hexadecimal text of `b`, two digits per byte.
pub fn lower_hex(b: &[u8]) -> (r: String)
    ensures
        r@ == lower_hex_spec(b@),
{
    let mut text = String::new();
    let mut i: usize = 0;
    while i < b.len()
        invariant
            i <= b@.len(),
            text@ == lower_hex_spec(b@.subrange(0, i as int)),
        decreases b@.len() - i,
    {
        let hi = hex_str(b[i] / 16);
        let lo = hex_str(b[i] % 16);
        text.append(hi);
        text.append(lo);
        proof {
            let next = b@.subrange(0, i + 1);
            assert(next.drop_last() =~= b@.subrange(0, i as int));
            assert(next.last() == b@[i as int]);
        }
        i = i + 1;
    }
    assert(b@.subrange(0, b@.len() as int) =~= b@);
    text
}

} // verus!
