//! Decimal numbers as text.

use vstd::prelude::*;

verus! {

/// The character that stands for a number below ten.
pub open spec fn digit(d: nat) -> char {
    (('0' as u32) + d) as char
}

/// A number in decimal notation, without leading zeros.
pub open spec fn decimal(n: nat) -> Seq<char>
    decreases n,
{
    if n < 10 {
        seq![digit(n)]
    } else {
        decimal(n / 10).push(digit(n % 10))
    }
}

/// A number in decimal notation, padded with a zero to two characters.
pub open spec fn two_wide(n: nat) -> Seq<char> {
    if n < 10 {
        seq!['0', digit(n)]
    } else {
        decimal(n)
    }
}

/// A number below ten thousand, as four digits.
pub open spec fn four_digits(n: nat) -> Seq<char> {
    seq![digit(n / 1000), digit(n / 100 % 10), digit(n / 10 % 10), digit(n % 10)]
}

/// Two characters are enough for a number below a hundred.
pub proof fn lemma_two_wide(n: nat)
    requires
        n < 100,
    ensures
        two_wide(n) == seq![digit(n / 10), digit(n % 10)],
{
    reveal_with_fuel(decimal, 2);
    assert(two_wide(n) =~= seq![digit(n / 10), digit(n % 10)]);
}

/// Between a thousand and ten thousand no padding is needed for four digits.
pub proof fn lemma_four_digits(n: nat)
    requires
        1000 <= n < 10000,
    ensures
        decimal(n) == four_digits(n),
{
    reveal_with_fuel(decimal, 4);
    assert(n / 10 / 10 == n / 100);
    assert(n / 10 / 10 / 10 == n / 1000);
    assert(decimal(n) =~= four_digits(n));
}

/// The four digits of a number that was made of four digits.
pub proof fn lemma_four_digits_of(a: nat, b: nat, c: nat, d: nat)
    requires
        a < 10,
        b < 10,
        c < 10,
        d < 10,
    ensures
        four_digits(a * 1000 + b * 100 + c * 10 + d)
            == seq![digit(a), digit(b), digit(c), digit(d)],
{
    let n = a * 1000 + b * 100 + c * 10 + d;
    assert(n / 1000 == a);
    assert(n / 100 == a * 10 + b);
    assert(n / 10 == a * 100 + b * 10 + c);
    assert((a * 10 + b) % 10 == b);
    assert((a * 100 + b * 10 + c) % 10 == c);
    assert(n % 10 == d);
}

fn digit_text(d: u64) -> (r: &'static str)
    requires
        d < 10,
    ensures
        r@ == seq![digit(d as nat)],
{
    proof {
        reveal_strlit("0");
        reveal_strlit("1");
        reveal_strlit("2");
        reveal_strlit("3");
        reveal_strlit("4");
        reveal_strlit("5");
        reveal_strlit("6");
        reveal_strlit("7");
        reveal_strlit("8");
        reveal_strlit("9");
    }
    let r = match d {
        0 => "0",
        1 => "1",
        2 => "2",
        3 => "3",
        4 => "4",
        5 => "5",
        6 => "6",
        7 => "7",
        8 => "8",
        _ => "9",
    };
    assert(r@ =~= seq![digit(d as nat)]);
    r
}

/// Appends a number in decimal notation.
pub fn append_decimal(out: &mut String, n: u64)
    ensures
        final(out)@ == old(out)@ + decimal(n as nat),
    decreases n,
{
    if n >= 10 {
        append_decimal(out, n / 10);
    }
    out.append(digit_text(n % 10));
    assert(out@ =~= old(out)@ + decimal(n as nat));
}

/// Appends a number in decimal notation, padded with a zero to two characters.
pub fn append_two_wide(out: &mut String, n: u64)
    ensures
        final(out)@ == old(out)@ + two_wide(n as nat),
{
    if n < 10 {
        proof {
            reveal_strlit("0");
        }
        out.append("0");
    }
    append_decimal(out, n);
    assert(out@ =~= old(out)@ + two_wide(n as nat));
}

/// Whether a text is made of decimal digits.
pub open spec fn is_numeral(s: Seq<char>) -> bool {
    s.len() > 0 && forall|i: int| 0 <= i < s.len() ==> '0' <= #[trigger] s[i] <= '9'
}

/// The number that decimal digits are read as.
pub open spec fn numeral_value(s: Seq<char>) -> int
    decreases s.len(),
{
    if s.len() == 0 {
        0
    } else {
        numeral_value(s.drop_last()) * 10 + (s.last() as int - '0' as int)
    }
}

/// The digits are the characters from zero to nine, in this order.
pub proof fn law_digits()
    ensures
        Seq::new(10, |i: int| digit(i as nat)) == "0123456789"@,
{
    reveal_strlit("0123456789");
    assert(Seq::new(10, |i: int| digit(i as nat)) =~= "0123456789"@);
}

/// A number that is written in decimal notation is read as that number again,
/// and only zero begins with a zero.
pub proof fn law_decimal_reads_back(n: nat)
    ensures
        is_numeral(decimal(n)),
        numeral_value(decimal(n)) == n,
        decimal(n).len() > 1 ==> decimal(n)[0] != '0',
        n > 0 ==> decimal(n)[0] != '0',
    decreases n,
{
    if n < 10 {
        assert(decimal(n).drop_last() =~= Seq::empty());
        assert(numeral_value(Seq::empty()) == 0);
    } else {
        law_decimal_reads_back(n / 10);
        let init = decimal(n / 10);
        assert(decimal(n).drop_last() =~= init);
        assert(decimal(n)[0] == init[0]);
        assert(forall|i: int| 0 <= i < init.len() ==> decimal(n)[i] == init[i]);
    }
}

/// Two digits in a text are read as the number that they stand for.
pub proof fn lemma_two_digits_read_back(s: Seq<char>, at: int, n: nat)
    requires
        0 <= at,
        at + 2 <= s.len(),
        n < 100,
        s[at] == digit(n / 10),
        s[at + 1] == digit(n % 10),
    ensures
        is_numeral(s.subrange(at, at + 2)),
        numeral_value(s.subrange(at, at + 2)) == n,
{
    let both = s.subrange(at, at + 2);
    let first = both.drop_last();
    assert(first.drop_last() =~= Seq::empty());
    assert(numeral_value(Seq::empty()) == 0);
    assert(numeral_value(first) == n / 10);
}

/// A number that is padded to two characters is read as that number again. It
/// takes two characters if it is below a hundred; else it begins with no zero.
pub proof fn law_two_wide_reads_back(n: nat)
    ensures
        is_numeral(two_wide(n)),
        numeral_value(two_wide(n)) == n,
        two_wide(n).len() >= 2,
        n < 100 <==> two_wide(n).len() == 2,
        n >= 100 ==> two_wide(n)[0] != '0',
{
    if n < 100 {
        lemma_two_wide(n);
        lemma_two_digits_read_back(two_wide(n), 0, n);
        assert(two_wide(n).subrange(0, 2) =~= two_wide(n));
    } else {
        law_decimal_reads_back(n);
        law_decimal_reads_back(n / 10 / 10);
        assert(decimal(n) == decimal(n / 10).push(digit(n % 10)));
        assert(decimal(n / 10) == decimal(n / 10 / 10).push(digit(n / 10 % 10)));
    }
}

/// A number below ten thousand that is written with four digits is read as that
/// number again.
pub proof fn law_four_digits_read_back(n: nat)
    requires
        n < 10000,
    ensures
        four_digits(n).len() == 4,
        is_numeral(four_digits(n)),
        numeral_value(four_digits(n)) == n,
{
    let s = four_digits(n);
    let s3 = s.drop_last();
    let s2 = s3.drop_last();
    let s1 = s2.drop_last();
    assert(s1.drop_last() =~= Seq::empty());
    assert(numeral_value(Seq::empty()) == 0);
    assert(numeral_value(s1) == n / 1000);
    assert(n / 1000 == n / 100 / 10);
    assert(numeral_value(s2) == n / 100);
    assert(n / 100 == n / 10 / 10);
    assert(numeral_value(s3) == n / 10);
}

} // verus!
