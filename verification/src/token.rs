//! Correlation tokens: the decimal text of a counter value.

use vstd::prelude::*;

verus! {

/// The character that stands for a decimal digit.
pub open spec fn digit_char(d: nat) -> char {
    if d == 0 {
        '0'
    } else if d == 1 {
        '1'
    } else if d == 2 {
        '2'
    } else if d == 3 {
        '3'
    } else if d == 4 {
        '4'
    } else if d == 5 {
        '5'
    } else if d == 6 {
        '6'
    } else if d == 7 {
        '7'
    } else if d == 8 {
        '8'
    } else {
        '9'
    }
}

/// The digit that a character stands for; anything but `'1'..='9'` counts as zero.
pub open spec fn digit_value(c: char) -> nat {
    if c == '1' {
        1
    } else if c == '2' {
        2
    } else if c == '3' {
        3
    } else if c == '4' {
        4
    } else if c == '5' {
        5
    } else if c == '6' {
        6
    } else if c == '7' {
        7
    } else if c == '8' {
        8
    } else if c == '9' {
        9
    } else {
        0
    }
}

/// Decimal text of a number, most significant digit first, without leading zeros.
pub open spec fn decimal_text(n: nat) -> Seq<char>
    decreases n,
{
    if n < 10 {
        seq![digit_char(n)]
    } else {
        decimal_text(n / 10).push(digit_char(n % 10))
    }
}

/// The number that a string of decimal digits denotes.
pub open spec fn decimal_value(s: Seq<char>) -> nat
    decreases s.len(),
{
    if s.len() == 0 {
        0
    } else {
        decimal_value(s.drop_last()) * 10 + digit_value(s.last())
    }
}

/// The token minted at a counter value.
pub open spec fn token_text(counter: u64) -> Seq<char> {
    decimal_text(counter as nat)
}

/// The counter value reached after `steps` increments, each wrapping at `u64::MAX`.
pub open spec fn counter_after(start: u64, steps: nat) -> u64 {
    ((start as nat + steps) % 0x1_0000_0000_0000_0000) as u64
}

/// Reading back the decimal text of a number gives that number.
pub proof fn lemma_decimal_value_of_text(n: nat)
    ensures
        decimal_value(decimal_text(n)) == n,
        decimal_text(n).len() >= 1,
    decreases n,
{
    if n < 10 {
        let s = seq![digit_char(n)];
        assert(s.drop_last() =~= Seq::<char>::empty());
        assert(decimal_value(s.drop_last()) == 0);
        assert(s.last() == digit_char(n));
    } else {
        lemma_decimal_value_of_text(n / 10);
        let head = decimal_text(n / 10);
        let s = head.push(digit_char(n % 10));
        assert(s.drop_last() =~= head);
        assert(s.last() == digit_char(n % 10));
    }
}

/// Two different counter values never render to the same token.
pub proof fn lemma_tokens_distinct(a: u64, b: u64)
    requires
        a != b,
    ensures
        token_text(a) != token_text(b),
{
    lemma_decimal_value_of_text(a as nat);
    lemma_decimal_value_of_text(b as nat);
}

/// Any run of fewer than 2^64 consecutive mints from one counter yields
/// pairwise distinct tokens: the `i`-th and the `j`-th differ.
pub proof fn lemma_minted_tokens_distinct(start: u64, i: nat, j: nat)
    requires
        i < j,
        j < 0x1_0000_0000_0000_0000,
    ensures
        token_text(counter_after(start, i)) != token_text(counter_after(start, j)),
{
    let m: nat = 0x1_0000_0000_0000_0000;
    let a = start as nat + i;
    let b = start as nat + j;
    assert(a % m != b % m) by {
        if a < m && b >= m {
            assert(b < 2 * m);
            assert(b % m == b - m);
            assert(a % m == a);
        } else if a >= m {
            assert(a % m == a - m);
            assert(b % m == b - m);
        } else {
            assert(a % m == a);
            assert(b % m == b);
        }
    }
    lemma_tokens_distinct(counter_after(start, i), counter_after(start, j));
}

/// The character of one decimal digit.
pub fn digit(d: u64) -> (c: char)
    requires
        d < 10,
    ensures
        c == digit_char(d as nat),
{
    if d == 0 {
        '0'
    } else if d == 1 {
        '1'
    } else if d == 2 {
        '2'
    } else if d == 3 {
        '3'
    } else if d == 4 {
        '4'
    } else if d == 5 {
        '5'
    } else if d == 6 {
        '6'
    } else if d == 7 {
        '7'
    } else if d == 8 {
        '8'
    } else {
        '9'
    }
}

/// `String::push` of the standard library: appends one character to the end
/// of the string and leaves what was there in place.
pub assume_specification[ String::push ](s: &mut String, c: char)
    ensures
        final(s)@ == old(s)@.push(c),
;

/// Appends the decimal text of `n` to `out`.
pub fn push_decimal(n: u64, out: &mut String)
    ensures
        final(out)@ == old(out)@ + decimal_text(n as nat),
    decreases n,
{
    if n >= 10 {
        push_decimal(n / 10, out);
    }
    out.push(digit(n % 10));
    proof {
        let nn = n as nat;
        if nn < 10 {
            assert(old(out)@.push(digit_char(nn)) =~= old(out)@ + seq![digit_char(nn)]);
        } else {
            assert((old(out)@ + decimal_text(nn / 10)).push(digit_char(nn % 10)) =~= old(out)@
                + decimal_text(nn / 10).push(digit_char(nn % 10)));
        }
    }
}

/// Renders a counter value as its token.
pub fn render_token(counter: u64) -> (token: String)
    ensures
        token@ == token_text(counter),
{
    let mut token = String::new();
    push_decimal(counter, &mut token);
    assert(Seq::<char>::empty() + decimal_text(counter as nat) =~= decimal_text(counter as nat));
    token
}

} // verus!
