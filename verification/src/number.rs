//! Rendering of unsigned numbers as text, in the bases that installer
//! arguments use: decimal for owner and group ids, octal for permission bits.

use vstd::prelude::*;
use vstd::string::StringExecFns;

verus! {

/// The character that stands for the digit `d`, for `0 <= d <= 9`.
pub open spec fn digit_char(d: int) -> char {
    if d == 0 {
        '0'
    } else if d == 1 {
        '1'
    } else if d == 2 {
        '2'
    } else if d == 3 {
        '3'
    } else if d == 4 {
        '4'
    } else if d == 5 {
        '5'
    } else if d == 6 {
        '6'
    } else if d == 7 {
        '7'
    } else if d == 8 {
        '8'
    } else {
        '9'
    }
}

/// The digits of `n` in base `base`, most significant first, without leading
/// zeros; zero is the single digit `0`. Meant for `2 <= base <= 10`.
pub open spec fn render(n: nat, base: nat) -> Seq<char>
    decreases n,
    via render_terminates
{
    if base < 2 || n < base {
        seq![digit_char(n as int)]
    } else {
        render(n / base, base).push(digit_char((n % base) as int))
    }
}

#[via_fn]
proof fn render_terminates(n: nat, base: nat) {
    if base >= 2 && n >= base {
        lemma_quotient_smaller(n, base);
    }
}

/// Dividing a positive number by two or more makes it smaller.
proof fn lemma_quotient_smaller(n: nat, base: nat)
    requires
        base >= 2,
        n >= 1,
    ensures
        n / base < n,
{
    assert(n / base < n) by (nonlinear_arith)
        requires
            base >= 2,
            n >= 1,
    ;
}

/// The digit that the character `c` stands for; 0 for any other character.
pub open spec fn digit_value(c: char) -> nat {
    if c == '1' {
        1
    } else if c == '2' {
        2
    } else if c == '3' {
        3
    } else if c == '4' {
        4
    } else if c == '5' {
        5
    } else if c == '6' {
        6
    } else if c == '7' {
        7
    } else if c == '8' {
        8
    } else if c == '9' {
        9
    } else {
        0
    }
}

/// The number that `digits` denote in base `base`, most significant digit
/// first.
pub open spec fn value(digits: Seq<char>, base: nat) -> nat
    decreases digits.len(),
{
    if digits.len() == 0 {
        0
    } else {
        value(digits.drop_last(), base) * base + digit_value(digits.last())
    }
}

/// What is rendered reads back as the number itself, and has no leading
/// zero unless the number is zero.
pub proof fn law_render_reads_back(n: nat, base: nat)
    requires
        2 <= base <= 10,
    ensures
        value(render(n, base), base) == n,
        render(n, base).len() >= 1,
        render(n, base)[0] == '0' <==> n == 0,
    decreases n,
{
    let digits = render(n, base);
    if n < base {
        assert(digits.drop_last() =~= Seq::<char>::empty());
        assert(value(digits.drop_last(), base) == 0);
        assert(0 * base == 0) by (nonlinear_arith);
    } else {
        let front = render(n / base, base);
        let digit = digit_char((n % base) as int);
        lemma_quotient_smaller(n, base);
        law_render_reads_back(n / base, base);
        assert(digits == front.push(digit));
        assert(digits.drop_last() =~= front);
        assert(digits.last() == digit);
        assert(0 <= n % base < base) by (nonlinear_arith)
            requires
                base >= 2,
        ;
        assert(digit_value(digit) == n % base);
        assert((n / base) * base + n % base == n) by (nonlinear_arith)
            requires
                base >= 2,
        ;
        assert(n / base >= 1) by (nonlinear_arith)
            requires
                n >= base,
                base >= 2,
        ;
        assert(digits[0] == front[0]);
    }
}

/// The text of a single digit.
fn digit_text(d: u32) -> (text: &'static str)
    requires
        d <= 9,
    ensures
        text@ == seq![digit_char(d as int)],
{
    proof {
        reveal_strlit("0");
        reveal_strlit("1");
        reveal_strlit("2");
        reveal_strlit("3");
        reveal_strlit("4");
        reveal_strlit("5");
        reveal_strlit("6");
        reveal_strlit("7");
        reveal_strlit("8");
        reveal_strlit("9");
    }
    let text = if d == 0 {
        "0"
    } else if d == 1 {
        "1"
    } else if d == 2 {
        "2"
    } else if d == 3 {
        "3"
    } else if d == 4 {
        "4"
    } else if d == 5 {
        "5"
    } else if d == 6 {
        "6"
    } else if d == 7 {
        "7"
    } else if d == 8 {
        "8"
    } else {
        "9"
    };
    assert(text@ =~= seq![digit_char(d as int)]);
    text
}

/// Appends the digits of `n` in base `base` to `out`.
fn render_onto(out: &mut String, n: u32, base: u32)
    requires
        2 <= base <= 10,
    ensures
        final(out)@ == old(out)@ + render(n as nat, base as nat),
    decreases n,
{
    if n >= base {
        proof {
            lemma_quotient_smaller(n as nat, base as nat);
        }
        render_onto(out, n / base, base);
        out.append(digit_text(n % base));
        assert(out@ =~= old(out)@ + render((n / base) as nat, base as nat).push(
            digit_char((n % base) as int),
        ));
    } else {
        out.append(digit_text(n));
    }
}

/// The decimal text of `n`, as `to_string` gives it.
pub fn decimal(n: u32) -> (text: String)
    ensures
        text@ == render(n as nat, 10),
{
    let mut text = String::new();
    render_onto(&mut text, n, 10);
    text
}

/// The octal text of `n`, without a prefix.
pub fn octal(n: u32) -> (text: String)
    ensures
        text@ == render(n as nat, 8),
{
    let mut text = String::new();
    render_onto(&mut text, n, 8);
    text
}

} // verus!
