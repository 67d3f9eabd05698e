//! Decimal rendering of field values.

use vstd::prelude::*;

verus! {

/// The decimal digit that stands for `d`.
pub open spec fn digit_char(d: nat) -> char {
    if d == 0 { '0' }
    else if d == 1 { '1' }
    else if d == 2 { '2' }
    else if d == 3 { '3' }
    else if d == 4 { '4' }
    else if d == 5 { '5' }
    else if d == 6 { '6' }
    else if d == 7 { '7' }
    else if d == 8 { '8' }
    else { '9' }
}

/// The decimal digits of `n`, most significant first, with no leading zero.
pub open spec fn decimal(n: nat) -> Seq<char>
    decreases n,
{
    if n < 10 {
        seq![digit_char(n)]
    } else {
        decimal(n / 10).push(digit_char(n % 10))
    }
}

/// `n` with an explicit sign: `+` for zero and above, `-` below zero.
pub open spec fn signed_decimal(n: int) -> Seq<char> {
    if n < 0 {
        seq!['-'] + decimal((-n) as nat)
    } else {
        seq!['+'] + decimal(n as nat)
    }
}

fn digit_str(d: u32) -> (r: &'static str)
    requires
        d < 10,
    ensures
        r@ == seq![digit_char(d as nat)],
{
    proof {
        reveal_strlit("0");
        reveal_strlit("1");
        reveal_strlit("2");
        reveal_strlit("3");
        reveal_strlit("4");
        reveal_strlit("5");
        reveal_strlit("6");
        reveal_strlit("7");
        reveal_strlit("8");
        reveal_strlit("9");
    }
    match d {
        0 => "0",
        1 => "1",
        2 => "2",
        3 => "3",
        4 => "4",
        5 => "5",
        6 => "6",
        7 => "7",
        8 => "8",
        _ => "9",
    }
}

/// Appends the decimal digits of `n` to `out`.
fn push_decimal(out: &mut String, n: u32)
    ensures
        final(out)@ == old(out)@ + decimal(n as nat),
    decreases n,
{
    if n >= 10 {
        push_decimal(out, n / 10);
    }
    out.append(digit_str(n % 10));
    proof {
        if n >= 10 {
            assert(decimal(n as nat) =~= decimal((n / 10) as nat) + seq![digit_char((n % 10) as nat)]);
        }
        assert(out@ =~= old(out)@ + decimal(n as nat));
    }
}

/// The decimal digits of `n`.
pub fn unsigned_text(n: u32) -> (r: String)
    ensures
        r@ == decimal(n as nat),
{
    let mut out = String::new();
    push_decimal(&mut out, n);
    assert(out@ =~= decimal(n as nat));
    out
}

/// `n` with an explicit sign and its decimal magnitude.
pub fn signed_text(n: i32) -> (r: String)
    ensures
        r@ == signed_decimal(n as int),
{
    proof {
        reveal_strlit("-");
        reveal_strlit("+");
    }
    let mut out = String::new();
    let magnitude: u32;
    if n < 0 {
        out.append("-");
        magnitude = (-(n as i64)) as u32;
    } else {
        out.append("+");
        magnitude = n as u32;
    }
    push_decimal(&mut out, magnitude);
    out
}

} // verus!
