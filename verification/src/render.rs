//! Rendering of primitive values as text: decimal numerals and the
//! literal words `true` / `false`.

use vstd::prelude::*;
use vstd::string::StringExecFns;

verus! {

/// The character for a single decimal digit.
pub open spec fn digit_char(d: nat) -> char {
    if d == 0 {
        '0'
    } else if d == 1 {
        '1'
    } else if d == 2 {
        '2'
    } else if d == 3 {
        '3'
    } else if d == 4 {
        '4'
    } else if d == 5 {
        '5'
    } else if d == 6 {
        '6'
    } else if d == 7 {
        '7'
    } else if d == 8 {
        '8'
    } else {
        '9'
    }
}

/// The canonical decimal numeral of `n`: most significant digit first,
/// no leading zeros (except that 0 itself renders as "0").
pub open spec fn dec_rep(n: nat) -> Seq<char>
    decreases n,
{
    if n < 10 {
        seq![digit_char(n)]
    } else {
        dec_rep(n / 10).push(digit_char(n % 10))
    }
}

/// The literal rendering of a boolean: the word `true` or `false`.
pub open spec fn bool_rep(b: bool) -> Seq<char> {
    if b {
        "true"@
    } else {
        "false"@
    }
}

/// The one-character string for a single decimal digit.
fn digit_str(d: u16) -> (r: &'static str)
    requires
        d < 10,
    ensures
        r@ == seq![digit_char(d as nat)],
{
    proof {
        reveal_strlit("0");
        reveal_strlit("1");
        reveal_strlit("2");
        reveal_strlit("3");
        reveal_strlit("4");
        reveal_strlit("5");
        reveal_strlit("6");
        reveal_strlit("7");
        reveal_strlit("8");
        reveal_strlit("9");
    }
    let r: &'static str = match d {
        0 => "0",
        1 => "1",
        2 => "2",
        3 => "3",
        4 => "4",
        5 => "5",
        6 => "6",
        7 => "7",
        8 => "8",
        _ => "9",
    };
    proof {
        assert(r@ =~= seq![digit_char(d as nat)]);
    }
    r
}

/// Appends the decimal numeral of `n` to `s`.
fn push_dec(s: &mut String, n: u16)
    ensures
        final(s)@ == old(s)@ + dec_rep(n as nat),
    decreases n,
{
    if n < 10 {
        let ghost before: Seq<char> = s@;
        s.append(digit_str(n));
        proof {
            assert(s@ =~= before + dec_rep(n as nat));
        }
    } else {
        let ghost before: Seq<char> = s@;
        push_dec(s, n / 10);
        let d: u16 = n % 10;
        s.append(digit_str(d));
        proof {
            assert((n / 10) as nat == (n as nat) / 10);
            assert((n % 10) as nat == (n as nat) % 10);
            assert(s@ =~= before + dec_rep(n as nat));
        }
    }
}

/// The decimal numeral of `n` as a `String`, exactly `dec_rep(n)`.
pub fn u16_to_string(n: u16) -> (r: String)
    ensures
        r@ == dec_rep(n as nat),
{
    let mut s = String::new();
    push_dec(&mut s, n);
    proof {
        assert(s@ =~= dec_rep(n as nat));
    }
    s
}

/// The word `true` or `false`, exactly `bool_rep(b)`.
pub fn bool_str(b: bool) -> (r: &'static str)
    ensures
        r@ == bool_rep(b),
{
    if b {
        "true"
    } else {
        "false"
    }
}

} // verus!
