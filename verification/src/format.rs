//! Rendering byte counts as decimal text: plain digits, and human-readable
//! sizes scaled to KB, MB or GB with two fraction digits.

use vstd::prelude::*;

verus! {

use vstd::string::StringExecFns;

/// The decimal digit character for `d`.
pub open spec fn digit_char(d: nat) -> char {
    if d == 0 {
        '0'
    } else if d == 1 {
        '1'
    } else if d == 2 {
        '2'
    } else if d == 3 {
        '3'
    } else if d == 4 {
        '4'
    } else if d == 5 {
        '5'
    } else if d == 6 {
        '6'
    } else if d == 7 {
        '7'
    } else if d == 8 {
        '8'
    } else {
        '9'
    }
}

/// The decimal digits of `n`, most significant first, with no leading
/// zeros (a single `'0'` for zero).
pub open spec fn spec_digits(n: nat) -> Seq<char>
    decreases n,
{
    if n < 10 {
        seq![digit_char(n)]
    } else {
        spec_digits(n / 10).push(digit_char(n % 10))
    }
}

/// A count of hundredths rendered with two fraction digits: `205` becomes
/// `2.05`.
pub open spec fn spec_fixed2(h: nat) -> Seq<char> {
    spec_digits(h / 100) + seq!['.', digit_char((h % 100) / 10), digit_char((h % 100) % 10)]
}

/// `value` scaled to the unit as rounded hundredths: the value in hundredth
/// units, rounding half upward.
pub open spec fn spec_scaled_hundredths(value: nat, unit: nat) -> nat
    recommends
        unit > 0,
{
    ((value * 100 + unit / 2) / unit) as nat
}

/// The human-readable rendering of a byte count: scaled to GB, MB or KB
/// with two fraction digits when it reaches that unit, plain bytes below 1
/// KB.
pub open spec fn spec_format_bytes(b: nat) -> Seq<char> {
    if b >= 1073741824 {
        spec_fixed2(spec_scaled_hundredths(b, 1073741824)) + " GB"@
    } else if b >= 1048576 {
        spec_fixed2(spec_scaled_hundredths(b, 1048576)) + " MB"@
    } else if b >= 1024 {
        spec_fixed2(spec_scaled_hundredths(b, 1024)) + " KB"@
    } else {
        spec_digits(b) + " bytes"@
    }
}

/// The one-character string for decimal digit `d`.
fn digit_str(d: u128) -> (r: &'static str)
    requires
        d < 10,
    ensures
        r@ =~= seq![digit_char(d as nat)],
{
    proof {
        reveal_strlit("0");
        reveal_strlit("1");
        reveal_strlit("2");
        reveal_strlit("3");
        reveal_strlit("4");
        reveal_strlit("5");
        reveal_strlit("6");
        reveal_strlit("7");
        reveal_strlit("8");
        reveal_strlit("9");
    }
    if d == 0 {
        "0"
    } else if d == 1 {
        "1"
    } else if d == 2 {
        "2"
    } else if d == 3 {
        "3"
    } else if d == 4 {
        "4"
    } else if d == 5 {
        "5"
    } else if d == 6 {
        "6"
    } else if d == 7 {
        "7"
    } else if d == 8 {
        "8"
    } else {
        "9"
    }
}

/// Appends the decimal digits of `n` to `s`.
pub fn push_digits(s: &mut String, n: u128)
    ensures
        final(s)@ == old(s)@ + spec_digits(n as nat),
    decreases n,
{
    if n >= 10 {
        proof {
            vstd::arithmetic::div_mod::lemma_div_is_strictly_smaller(n as int, 10);
        }
        push_digits(s, n / 10);
        let d = digit_str(n % 10);
        s.append(d);
        proof {
            assert(s@ =~= old(s)@ + spec_digits(n as nat));
        }
    } else {
        let d = digit_str(n);
        s.append(d);
        proof {
            assert(s@ =~= old(s)@ + spec_digits(n as nat));
        }
    }
}

/// Appends `h` hundredths to `s` with two fraction digits.
pub fn push_fixed2(s: &mut String, h: u128)
    ensures
        final(s)@ == old(s)@ + spec_fixed2(h as nat),
    decreases h,
{
    push_digits(s, h / 100);
    proof {
        reveal_strlit(".");
    }
    s.append(".");
    let frac = h % 100;
    s.append(digit_str(frac / 10));
    s.append(digit_str(frac % 10));
    proof {
        assert(s@ =~= old(s)@ + spec_fixed2(h as nat));
    }
}

/// Renders `b` bytes as human-readable text: `512` becomes `512 bytes`,
/// `2048` becomes `2.00 KB`, and so on through MB and GB.
pub fn bytes(b: usize) -> (r: String)
    ensures
        r@ == spec_format_bytes(b as nat),
{
    let mut s = String::new();
    let b128 = b as u128;
    if b128 >= 1073741824 {
        let h = scaled_hundredths(b128, 1073741824);
        push_fixed2(&mut s, h);
        proof {
            reveal_strlit(" GB");
        }
        s.append(" GB");
    } else if b128 >= 1048576 {
        let h = scaled_hundredths(b128, 1048576);
        push_fixed2(&mut s, h);
        proof {
            reveal_strlit(" MB");
        }
        s.append(" MB");
    } else if b128 >= 1024 {
        let h = scaled_hundredths(b128, 1024);
        push_fixed2(&mut s, h);
        proof {
            reveal_strlit(" KB");
        }
        s.append(" KB");
    } else {
        push_digits(&mut s, b128);
        proof {
            reveal_strlit(" bytes");
        }
        s.append(" bytes");
    }
    proof {
        assert(s@ =~= spec_format_bytes(b as nat));
    }
    s
}

/// `value` in rounded hundredths of `unit`.
pub fn scaled_hundredths(value: u128, unit: u128) -> (r: u128)
    requires
        0 < unit <= 1073741824,
        value <= u128::MAX / 200,
    ensures
        r == spec_scaled_hundredths(value as nat, unit as nat),
{
    (value * 100 + unit / 2) / unit
}

} // verus!
