use vstd::prelude::*;
use vstd::string::StringExecFns;

verus! {

/// One gibibyte in bytes.
pub const GIBIBYTE: u64 = 1024 * 1024 * 1024;

/// The decimal digit `d` as a character.
pub open spec fn digit_char(d: nat) -> char {
    if d == 0 {
        '0'
    } else if d == 1 {
        '1'
    } else if d == 2 {
        '2'
    } else if d == 3 {
        '3'
    } else if d == 4 {
        '4'
    } else if d == 5 {
        '5'
    } else if d == 6 {
        '6'
    } else if d == 7 {
        '7'
    } else if d == 8 {
        '8'
    } else {
        '9'
    }
}

/// The decimal digits of `n`, most significant first.
pub open spec fn dec_chars(n: nat) -> Seq<char>
    decreases n,
{
    if n < 10 {
        seq![digit_char(n)]
    } else {
        dec_chars(n / 10).push(digit_char(n % 10))
    }
}

/// Whole gibibytes and remaining hundredths of a gibibyte nearest to `b`
/// bytes, with halves rounded up.
pub open spec fn gib_parts(b: nat) -> (nat, nat) {
    let whole = b / (GIBIBYTE as nat);
    let h = ((b % (GIBIBYTE as nat)) * 100 + (GIBIBYTE as nat) / 2) / (GIBIBYTE as nat);
    if h == 100 {
        ((whole + 1) as nat, 0 as nat)
    } else {
        (whole, h)
    }
}

/// The capacity in gibibytes with two decimal places: the whole part, a
/// point, and the hundredths as two digits.
pub open spec fn gib_chars(b: nat) -> Seq<char> {
    let (whole, h) = gib_parts(b);
    dec_chars(whole) + seq!['.'] + seq![digit_char(h / 10), digit_char(h % 10)]
}

fn append_digit(s: &mut String, d: u64)
    requires
        d < 10,
    ensures
        final(s)@ == old(s)@ + seq![digit_char(d as nat)],
{
    match d {
        0 => s.append("0"),
        1 => s.append("1"),
        2 => s.append("2"),
        3 => s.append("3"),
        4 => s.append("4"),
        5 => s.append("5"),
        6 => s.append("6"),
        7 => s.append("7"),
        8 => s.append("8"),
        _ => s.append("9"),
    }
    proof {
        reveal_strlit("0");
        reveal_strlit("1");
        reveal_strlit("2");
        reveal_strlit("3");
        reveal_strlit("4");
        reveal_strlit("5");
        reveal_strlit("6");
        reveal_strlit("7");
        reveal_strlit("8");
        reveal_strlit("9");
        assert(s@ =~= old(s)@ + seq![digit_char(d as nat)]);
    }
}

/// Appends the decimal rendering of `n`.
pub fn append_u64(s: &mut String, n: u64)
    ensures
        final(s)@ == old(s)@ + dec_chars(n as nat),
    decreases n,
{
    if n >= 10 {
        append_u64(s, n / 10);
    }
    append_digit(s, n % 10);
    proof {
        assert(s@ =~= old(s)@ + dec_chars(n as nat));
    }
}

/// Appends the rendering of `b` bytes as gibibytes with two decimal
/// places.
pub fn append_gib(s: &mut String, b: u64)
    ensures
        final(s)@ == old(s)@ + gib_chars(b as nat),
{
    let whole: u64 = b / GIBIBYTE;
    let rem: u64 = b % GIBIBYTE;
    let h: u64 = (rem * 100 + GIBIBYTE / 2) / GIBIBYTE;
    proof {
        assert(whole < 0x1_0000_0000_0000_0000int / (GIBIBYTE as int)) by (nonlinear_arith)
            requires
                whole == b as int / (GIBIBYTE as int),
                b < 0x1_0000_0000_0000_0000int,
                GIBIBYTE == 0x4000_0000,
        ;
        assert(h <= 100) by (nonlinear_arith)
            requires
                h == (rem * 100 + (GIBIBYTE as int) / 2) / (GIBIBYTE as int),
                rem < GIBIBYTE,
                GIBIBYTE == 0x4000_0000,
        ;
    }
    let (w2, h2): (u64, u64) = if h == 100 {
        (whole + 1, 0)
    } else {
        (whole, h)
    };
    append_u64(s, w2);
    s.append(".");
    append_digit(s, h2 / 10);
    append_digit(s, h2 % 10);
    proof {
        reveal_strlit(".");
        assert(s@ =~= old(s)@ + gib_chars(b as nat));
    }
}

} // verus!
