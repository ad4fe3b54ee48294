use vstd::prelude::*;
use vstd::string::StringExecFns;

verus! {

/// The decimal digit character for a value below ten.
pub open spec fn digit_char(d: int) -> char
    recommends
        0 <= d < 10,
{
    if d == 0 {
        '0'
    } else if d == 1 {
        '1'
    } else if d == 2 {
        '2'
    } else if d == 3 {
        '3'
    } else if d == 4 {
        '4'
    } else if d == 5 {
        '5'
    } else if d == 6 {
        '6'
    } else if d == 7 {
        '7'
    } else if d == 8 {
        '8'
    } else {
        '9'
    }
}

/// The decimal digits of `n`, most significant first, without leading
/// zeros (a single zero digit for zero).
pub open spec fn dec_seq(n: nat) -> Seq<char>
    decreases n,
{
    if n < 10 {
        seq![digit_char(n as int)]
    } else {
        dec_seq(n / 10) + seq![digit_char((n % 10) as int)]
    }
}

/// The zero padding that brings the decimal form of `n` to a minimum
/// width of four digits.
pub open spec fn padding(n: nat) -> Seq<char> {
    if n <= 9 {
        seq!['0', '0', '0']
    } else if n <= 99 {
        seq!['0', '0']
    } else if n <= 999 {
        seq!['0']
    } else {
        Seq::empty()
    }
}

/// The name of the output image with sequence number `n`: the fixed
/// prefix, the number zero-padded to at least four digits, and the
/// fixed image extension.
pub open spec fn spec_filename(n: nat) -> Seq<char> {
    seq!['f', 'r', 'a', 'm', 'e', '_'] + padding(n) + dec_seq(n) + seq!['.', 'p', 'n', 'g']
}

/// The one-character string for a decimal digit value.
fn digit_str(d: u32) -> (r: &'static str)
    requires
        d < 10,
    ensures
        r@ == seq![digit_char(d as int)],
{
    let r: &'static str = match d {
        0 => "0",
        1 => "1",
        2 => "2",
        3 => "3",
        4 => "4",
        5 => "5",
        6 => "6",
        7 => "7",
        8 => "8",
        _ => "9",
    };
    proof {
        reveal_strlit("0");
        reveal_strlit("1");
        reveal_strlit("2");
        reveal_strlit("3");
        reveal_strlit("4");
        reveal_strlit("5");
        reveal_strlit("6");
        reveal_strlit("7");
        reveal_strlit("8");
        reveal_strlit("9");
        assert(r@ =~= seq![digit_char(d as int)]);
    }
    r
}

/// Appends the decimal digits of `n`, most significant first.
fn push_dec(s: &mut String, n: u32)
    ensures
        final(s)@ == old(s)@ + dec_seq(n as nat),
    decreases n,
{
    if n >= 10 {
        push_dec(s, n / 10);
    }
    let d: u32 = n % 10;
    let digit: &'static str = digit_str(d);
    s.append(digit);
    proof {
        assert(s@ =~= old(s)@ + dec_seq(n as nat));
    }
}

/// Renders the output filename for sequence number `n`, the decimal
/// number zero-padded to at least four digits.
pub fn render_filename(n: u32) -> (s: String)
    ensures
        s@ == spec_filename(n as nat),
{
    let mut s = String::new();
    s.append("frame_");
    if n <= 9 {
        s.append("000");
    } else if n <= 99 {
        s.append("00");
    } else if n <= 999 {
        s.append("0");
    }
    push_dec(&mut s, n);
    s.append(".png");
    proof {
        reveal_strlit("frame_");
        reveal_strlit("000");
        reveal_strlit("00");
        reveal_strlit("0");
        reveal_strlit(".png");
        assert(s@ =~= spec_filename(n as nat));
    }
    s
}

} // verus!
