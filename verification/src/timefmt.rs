//! Rendering a time of day as a `HH:MM:SS` clock display.

use vstd::prelude::*;

verus! {

use vstd::string::StringExecFns;

/// The decimal digit character for `d`; meaningful for `0 <= d <= 9`.
pub open spec fn digit_char(d: int) -> char {
    if d == 0 {
        '0'
    } else if d == 1 {
        '1'
    } else if d == 2 {
        '2'
    } else if d == 3 {
        '3'
    } else if d == 4 {
        '4'
    } else if d == 5 {
        '5'
    } else if d == 6 {
        '6'
    } else if d == 7 {
        '7'
    } else if d == 8 {
        '8'
    } else {
        '9'
    }
}

/// Whether `c` is a decimal digit character.
pub open spec fn is_digit_char(c: char) -> bool {
    ||| c == '0'
    ||| c == '1'
    ||| c == '2'
    ||| c == '3'
    ||| c == '4'
    ||| c == '5'
    ||| c == '6'
    ||| c == '7'
    ||| c == '8'
    ||| c == '9'
}

/// The two-digit zero-padded decimal rendering of `v`; meaningful for `0 <= v < 100`.
pub open spec fn two_digits(v: int) -> Seq<char> {
    seq![digit_char(v / 10), digit_char(v % 10)]
}

/// The `HH:MM:SS` rendering of a time of day, given in seconds since midnight.
pub open spec fn hms_chars(sod: int) -> Seq<char> {
    two_digits(sod / 3600) + ":"@ + two_digits((sod / 60) % 60) + ":"@ + two_digits(sod % 60)
}

/// A well-formed clock display: exactly eight characters, digits in the
/// `DD:DD:DD` shape.
pub open spec fn is_clock_display(s: Seq<char>) -> bool {
    &&& s.len() == 8
    &&& is_digit_char(s[0])
    &&& is_digit_char(s[1])
    &&& s[2] == ':'
    &&& is_digit_char(s[3])
    &&& is_digit_char(s[4])
    &&& s[5] == ':'
    &&& is_digit_char(s[6])
    &&& is_digit_char(s[7])
}

proof fn lemma_digit_char_is_digit(d: int)
    ensures
        is_digit_char(digit_char(d)),
{
}

fn digit_str(d: u32) -> (r: &'static str)
    requires
        d < 10,
    ensures
        r@ == seq![digit_char(d as int)],
{
    let r: &'static str = match d {
        0 => "0",
        1 => "1",
        2 => "2",
        3 => "3",
        4 => "4",
        5 => "5",
        6 => "6",
        7 => "7",
        8 => "8",
        _ => "9",
    };
    proof {
        reveal_strlit("0");
        reveal_strlit("1");
        reveal_strlit("2");
        reveal_strlit("3");
        reveal_strlit("4");
        reveal_strlit("5");
        reveal_strlit("6");
        reveal_strlit("7");
        reveal_strlit("8");
        reveal_strlit("9");
        assert(r@ =~= seq![digit_char(d as int)]);
    }
    r
}

fn push_two_digits(out: &mut String, v: u32)
    requires
        v < 100,
    ensures
        final(out)@ == old(out)@ + two_digits(v as int),
{
    out.append(digit_str(v / 10));
    out.append(digit_str(v % 10));
    proof {
        assert(out@ =~= old(out)@ + two_digits(v as int));
    }
}

/// Law: every time of day renders in the `DD:DD:DD` digit-colon shape.
pub proof fn lemma_hms_clock_display(sod: int)
    requires
        0 <= sod < 86400,
    ensures
        is_clock_display(hms_chars(sod)),
{
    reveal_strlit(":");
    let h = sod / 3600;
    let m = (sod / 60) % 60;
    let s = sod % 60;
    assert(0 <= h < 24);
    assert(0 <= m < 60);
    assert(0 <= s < 60);
    lemma_digit_char_is_digit(h / 10);
    lemma_digit_char_is_digit(h % 10);
    lemma_digit_char_is_digit(m / 10);
    lemma_digit_char_is_digit(m % 10);
    lemma_digit_char_is_digit(s / 10);
    lemma_digit_char_is_digit(s % 10);
    assert(hms_chars(sod)[2] == ':');
    assert(hms_chars(sod)[5] == ':');
}

/// Renders a time of day, in seconds since midnight, as `HH:MM:SS`.
pub fn format_hms(sod: u32) -> (r: String)
    requires
        sod < 86400,
    ensures
        r@ == hms_chars(sod as int),
        is_clock_display(r@),
{
    let h: u32 = sod / 3600;
    let m: u32 = (sod / 60) % 60;
    let s: u32 = sod % 60;
    let mut out = String::new();
    push_two_digits(&mut out, h);
    out.append(":");
    push_two_digits(&mut out, m);
    out.append(":");
    push_two_digits(&mut out, s);
    proof {
        assert(out@ =~= hms_chars(sod as int));
        lemma_hms_clock_display(sod as int);
    }
    out
}

} // verus!
