use vstd::prelude::*;

verus! {

/// The decimal digit character for `d`.
pub open spec fn digit_char(d: nat) -> char
    recommends
        d < 10,
{
    ((48 + d) as u8) as char
}

/// The decimal digit string of `n`, most significant digit first.
pub open spec fn dec_digits(n: nat) -> Seq<char>
    decreases n,
{
    if n < 10 {
        seq![digit_char(n)]
    } else {
        dec_digits(n / 10).push(digit_char(n % 10))
    }
}

/// `n` in decimal, padded with a leading zero to at least two digits.
pub open spec fn pad2(n: nat) -> Seq<char> {
    if n < 10 {
        seq!['0'] + dec_digits(n)
    } else {
        dec_digits(n)
    }
}

/// A duration in seconds as shown in chat: `M:SS` under an hour, with
/// the minutes unpadded, else `H:MM:SS` with the hours padded to at
/// least two digits.
pub open spec fn spec_format_duration(secs: nat) -> Seq<char> {
    let mins = secs / 60;
    let hours = mins / 60;
    if hours == 0 {
        dec_digits(mins) + seq![':'] + pad2(secs % 60)
    } else {
        pad2(hours) + seq![':'] + pad2(mins % 60) + seq![':'] + pad2(secs % 60)
    }
}

/// The one-character string for a decimal digit.
fn digit_str(d: u64) -> (r: &'static str)
    requires
        d < 10,
    ensures
        r@ == seq![digit_char(d as nat)],
{
    proof {
        reveal_strlit("0");
        reveal_strlit("1");
        reveal_strlit("2");
        reveal_strlit("3");
        reveal_strlit("4");
        reveal_strlit("5");
        reveal_strlit("6");
        reveal_strlit("7");
        reveal_strlit("8");
        reveal_strlit("9");
    }
    match d {
        0 => "0",
        1 => "1",
        2 => "2",
        3 => "3",
        4 => "4",
        5 => "5",
        6 => "6",
        7 => "7",
        8 => "8",
        _ => "9",
    }
}

/// `n` in decimal.
pub fn format_u64(n: u64) -> (r: String)
    ensures
        r@ == dec_digits(n as nat),
    decreases n,
{
    if n < 10 {
        digit_str(n).to_owned()
    } else {
        let mut r = format_u64(n / 10);
        r.append(digit_str(n % 10));
        proof {
            assert(r@ =~= dec_digits(n as nat));
        }
        r
    }
}

/// `n` in decimal, zero-padded to at least two digits.
pub fn format_padded(n: u64) -> (r: String)
    ensures
        r@ == pad2(n as nat),
{
    if n < 10 {
        proof {
            reveal_strlit("0");
        }
        let mut r = String::from_str("0");
        r.append(digit_str(n));
        proof {
            assert(r@ =~= pad2(n as nat));
        }
        r
    } else {
        format_u64(n)
    }
}

/// Render a duration in seconds for chat display.
pub fn format_duration(secs: u64) -> (r: String)
    ensures
        r@ == spec_format_duration(secs as nat),
{
    proof {
        reveal_strlit(":");
    }
    let mins = secs / 60;
    let hours = mins / 60;
    if hours != 0 {
        let mut r = format_padded(hours);
        r.append(":");
        let mm = format_padded(mins % 60);
        r.append(mm.as_str());
        r.append(":");
        let ss = format_padded(secs % 60);
        r.append(ss.as_str());
        proof {
            assert(r@ =~= spec_format_duration(secs as nat));
        }
        r
    } else {
        let mut r = format_u64(mins);
        r.append(":");
        let ss = format_padded(secs % 60);
        r.append(ss.as_str());
        proof {
            assert(r@ =~= spec_format_duration(secs as nat));
        }
        r
    }
}

} // verus!
