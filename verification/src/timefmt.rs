//! Rendering a point on the session timeline as a wall-clock string.
//!
//! A tick is converted (by the caller, with the session's tick interval)
//! into a number of elapsed milliseconds; this module turns milliseconds
//! into text of the shape `3h07m02.250s`, omitting the hour part when it is
//! zero and the minute part when both are zero, and zero-padding every part
//! that follows another.

use vstd::prelude::*;

verus! {

/// The decimal digit character for `d` in `0 ..= 9`.
pub open spec fn digit_char(d: int) -> char {
    if d == 0 {
        '0'
    } else if d == 1 {
        '1'
    } else if d == 2 {
        '2'
    } else if d == 3 {
        '3'
    } else if d == 4 {
        '4'
    } else if d == 5 {
        '5'
    } else if d == 6 {
        '6'
    } else if d == 7 {
        '7'
    } else if d == 8 {
        '8'
    } else {
        '9'
    }
}

/// The decimal digits of `n`, most significant first, without leading
/// zeroes (a single `'0'` for zero).
pub open spec fn dec_digits(n: nat) -> Seq<char>
    decreases n,
{
    if n < 10 {
        seq![digit_char(n as int)]
    } else {
        dec_digits(n / 10).push(digit_char((n % 10) as int))
    }
}

/// The decimal digits of `n < 100`, zero-padded to two places.
pub open spec fn pad2_digits(n: nat) -> Seq<char> {
    if n < 10 {
        seq!['0', digit_char(n as int)]
    } else {
        dec_digits(n)
    }
}

/// The decimal digits of `n < 1000`, zero-padded to three places.
pub open spec fn pad3_digits(n: nat) -> Seq<char> {
    if n < 10 {
        seq!['0', '0', digit_char(n as int)]
    } else if n < 100 {
        seq!['0'] + dec_digits(n)
    } else {
        dec_digits(n)
    }
}

/// The wall-clock text for `ms` elapsed milliseconds.
pub open spec fn time_text(ms: nat) -> Seq<char> {
    let hours = ms / 3600000;
    let minutes = (ms / 60000) % 60;
    let secs = (ms / 1000) % 60;
    let millis = ms % 1000;
    if hours > 0 {
        dec_digits(hours) + seq!['h'] + pad2_digits(minutes) + seq!['m'] + pad2_digits(secs)
            + seq!['.'] + pad3_digits(millis) + seq!['s']
    } else if minutes > 0 {
        dec_digits(minutes) + seq!['m'] + pad2_digits(secs) + seq!['.'] + pad3_digits(millis)
            + seq!['s']
    } else {
        dec_digits(secs) + seq!['.'] + pad3_digits(millis) + seq!['s']
    }
}

/// The one-character string for digit `d`.
fn digit_str(d: u64) -> (r: &'static str)
    requires
        d < 10,
    ensures
        r@ == seq![digit_char(d as int)],
{
    proof {
        reveal_strlit("0");
        reveal_strlit("1");
        reveal_strlit("2");
        reveal_strlit("3");
        reveal_strlit("4");
        reveal_strlit("5");
        reveal_strlit("6");
        reveal_strlit("7");
        reveal_strlit("8");
        reveal_strlit("9");
    }
    if d == 0 {
        "0"
    } else if d == 1 {
        "1"
    } else if d == 2 {
        "2"
    } else if d == 3 {
        "3"
    } else if d == 4 {
        "4"
    } else if d == 5 {
        "5"
    } else if d == 6 {
        "6"
    } else if d == 7 {
        "7"
    } else if d == 8 {
        "8"
    } else {
        "9"
    }
}

/// The decimal text of `n`.
pub fn u64_to_dec_string(n: u64) -> (r: String)
    ensures
        r@ == dec_digits(n as nat),
    decreases n,
{
    if n < 10 {
        let mut s = String::new();
        s.append(digit_str(n));
        proof {
            assert(s@ =~= dec_digits(n as nat));
        }
        s
    } else {
        proof {
            vstd::arithmetic::div_mod::lemma_div_is_strictly_smaller(n as int, 10);
        }
        let mut s = u64_to_dec_string(n / 10);
        s.append(digit_str(n % 10));
        proof {
            assert(s@ =~= dec_digits(n as nat));
        }
        s
    }
}

/// The two-place text of `n < 100`.
fn pad2_string(n: u64) -> (r: String)
    requires
        n < 100,
    ensures
        r@ == pad2_digits(n as nat),
{
    let mut s = String::new();
    if n < 10 {
        proof {
            reveal_strlit("0");
        }
        s.append("0");
    }
    s.append(digit_str_or_dec(n).as_str());
    proof {
        assert(s@ =~= pad2_digits(n as nat));
    }
    s
}

/// The three-place text of `n < 1000`.
fn pad3_string(n: u64) -> (r: String)
    requires
        n < 1000,
    ensures
        r@ == pad3_digits(n as nat),
{
    let mut s = String::new();
    proof {
        reveal_strlit("0");
        reveal_strlit("00");
    }
    if n < 10 {
        s.append("00");
    } else if n < 100 {
        s.append("0");
    }
    s.append(digit_str_or_dec(n).as_str());
    proof {
        assert(s@ =~= pad3_digits(n as nat));
    }
    s
}

/// The plain decimal text of `n` (helper shared by the padded forms).
fn digit_str_or_dec(n: u64) -> (r: String)
    ensures
        r@ == dec_digits(n as nat),
{
    u64_to_dec_string(n)
}

/// The wall-clock text for `ms` elapsed milliseconds, as shown beside each
/// tick-bearing row.
pub fn tick_time_text(ms: u64) -> (r: String)
    ensures
        r@ == time_text(ms as nat),
{
    proof {
        reveal_strlit("h");
        reveal_strlit("m");
        reveal_strlit(".");
        reveal_strlit("s");
    }
    let hours = ms / 3600000;
    let minutes = (ms / 60000) % 60;
    let secs = (ms / 1000) % 60;
    let millis = ms % 1000;
    let mut s = String::new();
    if hours > 0 {
        let ht = u64_to_dec_string(hours);
        s.append(ht.as_str());
        s.append("h");
        let mt = pad2_string(minutes);
        s.append(mt.as_str());
        s.append("m");
        let st = pad2_string(secs);
        s.append(st.as_str());
    } else if minutes > 0 {
        let mt = u64_to_dec_string(minutes);
        s.append(mt.as_str());
        s.append("m");
        let st = pad2_string(secs);
        s.append(st.as_str());
    } else {
        let st = u64_to_dec_string(secs);
        s.append(st.as_str());
    }
    s.append(".");
    let mst = pad3_string(millis);
    s.append(mst.as_str());
    s.append("s");
    proof {
        assert(s@ =~= time_text(ms as nat));
    }
    s
}

} // verus!
