//! Small verified string helpers: decimal rendering and path truncation.

use vstd::prelude::*;
use vstd::string::StrSliceExecFns;
use vstd::string::StringExecFns;

verus! {

/// The decimal digit character for a value below ten.
pub open spec fn digit_char(d: int) -> char {
    if d == 0 {
        '0'
    } else if d == 1 {
        '1'
    } else if d == 2 {
        '2'
    } else if d == 3 {
        '3'
    } else if d == 4 {
        '4'
    } else if d == 5 {
        '5'
    } else if d == 6 {
        '6'
    } else if d == 7 {
        '7'
    } else if d == 8 {
        '8'
    } else {
        '9'
    }
}

/// The decimal rendering of a non-negative integer.
pub open spec fn dec_spec(n: int) -> Seq<char>
    decreases n,
{
    if n < 0 {
        Seq::empty()
    } else if n < 10 {
        seq![digit_char(n)]
    } else {
        dec_spec(n / 10).push(digit_char(n % 10))
    }
}

fn digit_literal(d: u64) -> (s: &'static str)
    requires
        d < 10,
    ensures
        s@ == seq![digit_char(d as int)],
{
    proof {
        reveal_strlit("0");
        reveal_strlit("1");
        reveal_strlit("2");
        reveal_strlit("3");
        reveal_strlit("4");
        reveal_strlit("5");
        reveal_strlit("6");
        reveal_strlit("7");
        reveal_strlit("8");
        reveal_strlit("9");
    }
    if d == 0 {
        proof { assert("0"@ =~= seq![digit_char(0)]); }
        "0"
    } else if d == 1 {
        proof { assert("1"@ =~= seq![digit_char(1)]); }
        "1"
    } else if d == 2 {
        proof { assert("2"@ =~= seq![digit_char(2)]); }
        "2"
    } else if d == 3 {
        proof { assert("3"@ =~= seq![digit_char(3)]); }
        "3"
    } else if d == 4 {
        proof { assert("4"@ =~= seq![digit_char(4)]); }
        "4"
    } else if d == 5 {
        proof { assert("5"@ =~= seq![digit_char(5)]); }
        "5"
    } else if d == 6 {
        proof { assert("6"@ =~= seq![digit_char(6)]); }
        "6"
    } else if d == 7 {
        proof { assert("7"@ =~= seq![digit_char(7)]); }
        "7"
    } else if d == 8 {
        proof { assert("8"@ =~= seq![digit_char(8)]); }
        "8"
    } else {
        proof { assert("9"@ =~= seq![digit_char(9)]); }
        "9"
    }
}

/// Renders an integer in decimal.
pub fn u64_dec(n: u64) -> (s: String)
    ensures
        s@ == dec_spec(n as int),
    decreases n,
{
    if n < 10 {
        let s = digit_literal(n).to_owned();
        s
    } else {
        let mut s = u64_dec(n / 10);
        s.append(digit_literal(n % 10));
        proof {
            assert(s@ =~= dec_spec(n as int));
        }
        s
    }
}

/// The path shortened to at most `max_len` characters, keeping the tail and
/// marking the cut with a leading ellipsis.
pub open spec fn truncate_path_spec(p: Seq<char>, max_len: int) -> Seq<char> {
    if p.len() <= max_len {
        p
    } else {
        let avail = if max_len >= 3 { max_len - 3 } else { 0 };
        "..."@ + p.subrange(p.len() - avail, p.len() as int)
    }
}

/// Truncate a path to fit a column width, counting characters, not bytes.
pub fn truncate_path(path: &str, max_len: usize) -> (r: String)
    ensures
        r@ == truncate_path_spec(path@, max_len as int),
{
    let char_count = path.unicode_len();
    if char_count <= max_len {
        path.to_owned()
    } else {
        let avail: usize = if max_len >= 3 { max_len - 3 } else { 0 };
        let suffix = path.substring_char(char_count - avail, char_count);
        let mut s = "...".to_owned();
        s.append(suffix);
        proof {
            assert(s@ =~= truncate_path_spec(path@, max_len as int));
        }
        s
    }
}

} // verus!
