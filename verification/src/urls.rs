//! Decimal rendering and the fixed URL and file-name shapes of the archive.
//!
//! The archive is queried with
//! `https://www.bing.com/HPImageArchive.aspx?format=js&idx={offset}&n=1`;
//! a record's relative path is resolved against the fixed origin
//! `https://bing.com`; output files are named `{offset}.jpg`.

use vstd::prelude::*;
use vstd::string::StringExecFns;

verus! {

/// The character for the single decimal digit `d`.
pub open spec fn digit_char(d: int) -> char {
    if d == 0 {
        '0'
    } else if d == 1 {
        '1'
    } else if d == 2 {
        '2'
    } else if d == 3 {
        '3'
    } else if d == 4 {
        '4'
    } else if d == 5 {
        '5'
    } else if d == 6 {
        '6'
    } else if d == 7 {
        '7'
    } else if d == 8 {
        '8'
    } else {
        '9'
    }
}

/// The decimal representation of a non-negative integer, most significant
/// digit first, with no leading zeros (and `0` written as one digit).
pub open spec fn dec_rep(n: int) -> Seq<char>
    decreases n,
{
    if n < 10 {
        seq![digit_char(n)]
    } else {
        dec_rep(n / 10).push(digit_char(n % 10))
    }
}

/// A one-character string slice for the digit `d`.
fn digit_str(d: u64) -> (s: &'static str)
    requires
        d < 10,
    ensures
        s@ == seq![digit_char(d as int)],
{
    let s: &'static str = if d == 0 {
        "0"
    } else if d == 1 {
        "1"
    } else if d == 2 {
        "2"
    } else if d == 3 {
        "3"
    } else if d == 4 {
        "4"
    } else if d == 5 {
        "5"
    } else if d == 6 {
        "6"
    } else if d == 7 {
        "7"
    } else if d == 8 {
        "8"
    } else {
        "9"
    };
    proof {
        reveal_strlit("0");
        reveal_strlit("1");
        reveal_strlit("2");
        reveal_strlit("3");
        reveal_strlit("4");
        reveal_strlit("5");
        reveal_strlit("6");
        reveal_strlit("7");
        reveal_strlit("8");
        reveal_strlit("9");
        assert(s@ =~= seq![digit_char(d as int)]);
    }
    s
}

/// Renders a non-negative integer in decimal.
pub fn u64_dec(n: u64) -> (s: String)
    ensures
        s@ == dec_rep(n as int),
    decreases n,
{
    if n < 10 {
        digit_str(n).to_owned()
    } else {
        let mut s = u64_dec(n / 10);
        s.append(digit_str(n % 10));
        proof {
            assert(s@ =~= dec_rep(n as int));
        }
        s
    }
}

/// The decimal representation of any integer: a minus sign before the
/// magnitude for negative values.
pub open spec fn int_dec(n: int) -> Seq<char> {
    if n < 0 {
        seq!['-'] + dec_rep(-n)
    } else {
        dec_rep(n)
    }
}

/// Renders a signed integer in decimal.
pub fn i64_dec(n: i64) -> (s: String)
    ensures
        s@ == int_dec(n as int),
{
    if n >= 0 {
        u64_dec(n as u64)
    } else {
        let mag: u64 = ((-(n + 1)) as u64) + 1;
        let mut s: String = "-".to_owned();
        s.append(u64_dec(mag).as_str());
        proof {
            reveal_strlit("-");
            assert(mag as int == -(n as int));
            assert(s@ =~= int_dec(n as int));
        }
        s
    }
}

/// The archive query URL for a day offset: asks for exactly one record at
/// that offset in the JSON response mode.
pub open spec fn archive_query_url_spec(idx: int) -> Seq<char> {
    "https://www.bing.com/HPImageArchive.aspx?format=js&idx="@ + dec_rep(idx) + "&n=1"@
}

/// Builds the archive query URL for the day offset `idx`.
pub fn archive_query_url(idx: i64) -> (u: String)
    requires
        0 <= idx,
    ensures
        u@ == archive_query_url_spec(idx as int),
{
    let mut s: String = "https://www.bing.com/HPImageArchive.aspx?format=js&idx=".to_owned();
    let digits = u64_dec(idx as u64);
    s.append(digits.as_str());
    s.append("&n=1");
    proof {
        assert(s@ =~= archive_query_url_spec(idx as int));
    }
    s
}

/// A record's relative path joined onto the fixed image origin, with no
/// path normalization.
pub open spec fn resolved_url_spec(rel: Seq<char>) -> Seq<char> {
    "https://bing.com"@ + rel
}

/// Resolves a record's relative path against the fixed image origin.
pub fn resolve_image_url(rel: &str) -> (u: String)
    ensures
        u@ == resolved_url_spec(rel@),
{
    let mut s: String = "https://bing.com".to_owned();
    s.append(rel);
    s
}

/// The output file name for a day offset: the offset in decimal with a
/// `.jpg` suffix.
pub open spec fn output_file_name_spec(idx: int) -> Seq<char> {
    dec_rep(idx) + ".jpg"@
}

/// Builds the output file name for the day offset `idx`.
pub fn output_file_name(idx: i64) -> (nm: String)
    requires
        0 <= idx,
    ensures
        nm@ == output_file_name_spec(idx as int),
{
    let mut s = u64_dec(idx as u64);
    s.append(".jpg");
    s
}

} // verus!
