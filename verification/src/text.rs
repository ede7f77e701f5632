//! Character-level building blocks for the JSON renderer: string escaping
//! exactly as the JSON grammar demands it, decimal rendering of integers,
//! and whole-string comparison.

use vstd::prelude::*;
use vstd::string::StrSliceExecFns;
use vstd::string::StringExecFns;

verus! {

/// The escape text for a control character (code point below 0x20), as JSON
/// requires: the short escapes where the grammar has them, `\u00XX` with
/// lower-case hex digits otherwise.  Empty for any other code point.
pub open spec fn control_escape(n: u32) -> Seq<char> {
    if n == 0x00 { "\\u0000"@ }
    else if n == 0x01 { "\\u0001"@ }
    else if n == 0x02 { "\\u0002"@ }
    else if n == 0x03 { "\\u0003"@ }
    else if n == 0x04 { "\\u0004"@ }
    else if n == 0x05 { "\\u0005"@ }
    else if n == 0x06 { "\\u0006"@ }
    else if n == 0x07 { "\\u0007"@ }
    else if n == 0x08 { "\\b"@ }
    else if n == 0x09 { "\\t"@ }
    else if n == 0x0a { "\\n"@ }
    else if n == 0x0b { "\\u000b"@ }
    else if n == 0x0c { "\\f"@ }
    else if n == 0x0d { "\\r"@ }
    else if n == 0x0e { "\\u000e"@ }
    else if n == 0x0f { "\\u000f"@ }
    else if n == 0x10 { "\\u0010"@ }
    else if n == 0x11 { "\\u0011"@ }
    else if n == 0x12 { "\\u0012"@ }
    else if n == 0x13 { "\\u0013"@ }
    else if n == 0x14 { "\\u0014"@ }
    else if n == 0x15 { "\\u0015"@ }
    else if n == 0x16 { "\\u0016"@ }
    else if n == 0x17 { "\\u0017"@ }
    else if n == 0x18 { "\\u0018"@ }
    else if n == 0x19 { "\\u0019"@ }
    else if n == 0x1a { "\\u001a"@ }
    else if n == 0x1b { "\\u001b"@ }
    else if n == 0x1c { "\\u001c"@ }
    else if n == 0x1d { "\\u001d"@ }
    else if n == 0x1e { "\\u001e"@ }
    else if n == 0x1f { "\\u001f"@ }
    else { Seq::<char>::empty() }
}

/// What one character contributes to a JSON string body: itself, unless the
/// JSON grammar forces an escape (quote, backslash, control characters).
pub open spec fn escape_char(c: char) -> Seq<char> {
    if c == '"' { "\\\""@ }
    else if c == '\\' { "\\\\"@ }
    else if (c as u32) < 0x20 { control_escape(c as u32) }
    else { seq![c] }
}

/// A whole string escaped for use inside JSON quotes.
pub open spec fn escape_seq(s: Seq<char>) -> Seq<char>
    decreases s.len(),
{
    if s.len() == 0 {
        Seq::<char>::empty()
    } else {
        escape_seq(s.drop_last()) + escape_char(s.last())
    }
}

fn control_escape_str(n: u32) -> (r: &'static str)
    requires
        n < 0x20,
    ensures
        r@ == control_escape(n),
{
    if n == 0x00 { "\\u0000" }
    else if n == 0x01 { "\\u0001" }
    else if n == 0x02 { "\\u0002" }
    else if n == 0x03 { "\\u0003" }
    else if n == 0x04 { "\\u0004" }
    else if n == 0x05 { "\\u0005" }
    else if n == 0x06 { "\\u0006" }
    else if n == 0x07 { "\\u0007" }
    else if n == 0x08 { "\\b" }
    else if n == 0x09 { "\\t" }
    else if n == 0x0a { "\\n" }
    else if n == 0x0b { "\\u000b" }
    else if n == 0x0c { "\\f" }
    else if n == 0x0d { "\\r" }
    else if n == 0x0e { "\\u000e" }
    else if n == 0x0f { "\\u000f" }
    else if n == 0x10 { "\\u0010" }
    else if n == 0x11 { "\\u0011" }
    else if n == 0x12 { "\\u0012" }
    else if n == 0x13 { "\\u0013" }
    else if n == 0x14 { "\\u0014" }
    else if n == 0x15 { "\\u0015" }
    else if n == 0x16 { "\\u0016" }
    else if n == 0x17 { "\\u0017" }
    else if n == 0x18 { "\\u0018" }
    else if n == 0x19 { "\\u0019" }
    else if n == 0x1a { "\\u001a" }
    else if n == 0x1b { "\\u001b" }
    else if n == 0x1c { "\\u001c" }
    else if n == 0x1d { "\\u001d" }
    else if n == 0x1e { "\\u001e" }
    else { "\\u001f" }
}

/// Escape a string for use inside JSON quotes.
pub fn escape_str(s: &str) -> (r: String)
    ensures
        r@ == escape_seq(s@),
{
    let n = s.unicode_len();
    let mut out = String::new();
    let mut i: usize = 0;
    while i < n
        invariant
            n == s@.len(),
            i <= n,
            out@ == escape_seq(s@.subrange(0, i as int)),
        decreases n - i,
    {
        let c = s.get_char(i);
        if c == '"' {
            out.append("\\\"");
        } else if c == '\\' {
            out.append("\\\\");
        } else if (c as u32) < 0x20 {
            let e = control_escape_str(c as u32);
            out.append(e);
        } else {
            let piece = s.substring_char(i, i + 1);
            proof {
                assert(piece@ =~= seq![s@[i as int]]);
            }
            out.append(piece);
        }
        proof {
            assert(s@.subrange(0, i as int + 1).drop_last() =~= s@.subrange(0, i as int));
            assert(s@.subrange(0, i as int + 1).last() == s@[i as int]);
        }
        i = i + 1;
    }
    proof {
        assert(s@.subrange(0, n as int) =~= s@);
    }
    out
}

/// The decimal digit character for a value below ten; empty otherwise.
pub open spec fn digit_seq(n: u32) -> Seq<char> {
    if n == 0 { "0"@ }
    else if n == 1 { "1"@ }
    else if n == 2 { "2"@ }
    else if n == 3 { "3"@ }
    else if n == 4 { "4"@ }
    else if n == 5 { "5"@ }
    else if n == 6 { "6"@ }
    else if n == 7 { "7"@ }
    else if n == 8 { "8"@ }
    else if n == 9 { "9"@ }
    else { Seq::<char>::empty() }
}

/// The usual decimal rendering of an integer: no sign, no leading zero
/// except for zero itself.
pub open spec fn dec_rep(n: u32) -> Seq<char>
    decreases n,
{
    if n < 10 {
        digit_seq(n)
    } else {
        dec_rep(n / 10) + digit_seq(n % 10)
    }
}

fn digit_str(n: u32) -> (r: &'static str)
    requires
        n < 10,
    ensures
        r@ == digit_seq(n),
{
    if n == 0 { "0" }
    else if n == 1 { "1" }
    else if n == 2 { "2" }
    else if n == 3 { "3" }
    else if n == 4 { "4" }
    else if n == 5 { "5" }
    else if n == 6 { "6" }
    else if n == 7 { "7" }
    else if n == 8 { "8" }
    else { "9" }
}

/// Render an integer in decimal.
pub fn u32_to_dec(n: u32) -> (r: String)
    ensures
        r@ == dec_rep(n),
    decreases n,
{
    if n < 10 {
        String::from_str(digit_str(n))
    } else {
        let mut s = u32_to_dec(n / 10);
        s.append(digit_str(n % 10));
        s
    }
}

/// Character-for-character string comparison.
pub fn str_eq(a: &str, b: &str) -> (r: bool)
    ensures
        r == (a@ == b@),
{
    let na = a.unicode_len();
    let nb = b.unicode_len();
    if na != nb {
        return false;
    }
    let mut i: usize = 0;
    while i < na
        invariant
            na == a@.len(),
            na == b@.len(),
            i <= na,
            forall|j: int| 0 <= j < i ==> a@[j] == b@[j],
        decreases na - i,
    {
        if a.get_char(i) != b.get_char(i) {
            return false;
        }
        i = i + 1;
    }
    proof {
        assert(a@ =~= b@);
    }
    true
}

} // verus!
