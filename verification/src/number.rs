//! The JSON number grammar, and a checker for it.
//!
//! Coordinate values reach the library as already-rendered number tokens;
//! before one is spliced into a response body it must be a well-formed JSON
//! number: `-? int frac? exp?` with `int` either `0` or a digit run without a
//! leading zero, `frac` a dot followed by at least one digit, and `exp` an
//! `e`/`E`, an optional sign, and at least one digit.

use vstd::prelude::*;
use vstd::string::StrSliceExecFns;

verus! {

/// A decimal digit.
pub open spec fn is_digit(c: char) -> bool {
    48 <= c as u32 && c as u32 <= 57
}

/// The index just past the run of digits that starts at `i`.
pub open spec fn digits_end(s: Seq<char>, i: int) -> int
    decreases s.len() - i,
{
    if i < 0 || i >= s.len() || !is_digit(s[i]) {
        i
    } else {
        digits_end(s, i + 1)
    }
}

pub proof fn lemma_digits_end(s: Seq<char>, i: int)
    requires
        0 <= i <= s.len(),
    ensures
        i <= digits_end(s, i) <= s.len(),
        forall|j: int| i <= j < digits_end(s, i) ==> is_digit(s[j]),
        digits_end(s, i) < s.len() ==> !is_digit(s[digits_end(s, i)]),
    decreases s.len() - i,
{
    if i < s.len() && is_digit(s[i]) {
        lemma_digits_end(s, i + 1);
    }
}

/// Where the integer part that starts at `i` ends, if there is one:
/// a single `0`, or a run of digits that does not start with `0`.
pub open spec fn integer_end(s: Seq<char>, i: int) -> Option<int> {
    if 0 <= i < s.len() && is_digit(s[i]) {
        if s[i] == '0' {
            Some(i + 1)
        } else {
            Some(digits_end(s, i))
        }
    } else {
        None
    }
}

/// Where the (optional) fraction part that starts at `i` ends: a dot must be
/// followed by at least one digit; no dot means an empty fraction part.
pub open spec fn fraction_end(s: Seq<char>, i: int) -> Option<int> {
    if 0 <= i < s.len() && s[i] == '.' {
        if i + 1 < s.len() && is_digit(s[i + 1]) {
            Some(digits_end(s, i + 1))
        } else {
            None
        }
    } else {
        Some(i)
    }
}

/// Where the (optional) exponent part that starts at `i` ends: `e` or `E`,
/// an optional sign, then at least one digit.
pub open spec fn exponent_end(s: Seq<char>, i: int) -> Option<int> {
    if 0 <= i < s.len() && (s[i] == 'e' || s[i] == 'E') {
        let j = if i + 1 < s.len() && (s[i + 1] == '+' || s[i + 1] == '-') {
            i + 2
        } else {
            i + 1
        };
        if j < s.len() && is_digit(s[j]) {
            Some(digits_end(s, j))
        } else {
            None
        }
    } else {
        Some(i)
    }
}

/// Whether `s` is a complete JSON number token.
pub open spec fn is_json_number(s: Seq<char>) -> bool {
    let start: int = if s.len() > 0 && s[0] == '-' {
        1
    } else {
        0
    };
    match integer_end(s, start) {
        None => false,
        Some(ie) => match fraction_end(s, ie) {
            None => false,
            Some(fe) => match exponent_end(s, fe) {
                None => false,
                Some(ee) => ee == s.len(),
            },
        },
    }
}

fn is_digit_char(c: char) -> (r: bool)
    ensures
        r == is_digit(c),
{
    let u = c as u32;
    u >= 48 && u <= 57
}

fn scan_digits(s: &str, i: usize) -> (j: usize)
    requires
        i <= s@.len(),
    ensures
        j == digits_end(s@, i as int),
{
    let n = s.unicode_len();
    let mut j: usize = i;
    while j < n
        invariant
            n == s@.len(),
            i <= j <= n,
            digits_end(s@, i as int) == digits_end(s@, j as int),
        decreases n - j,
    {
        let c = s.get_char(j);
        if !is_digit_char(c) {
            return j;
        }
        j = j + 1;
    }
    j
}

/// Decide whether a string is a well-formed JSON number token.
pub fn is_json_number_token(s: &str) -> (r: bool)
    ensures
        r == is_json_number(s@),
{
    let n = s.unicode_len();
    let start: usize = if n > 0 && s.get_char(0) == '-' {
        1
    } else {
        0
    };

    if !(start < n) {
        return false;
    }
    let c0 = s.get_char(start);
    if !is_digit_char(c0) {
        return false;
    }
    let ie: usize = if c0 == '0' {
        start + 1
    } else {
        scan_digits(s, start)
    };
    proof {
        lemma_digits_end(s@, start as int);
    }

    let fe: usize;
    if ie < n && s.get_char(ie) == '.' {
        if ie + 1 < n && is_digit_char(s.get_char(ie + 1)) {
            proof {
                lemma_digits_end(s@, ie as int + 1);
            }
            fe = scan_digits(s, ie + 1);
        } else {
            return false;
        }
    } else {
        fe = ie;
    }

    let ee: usize;
    if fe < n {
        let cf = s.get_char(fe);
        if cf == 'e' || cf == 'E' {
            let j: usize = if fe + 1 < n {
                let cj = s.get_char(fe + 1);
                if cj == '+' || cj == '-' {
                    fe + 2
                } else {
                    fe + 1
                }
            } else {
                fe + 1
            };
            if j < n && is_digit_char(s.get_char(j)) {
                proof {
                    lemma_digits_end(s@, j as int);
                }
                ee = scan_digits(s, j);
            } else {
                return false;
            }
        } else {
            ee = fe;
        }
    } else {
        ee = fe;
    }

    ee == n
}

} // verus!
