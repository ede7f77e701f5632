//! Query-string inspection.
//!
//! A query string is a `&`-separated list of segments; a segment's key is
//! everything before its first `=` (or the whole segment).  The handler only
//! ever asks one question of it: does some segment have exactly the key
//! `pretty`?  The comparison is literal — case-sensitive, no decoding.

use vstd::prelude::*;
use vstd::string::StrSliceExecFns;

verus! {

/// The characters of `key` stand at `i` as a whole segment key: they start
/// the string or follow a `&`, and they are followed by `=`, `&`, or the end.
pub open spec fn is_key_at(q: Seq<char>, key: Seq<char>, i: int) -> bool {
    &&& 0 <= i
    &&& i + key.len() <= q.len()
    &&& q.subrange(i, i + key.len()) == key
    &&& (i == 0 || q[i - 1] == '&')
    &&& (i + key.len() == q.len() || q[i + key.len()] == '=' || q[i + key.len()] == '&')
}

/// Some segment of the query string has exactly this key.
pub open spec fn has_query_key(q: Seq<char>, key: Seq<char>) -> bool {
    exists|i: int| is_key_at(q, key, i)
}

fn match_at(q: &str, i: usize, key: &str) -> (r: bool)
    requires
        i + key@.len() <= q@.len(),
    ensures
        r == (q@.subrange(i as int, i as int + key@.len()) == key@),
{
    let nq = q.unicode_len();
    let nk = key.unicode_len();
    let mut k: usize = 0;
    while k < nk
        invariant
            nq == q@.len(),
            nk == key@.len(),
            i + nk <= nq,
            k <= nk,
            forall|j: int| 0 <= j < k ==> q@[i + j] == key@[j],
        decreases nk - k,
    {
        if q.get_char(i + k) != key.get_char(k) {
            proof {
                assert(q@.subrange(i as int, i as int + nk as int)[k as int] == q@[i as int
                    + k as int]);
            }
            return false;
        }
        k = k + 1;
    }
    proof {
        assert(q@.subrange(i as int, i as int + nk as int) =~= key@);
    }
    true
}

fn query_has_key(q: &str, key: &str) -> (r: bool)
    requires
        key@.len() > 0,
    ensures
        r == has_query_key(q@, key@),
{
    let nq = q.unicode_len();
    let nk = key.unicode_len();
    if nk > nq {
        return false;
    }
    let mut i: usize = 0;
    while i <= nq - nk
        invariant
            nq == q@.len(),
            nk == key@.len(),
            1 <= nk <= nq,
            i <= nq - nk + 1,
            forall|j: int| 0 <= j < i ==> !is_key_at(q@, key@, j),
        decreases nq - nk + 1 - i,
    {
        let before_ok: bool = if i == 0 {
            true
        } else {
            q.get_char(i - 1) == '&'
        };
        if before_ok {
            let e = i + nk;
            let after_ok: bool;
            if e == nq {
                after_ok = true;
            } else {
                let ce = q.get_char(e);
                after_ok = ce == '=' || ce == '&';
            }
            if after_ok && match_at(q, i, key) {
                proof {
                    assert(is_key_at(q@, key@, i as int));
                }
                return true;
            }
        }
        proof {
            assert(!is_key_at(q@, key@, i as int));
        }
        i = i + 1;
    }
    proof {
        assert(forall|j: int| is_key_at(q@, key@, j) ==> 0 <= j <= nq - nk);
    }
    false
}

/// Decide whether the query string carries `pretty` as a key, with or
/// without a value.
pub fn query_has_pretty(q: &str) -> (r: bool)
    ensures
        r == has_query_key(q@, "pretty"@),
{
    proof {
        reveal_strlit("pretty");
    }
    query_has_key(q, "pretty")
}

} // verus!
