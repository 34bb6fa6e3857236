//! Literal byte-pattern search and length-preserving in-place replacement.
//!
//! Every pattern this library looks for is a fixed literal byte sequence, so
//! the search is the classic "first occurrence of a needle in a haystack" and
//! a patch is a splice that keeps the buffer length unchanged.

use vstd::prelude::*;

verus! {

/// The needle `n` occurs in `h` starting at index `i`.
pub open spec fn is_match_at(h: Seq<u8>, n: Seq<u8>, i: int) -> bool {
    0 <= i && i + n.len() <= h.len() && h.subrange(i, i + n.len() as int) == n
}

/// The needle occurs somewhere in the haystack.
pub open spec fn contains_pattern(h: Seq<u8>, n: Seq<u8>) -> bool {
    exists|i: int| is_match_at(h, n, i)
}

/// `i` is the first (leftmost) occurrence of `n` in `h`.
pub open spec fn is_first_match(h: Seq<u8>, n: Seq<u8>, i: int) -> bool {
    is_match_at(h, n, i) && forall|j: int| 0 <= j < i ==> !is_match_at(h, n, j)
}

/// The index of the leftmost occurrence of `n` in `h`.
pub open spec fn first_match_index(h: Seq<u8>, n: Seq<u8>) -> int {
    choose|i: int| is_first_match(h, n, i)
}

/// `b` with the `repl.len()` bytes starting at `p` overwritten by `repl`.
/// Meaningful when `0 <= p` and `p + repl.len() <= b.len()`; the result always
/// has the same length as `b`.
pub open spec fn spliced(b: Seq<u8>, p: int, repl: Seq<u8>) -> Seq<u8> {
    b.subrange(0, p) + repl + b.subrange(p + repl.len() as int, b.len() as int)
}

/// There is at most one leftmost occurrence.
pub proof fn lemma_first_match_unique(h: Seq<u8>, n: Seq<u8>, i: int, j: int)
    requires
        is_first_match(h, n, i),
        is_first_match(h, n, j),
    ensures
        i == j,
{
    if i < j {
        assert(!is_match_at(h, n, i));
    } else if j < i {
        assert(!is_match_at(h, n, j));
    }
}

/// Returns the position of the first occurrence of `needle` in `haystack`,
/// or `None` when the needle occurs nowhere.
pub fn find_first(haystack: &[u8], needle: &[u8]) -> (r: Option<usize>)
    ensures
        match r {
            Some(p) => is_first_match(haystack@, needle@, p as int),
            None => !contains_pattern(haystack@, needle@),
        },
{
    let h_len = haystack.len();
    let n_len = needle.len();
    if n_len > h_len {
        assert forall|i: int| !is_match_at(haystack@, needle@, i) by {}
        return None;
    }
    let mut i: usize = 0;
    while i <= h_len - n_len
        invariant
            n_len <= h_len,
            h_len == haystack@.len(),
            n_len == needle@.len(),
            i <= h_len - n_len + 1,
            forall|j: int| 0 <= j < i ==> !is_match_at(haystack@, needle@, j),
        decreases h_len - n_len - i + 1,
    {
        let mut j: usize = 0;
        let mut matched = true;
        while j < n_len
            invariant
                n_len <= h_len,
                h_len == haystack@.len(),
                n_len == needle@.len(),
                i <= h_len - n_len,
                j <= n_len,
                matched <==> (forall|k: int| 0 <= k < j ==> haystack@[i + k] == needle@[k]),
            decreases n_len - j,
        {
            if haystack[i + j] != needle[j] {
                matched = false;
                j = n_len;
            } else {
                j = j + 1;
            }
        }
        if matched {
            assert(haystack@.subrange(i as int, i + n_len as int) =~= needle@);
            return Some(i);
        }
        assert(!is_match_at(haystack@, needle@, i as int)) by {
            if is_match_at(haystack@, needle@, i as int) {
                let k = choose|k: int| 0 <= k < n_len && haystack@[i + k] != needle@[k];
                assert(haystack@.subrange(i as int, i + n_len as int)[k] == needle@[k]);
            }
        }
        i = i + 1;
    }
    assert forall|j: int| !is_match_at(haystack@, needle@, j) by {
        if 0 <= j && j + n_len <= h_len {
            assert(!is_match_at(haystack@, needle@, j));
        }
    }
    None
}

/// Overwrites `repl.len()` bytes of `b` starting at `start` with `repl`.
pub fn write_range(b: &mut Vec<u8>, start: usize, repl: &Vec<u8>)
    requires
        start + repl@.len() <= old(b)@.len(),
    ensures
        final(b)@ == spliced(old(b)@, start as int, repl@),
{
    let b_len = b.len();
    let mut k: usize = 0;
    while k < repl.len()
        invariant
            start + repl@.len() <= b@.len(),
            b@.len() == b_len,
            b@.len() == old(b)@.len(),
            k <= repl@.len(),
            forall|m: int| 0 <= m < k ==> #[trigger] b@[start + m] == repl@[m],
            forall|m: int| 0 <= m < b@.len() && !(start <= m < start + repl@.len())
                ==> b@[m] == old(b)@[m],
            forall|m: int| k <= m < repl@.len() ==> #[trigger] b@[start + m] == old(b)@[start + m],
        decreases repl@.len() - k,
    {
        let v = repl[k];
        b[start + k] = v;
        k = k + 1;
    }
    assert forall|m: int| 0 <= m < b@.len() implies b@[m] == spliced(old(b)@, start as int, repl@)[m] by {
        if start <= m < start + repl@.len() {
            assert(b@[start + (m - start)] == repl@[m - start]);
        }
    }
    assert(b@ =~= spliced(old(b)@, start as int, repl@));
}

/// The needle `n`, laid at offset `off` relative to `r`, agrees with `r`
/// wherever the two overlap.
pub open spec fn aligned_agrees(n: Seq<u8>, off: int, r: Seq<u8>) -> bool {
    forall|i: int| #![trigger n[i]] 0 <= i < n.len() && 0 <= off + i < r.len() ==> n[i] == r[off + i]
}

/// Overwriting an occurrence of `pat` by `repl` can never manufacture a new
/// occurrence of `n`: wherever `n` agrees with the replacement under some
/// alignment, it agrees with the original pattern under the same alignment.
pub open spec fn patch_compat(pat: Seq<u8>, repl: Seq<u8>, n: Seq<u8>) -> bool {
    forall|off: int| #[trigger] aligned_agrees(n, off, repl) ==> aligned_agrees(n, off, pat)
}

/// Any occurrence of `n` after splicing `repl` over an occurrence of `pat`
/// was already an occurrence of `n` before the splice, provided the
/// replacement is compatible with `n` (see [`patch_compat`]).
pub proof fn lemma_match_after_splice(
    old_b: Seq<u8>,
    p: int,
    pat: Seq<u8>,
    repl: Seq<u8>,
    n: Seq<u8>,
    q: int,
)
    requires
        pat.len() == repl.len(),
        is_match_at(old_b, pat, p),
        patch_compat(pat, repl, n),
        is_match_at(spliced(old_b, p, repl), n, q),
    ensures
        is_match_at(old_b, n, q),
{
    let new_b = spliced(old_b, p, repl);
    let l = pat.len() as int;
    let nl = n.len() as int;
    assert(new_b.len() == old_b.len());
    assert forall|j: int| 0 <= j < p || p + l <= j < old_b.len() implies new_b[j] == old_b[j] by {}
    assert forall|j: int| p <= j < p + l implies new_b[j] == repl[j - p] by {}
    assert forall|i: int| 0 <= i < nl implies n[i] == new_b[q + i] by {
        assert(new_b.subrange(q, q + nl)[i] == new_b[q + i]);
    }
    assert(aligned_agrees(n, q - p, repl)) by {
        assert forall|i: int| 0 <= i < n.len() && 0 <= (q - p) + i < repl.len() implies n[i]
            == repl[(q - p) + i] by {
            assert(n[i] == new_b[q + i]);
        }
    }
    assert(aligned_agrees(n, q - p, pat));
    assert forall|i: int| 0 <= i < nl implies old_b[q + i] == n[i] by {
        if p <= q + i < p + l {
            assert(old_b.subrange(p, p + l)[q + i - p] == old_b[q + i]);
            assert(old_b[q + i] == pat[(q - p) + i]);
            assert(n[i] == pat[(q - p) + i]);
        } else {
            assert(old_b[q + i] == new_b[q + i]);
        }
    }
    assert(old_b.subrange(q, q + nl) =~= n);
}

/// After splicing `repl` over the only occurrence of `pat`, and provided the
/// replacement differs from the pattern and is compatible with it, the
/// pattern occurs nowhere any more.
pub proof fn lemma_splice_removes_unique_match(old_b: Seq<u8>, p: int, pat: Seq<u8>, repl: Seq<u8>)
    requires
        pat.len() == repl.len(),
        is_match_at(old_b, pat, p),
        forall|j: int| j != p ==> !is_match_at(old_b, pat, j),
        repl != pat,
        patch_compat(pat, repl, pat),
    ensures
        !contains_pattern(spliced(old_b, p, repl), pat),
{
    let new_b = spliced(old_b, p, repl);
    let l = pat.len() as int;
    assert forall|q: int| !is_match_at(new_b, pat, q) by {
        if is_match_at(new_b, pat, q) {
            lemma_match_after_splice(old_b, p, pat, repl, pat, q);
            assert(q == p);
            assert forall|j: int| 0 <= j < l implies pat[j] == repl[j] by {
                assert(new_b.subrange(p, p + l)[j] == new_b[p + j]);
                assert(new_b[p + j] == repl[j]);
            }
            assert(repl =~= pat);
        }
    }
}

/// Splicing `repl` over an occurrence of `pat` introduces no occurrence of a
/// needle that was absent before, provided the replacement is compatible
/// with that needle.
pub proof fn lemma_splice_adds_no_match(
    old_b: Seq<u8>,
    p: int,
    pat: Seq<u8>,
    repl: Seq<u8>,
    n: Seq<u8>,
)
    requires
        pat.len() == repl.len(),
        is_match_at(old_b, pat, p),
        !contains_pattern(old_b, n),
        patch_compat(pat, repl, n),
    ensures
        !contains_pattern(spliced(old_b, p, repl), n),
{
    let new_b = spliced(old_b, p, repl);
    assert forall|q: int| !is_match_at(new_b, n, q) by {
        if is_match_at(new_b, n, q) {
            lemma_match_after_splice(old_b, p, pat, repl, n, q);
        }
    }
}

} // verus!
