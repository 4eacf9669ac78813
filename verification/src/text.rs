//! Character-sequence primitives shared by the search subsystem: case
//! folding, subsequence and substring tests, and conversions between
//! strings and character vectors.

use vstd::prelude::*;

verus! {

/// The case-folded form of a character sequence, as `str::to_lowercase`
/// computes it. The result depends on the characters alone.
pub uninterp spec fn lower_of(s: Seq<char>) -> Seq<char>;

/// Relies on `str::to_lowercase`: the Unicode-lowercased form of the string,
/// a function of the characters alone.
#[verifier::external_body]
pub(crate) fn lowercase(s: &str) -> (r: String)
    ensures
        r@ == lower_of(s@),
{
    s.to_lowercase()
}

/// Relies on `String`'s `FromIterator<char>`: the string holding exactly the
/// given characters in order.
#[verifier::external_body]
pub(crate) fn string_from_chars(v: &Vec<char>) -> (r: String)
    ensures
        r@ == v@,
{
    v.iter().collect()
}

/// The characters of a string collected into a vector.
pub(crate) fn chars_of(s: &str) -> (r: Vec<char>)
    ensures
        r@ == s@,
{
    let n = s.unicode_len();
    let mut r: Vec<char> = Vec::new();
    let mut i: usize = 0;
    while i < n
        invariant
            i <= n,
            n == s@.len(),
            r@ == s@.subrange(0, i as int),
        decreases n - i,
    {
        r.push(s.get_char(i));
        i += 1;
        proof {
            assert(r@ =~= s@.subrange(0, i as int));
        }
    }
    proof {
        assert(r@ =~= s@);
    }
    r
}

/// The string with `c` inserted at character position `i`.
pub(crate) fn insert_char_at(s: &String, i: usize, c: char) -> (r: String)
    requires
        i <= s@.len(),
    ensures
        r@ == s@.insert(i as int, c),
{
    let mut v = chars_of(s.as_str());
    v.insert(i, c);
    string_from_chars(&v)
}

/// The string with the character at position `i` removed.
pub(crate) fn remove_char_at(s: &String, i: usize) -> (r: String)
    requires
        i < s@.len(),
    ensures
        r@ == s@.remove(i as int),
{
    let mut v = chars_of(s.as_str());
    v.remove(i);
    string_from_chars(&v)
}

/// Whether every character of `q` occurs in `t` in order, not necessarily
/// contiguously (`q` is a subsequence of `t`).
pub open spec fn is_subsequence_of(q: Seq<char>, t: Seq<char>) -> bool
    decreases t.len(),
{
    if q.len() == 0 {
        true
    } else if t.len() == 0 {
        false
    } else if q.first() == t.first() {
        is_subsequence_of(q.drop_first(), t.drop_first())
    } else {
        is_subsequence_of(q, t.drop_first())
    }
}

/// Whether `idx` lists positions in `t`, in strictly increasing order,
/// at which the characters of `q` appear.
pub open spec fn is_embedding(q: Seq<char>, t: Seq<char>, idx: Seq<int>) -> bool {
    &&& idx.len() == q.len()
    &&& forall|k: int| 0 <= k < idx.len() ==> 0 <= #[trigger] idx[k] < t.len()
    &&& forall|k: int| 0 < k < idx.len() ==> idx[k - 1] < #[trigger] idx[k]
    &&& forall|k: int| 0 <= k < idx.len() ==> t[#[trigger] idx[k]] == q[k]
}

/// The greedy subsequence test agrees with the direct statement: `q` is a
/// subsequence of `t` exactly when some strictly increasing list of
/// positions embeds `q` into `t`.
pub proof fn lemma_subsequence_is_embedding(q: Seq<char>, t: Seq<char>)
    ensures
        is_subsequence_of(q, t) <==> exists|idx: Seq<int>| is_embedding(q, t, idx),
{
    if is_subsequence_of(q, t) {
        lemma_embedding_of(q, t);
        assert(is_embedding(q, t, embedding_of(q, t)));
    }
    if exists|idx: Seq<int>| is_embedding(q, t, idx) {
        let idx = choose|idx: Seq<int>| is_embedding(q, t, idx);
        lemma_embedding_implies_subsequence(q, t, idx);
    }
}

/// The positions at which the greedy match finds `q` in `t`.
spec fn embedding_of(q: Seq<char>, t: Seq<char>) -> Seq<int>
    decreases t.len(),
{
    if q.len() == 0 || t.len() == 0 {
        Seq::<int>::empty()
    } else if q.first() == t.first() {
        seq![0int] + embedding_of(q.drop_first(), t.drop_first()).map_values(|i: int| i + 1)
    } else {
        embedding_of(q, t.drop_first()).map_values(|i: int| i + 1)
    }
}

/// The greedy match's positions embed `q` into `t`.
proof fn lemma_embedding_of(q: Seq<char>, t: Seq<char>)
    requires
        is_subsequence_of(q, t),
    ensures
        is_embedding(q, t, embedding_of(q, t)),
    decreases t.len(),
{
    if q.len() == 0 || t.len() == 0 {
    } else if q.first() == t.first() {
        lemma_embedding_of(q.drop_first(), t.drop_first());
        let inner = embedding_of(q.drop_first(), t.drop_first());
        let idx = seq![0int] + inner.map_values(|i: int| i + 1);
        assert forall|k: int| 0 <= k < idx.len() implies t[#[trigger] idx[k]] == q[k] by {
            if k > 0 {
                assert(idx[k] == inner[k - 1] + 1);
                assert(t.drop_first()[inner[k - 1]] == q.drop_first()[k - 1]);
            }
        }
        assert(is_embedding(q, t, idx));
    } else {
        lemma_embedding_of(q, t.drop_first());
        let inner = embedding_of(q, t.drop_first());
        let idx = inner.map_values(|i: int| i + 1);
        assert forall|k: int| 0 <= k < idx.len() implies t[#[trigger] idx[k]] == q[k] by {
            assert(idx[k] == inner[k] + 1);
            assert(t.drop_first()[inner[k]] == q[k]);
        }
        assert(is_embedding(q, t, idx));
    }
}

/// Any embedding witnesses the greedy subsequence test.
proof fn lemma_embedding_implies_subsequence(q: Seq<char>, t: Seq<char>, idx: Seq<int>)
    requires
        is_embedding(q, t, idx),
    ensures
        is_subsequence_of(q, t),
    decreases t.len(),
{
    if q.len() == 0 {
    } else {
        assert(idx.len() == q.len());
        assert(0 <= idx[0] < t.len());
        assert forall|k: int| 0 <= k < idx.len() implies idx[k] >= k by {
            lemma_embedding_indices_grow(idx, k);
        }
        if idx[0] == 0 {
            assert(q.first() == t.first());
            let inner = idx.drop_first().map_values(|i: int| i - 1);
            assert forall|k: int| 0 <= k < inner.len() implies 0 <= #[trigger] inner[k]
                < t.drop_first().len() && t.drop_first()[inner[k]] == q.drop_first()[k] by {
                assert(inner[k] == idx[k + 1] - 1);
                assert(idx[k + 1] >= k + 1);
            }
            assert(is_embedding(q.drop_first(), t.drop_first(), inner));
            lemma_embedding_implies_subsequence(q.drop_first(), t.drop_first(), inner);
        } else {
            let inner = idx.map_values(|i: int| i - 1);
            assert forall|k: int| 0 <= k < inner.len() implies 0 <= #[trigger] inner[k]
                < t.drop_first().len() && t.drop_first()[inner[k]] == q[k] by {
                assert(inner[k] == idx[k] - 1);
                lemma_idx_monotone(idx, 0, k);
                assert(idx[k] > 0);
            }
            assert(is_embedding(q, t.drop_first(), inner));
            lemma_embedding_implies_subsequence(q, t.drop_first(), inner);
            lemma_subsequence_skip(q, t);
        }
    }
}

/// Positions listed in strictly increasing order never fall back below an
/// earlier one.
proof fn lemma_idx_monotone(idx: Seq<int>, a: int, b: int)
    requires
        0 <= a <= b < idx.len(),
        forall|j: int| 0 < j < idx.len() ==> idx[j - 1] < #[trigger] idx[j],
    ensures
        idx[a] <= idx[b],
    decreases b - a,
{
    if a < b {
        lemma_idx_monotone(idx, a, b - 1);
    }
}

/// Strictly increasing nonnegative positions grow at least as fast as
/// their rank.
proof fn lemma_embedding_indices_grow(idx: Seq<int>, k: int)
    requires
        0 <= k < idx.len(),
        forall|j: int| 0 <= j < idx.len() ==> 0 <= #[trigger] idx[j],
        forall|j: int| 0 < j < idx.len() ==> idx[j - 1] < #[trigger] idx[j],
    ensures
        idx[k] >= k,
    decreases k,
{
    if k > 0 {
        lemma_embedding_indices_grow(idx, k - 1);
    }
}

/// A subsequence of the tail is a subsequence of the whole.
pub(crate) proof fn lemma_subsequence_skip(q: Seq<char>, t: Seq<char>)
    requires
        t.len() > 0,
        is_subsequence_of(q, t.drop_first()),
    ensures
        is_subsequence_of(q, t),
{
    if q.len() == 0 {
    } else if q.first() == t.first() {
        lemma_subsequence_drop_first(q, t.drop_first());
    } else {
    }
}

/// A subsequence stays one when the query loses its first character.
pub(crate) proof fn lemma_subsequence_drop_first(q: Seq<char>, t: Seq<char>)
    requires
        q.len() > 0,
        is_subsequence_of(q, t),
    ensures
        is_subsequence_of(q.drop_first(), t),
    decreases t.len(),
{
    if q.first() == t.first() {
        if q.drop_first().len() == 0 {
        } else if q.drop_first().first() == t.first() {
            lemma_subsequence_drop_first(q.drop_first(), t.drop_first());
        } else {
        }
    } else {
        lemma_subsequence_drop_first(q, t.drop_first());
        if q.drop_first().len() == 0 {
        } else if q.drop_first().first() == t.first() {
            lemma_subsequence_drop_first(q.drop_first(), t.drop_first());
        } else {
        }
    }
}

/// Whether `q` occurs contiguously somewhere in `t`.
pub open spec fn is_substring_of(q: Seq<char>, t: Seq<char>) -> bool {
    exists|i: int|
        0 <= i && i + q.len() <= t.len() && #[trigger] t.subrange(i, i + q.len() as int) == q
}

/// Greedy subsequence check, mirroring the spec definition.
pub(crate) fn is_subsequence(q: &Vec<char>, t: &Vec<char>) -> (r: bool)
    ensures
        r == is_subsequence_of(q@, t@),
{
    let ghost qs = q@;
    let ghost ts = t@;
    let mut qi: usize = 0;
    let mut ti: usize = 0;
    proof {
        assert(qs.subrange(0, qs.len() as int) =~= qs);
        assert(ts.subrange(0, ts.len() as int) =~= ts);
    }
    while qi < q.len() && ti < t.len()
        invariant
            qi <= q.len(),
            ti <= t.len(),
            qs == q@,
            ts == t@,
            is_subsequence_of(qs, ts) == is_subsequence_of(
                qs.subrange(qi as int, qs.len() as int),
                ts.subrange(ti as int, ts.len() as int),
            ),
        decreases t.len() - ti,
    {
        proof {
            let qrest = qs.subrange(qi as int, qs.len() as int);
            let trest = ts.subrange(ti as int, ts.len() as int);
            assert(qrest.len() > 0 && trest.len() > 0);
            assert(qrest.first() == qs[qi as int]);
            assert(trest.first() == ts[ti as int]);
            assert(qrest.drop_first() =~= qs.subrange(qi as int + 1, qs.len() as int));
            assert(trest.drop_first() =~= ts.subrange(ti as int + 1, ts.len() as int));
        }
        if q[qi] == t[ti] {
            qi += 1;
            ti += 1;
        } else {
            ti += 1;
        }
    }
    proof {
        let qrest = qs.subrange(qi as int, qs.len() as int);
        let trest = ts.subrange(ti as int, ts.len() as int);
        if qi == q.len() {
            assert(qrest.len() == 0);
            assert(is_subsequence_of(qrest, trest));
        } else {
            assert(trest.len() == 0 && qrest.len() > 0);
            assert(!is_subsequence_of(qrest, trest));
        }
    }
    qi == q.len()
}

/// Element-wise equality of two character vectors.
pub(crate) fn chars_eq(a: &Vec<char>, b: &Vec<char>) -> (r: bool)
    ensures
        r == (a@ == b@),
{
    if a.len() != b.len() {
        proof {
            assert(a@.len() != b@.len());
        }
        return false;
    }
    let mut i: usize = 0;
    while i < a.len()
        invariant
            i <= a.len(),
            a@.len() == b@.len(),
            forall|j: int| 0 <= j < i ==> a@[j] == b@[j],
        decreases a.len() - i,
    {
        if a[i] != b[i] {
            return false;
        }
        i += 1;
    }
    proof {
        assert(a@ =~= b@);
    }
    true
}

/// Whether `q` is a prefix of `t`, by direct comparison.
pub(crate) fn chars_prefix(q: &Vec<char>, t: &Vec<char>) -> (r: bool)
    ensures
        r == q@.is_prefix_of(t@),
{
    if q.len() > t.len() {
        return false;
    }
    let mut i: usize = 0;
    while i < q.len()
        invariant
            i <= q.len(),
            q@.len() <= t@.len(),
            forall|j: int| 0 <= j < i ==> q@[j] == t@[j],
        decreases q.len() - i,
    {
        if q[i] != t[i] {
            proof {
                assert(t@.subrange(0, q@.len() as int)[i as int] == t@[i as int]);
            }
            return false;
        }
        i += 1;
    }
    proof {
        assert(q@ =~= t@.subrange(0, q@.len() as int));
    }
    true
}

/// Whether `q` occurs contiguously in `t`, by scanning every start position.
pub(crate) fn chars_contains(q: &Vec<char>, t: &Vec<char>) -> (r: bool)
    ensures
        r == is_substring_of(q@, t@),
{
    if q.len() == 0 {
        proof {
            assert(t@.subrange(0, 0 + q@.len() as int) =~= q@);
        }
        return true;
    }
    if q.len() > t.len() {
        proof {
            assert(!is_substring_of(q@, t@));
        }
        return false;
    }
    let bound: usize = t.len() - q.len();
    let mut i: usize = 0;
    while i <= bound
        invariant
            1 <= q@.len() <= t@.len(),
            t@.len() <= usize::MAX,
            bound == t@.len() - q@.len(),
            i <= bound + 1,
            forall|s: int| 0 <= s < i ==> #[trigger] t@.subrange(s, s + q@.len() as int) != q@,
        decreases bound + 1 - i,
    {
        let mut k: usize = 0;
        let mut hit = true;
        while k < q.len()
            invariant
                k <= q@.len(),
                i + q@.len() <= t@.len(),
                t@.len() <= usize::MAX,
                hit ==> forall|j: int| 0 <= j < k ==> q@[j] == t@[i + j],
                !hit ==> t@.subrange(i as int, i + q@.len() as int) != q@,
            decreases q@.len() - k,
        {
            if q[k] != t[i + k] {
                proof {
                    assert(t@.subrange(i as int, i + q@.len() as int)[k as int] == t@[i
                        + k as int]);
                }
                hit = false;
                k = q.len();
            } else {
                k += 1;
            }
        }
        if hit {
            proof {
                assert(t@.subrange(i as int, i + q@.len() as int) =~= q@);
            }
            return true;
        }
        i += 1;
    }
    proof {
        assert forall|s: int| 0 <= s && s + q@.len() <= t@.len() implies #[trigger] t@.subrange(
            s,
            s + q@.len() as int,
        ) != q@ by {
            assert(s < i);
        }
    }
    false
}

} // verus!
