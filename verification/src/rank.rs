//! Stable descending ranking: the order that repeated stable insertion by
//! score produces, together with the lemmas that tie an insertion position
//! found by scanning to the specification.

use vstd::prelude::*;

verus! {

/// `x` placed after every element whose score is at least its own: the
/// stable insertion position for a descending order.
pub open spec fn insert_ranked<T>(s: Seq<T>, x: T, score: spec_fn(T) -> int) -> Seq<T>
    decreases s.len(),
{
    if s.len() == 0 {
        seq![x]
    } else if score(s.first()) >= score(x) {
        seq![s.first()] + insert_ranked(s.drop_first(), x, score)
    } else {
        seq![x] + s
    }
}

/// The sequence stably sorted by descending score: each element inserted in
/// turn behind its equals.
pub open spec fn rank_sorted<T>(s: Seq<T>, score: spec_fn(T) -> int) -> Seq<T>
    decreases s.len(),
{
    if s.len() == 0 {
        Seq::<T>::empty()
    } else {
        insert_ranked(rank_sorted(s.drop_last(), score), s.last(), score)
    }
}

/// Scores never increase along the sequence.
pub open spec fn sorted_desc_by<T>(s: Seq<T>, score: spec_fn(T) -> int) -> bool {
    forall|i: int, j: int| 0 <= i < j < s.len() ==> score(s[i]) >= score(s[j])
}

/// Stable insertion grows the sequence by exactly one element.
pub proof fn lemma_insert_ranked_len<T>(s: Seq<T>, x: T, score: spec_fn(T) -> int)
    ensures
        insert_ranked(s, x, score).len() == s.len() + 1,
    decreases s.len(),
{
    if s.len() == 0 {
    } else if score(s.first()) >= score(x) {
        lemma_insert_ranked_len(s.drop_first(), x, score);
    } else {
    }
}

/// Ranking keeps the length.
pub proof fn lemma_rank_sorted_len<T>(s: Seq<T>, score: spec_fn(T) -> int)
    ensures
        rank_sorted(s, score).len() == s.len(),
    decreases s.len(),
{
    if s.len() == 0 {
    } else {
        lemma_rank_sorted_len(s.drop_last(), score);
        lemma_insert_ranked_len(rank_sorted(s.drop_last(), score), s.last(), score);
    }
}

/// Inserting at the first position whose score falls below the new
/// element's is exactly `insert_ranked`.
pub proof fn lemma_insert_ranked_at<T>(s: Seq<T>, x: T, score: spec_fn(T) -> int, p: int)
    requires
        0 <= p <= s.len(),
        forall|i: int| 0 <= i < p ==> score(#[trigger] s[i]) >= score(x),
        p < s.len() ==> score(s[p]) < score(x),
    ensures
        insert_ranked(s, x, score) == s.subrange(0, p) + seq![x] + s.subrange(p, s.len() as int),
    decreases s.len(),
{
    if p == 0 {
        if s.len() == 0 {
            assert(insert_ranked(s, x, score) =~= s.subrange(0, 0) + seq![x] + s.subrange(0, 0));
        } else {
            assert(score(s[0]) < score(x));
            assert(insert_ranked(s, x, score) =~= s.subrange(0, 0) + seq![x] + s.subrange(
                0,
                s.len() as int,
            ));
        }
    } else {
        assert(score(s.first()) >= score(x));
        let t = s.drop_first();
        assert(forall|i: int| 0 <= i < p - 1 ==> score(#[trigger] t[i]) >= score(x));
        assert(p - 1 < t.len() ==> score(t[p - 1]) < score(x));
        lemma_insert_ranked_at(t, x, score, p - 1);
        assert(insert_ranked(s, x, score) =~= s.subrange(0, p) + seq![x] + s.subrange(
            p,
            s.len() as int,
        ));
    }
}

/// Stable insertion keeps the order sorted.
pub proof fn lemma_insert_ranked_sorted<T>(s: Seq<T>, x: T, score: spec_fn(T) -> int)
    requires
        sorted_desc_by(s, score),
    ensures
        sorted_desc_by(insert_ranked(s, x, score), score),
    decreases s.len(),
{
    if s.len() == 0 {
    } else if score(s.first()) >= score(x) {
        assert(sorted_desc_by(s.drop_first(), score)) by {
            assert(forall|i: int, j: int|
                0 <= i < j < s.drop_first().len() ==> score(#[trigger] s.drop_first()[i])
                    >= score(#[trigger] s.drop_first()[j]));
        }
        lemma_insert_ranked_sorted(s.drop_first(), x, score);
        let r = insert_ranked(s, x, score);
        let rt = insert_ranked(s.drop_first(), x, score);
        assert forall|i: int, j: int| 0 <= i < j < r.len() implies score(r[i]) >= score(
            r[j],
        ) by {
            if i == 0 {
                assert(r[0] == s.first());
                assert(r[j] == rt[j - 1]);
                lemma_insert_ranked_element(s.drop_first(), x, score, j - 1);
                if rt[j - 1] == x {
                    assert(score(s.first()) >= score(x));
                } else {
                    assert(exists|k: int|
                        0 <= k < s.drop_first().len() && s.drop_first()[k] == rt[j - 1]);
                    let k = choose|k: int|
                        0 <= k < s.drop_first().len() && s.drop_first()[k] == rt[j - 1];
                    assert(s.drop_first()[k] == s[k + 1]);
                    assert(score(s[0]) >= score(s[k + 1]));
                }
            } else {
                assert(r[i] == rt[i - 1] && r[j] == rt[j - 1]);
            }
        }
    } else {
    }
}

/// Every element of a stable insertion is the new element or one of the
/// original sequence.
proof fn lemma_insert_ranked_element<T>(s: Seq<T>, x: T, score: spec_fn(T) -> int, i: int)
    requires
        0 <= i < insert_ranked(s, x, score).len(),
    ensures
        insert_ranked(s, x, score)[i] == x || exists|k: int|
            0 <= k < s.len() && s[k] == insert_ranked(s, x, score)[i],
    decreases s.len(),
{
    if s.len() == 0 {
    } else if score(s.first()) >= score(x) {
        if i == 0 {
            assert(s[0] == insert_ranked(s, x, score)[0]);
        } else {
            lemma_insert_ranked_element(s.drop_first(), x, score, i - 1);
            let r = insert_ranked(s, x, score);
            let rt = insert_ranked(s.drop_first(), x, score);
            assert(r[i] == rt[i - 1]);
            if rt[i - 1] == x {
            } else {
                let k = choose|k: int| 0 <= k < s.drop_first().len() && s.drop_first()[k] == rt[i - 1];
                assert(s[k + 1] == rt[i - 1]);
            }
        }
    } else {
        if i == 0 {
        } else {
            assert(insert_ranked(s, x, score)[i] == s[i - 1]);
        }
    }
}

/// The ranked order is sorted by descending score.
pub proof fn lemma_rank_sorted_sorted<T>(s: Seq<T>, score: spec_fn(T) -> int)
    ensures
        sorted_desc_by(rank_sorted(s, score), score),
    decreases s.len(),
{
    if s.len() == 0 {
    } else {
        lemma_rank_sorted_sorted(s.drop_last(), score);
        lemma_insert_ranked_sorted(rank_sorted(s.drop_last(), score), s.last(), score);
    }
}

/// Stable insertion adds exactly the new element.
proof fn lemma_insert_ranked_multiset<T>(s: Seq<T>, x: T, score: spec_fn(T) -> int)
    ensures
        insert_ranked(s, x, score).to_multiset() == s.to_multiset().insert(x),
    decreases s.len(),
{
    broadcast use vstd::seq_lib::group_seq_properties;

    if s.len() == 0 {
        assert(seq![x] =~= Seq::<T>::empty().push(x));
        assert(Seq::<T>::empty().push(x).to_multiset() =~= Seq::<T>::empty().to_multiset().insert(
            x,
        ));
        assert(s.to_multiset() =~= Seq::<T>::empty().to_multiset());
    } else if score(s.first()) >= score(x) {
        lemma_insert_ranked_multiset(s.drop_first(), x, score);
        let r = insert_ranked(s, x, score);
        let rt = insert_ranked(s.drop_first(), x, score);
        assert(r =~= seq![s.first()] + rt);
        lemma_multiset_of_cons(s.first(), rt);
        lemma_multiset_of_cons(s.first(), s.drop_first());
        assert(s =~= seq![s.first()] + s.drop_first());
        assert(r.to_multiset() =~= s.to_multiset().insert(x));
    } else {
        lemma_multiset_of_cons(x, s);
        assert(insert_ranked(s, x, score).to_multiset() =~= s.to_multiset().insert(x));
    }
}

/// Prepending an element inserts it into the multiset.
proof fn lemma_multiset_of_cons<T>(x: T, s: Seq<T>)
    ensures
        (seq![x] + s).to_multiset() == s.to_multiset().insert(x),
    decreases s.len(),
{
    broadcast use vstd::seq_lib::group_seq_properties;

    if s.len() == 0 {
        assert(seq![x] + s =~= Seq::<T>::empty().push(x));
        assert((Seq::<T>::empty().push(x)).to_multiset() =~= Seq::<T>::empty().to_multiset().insert(
            x,
        ));
    } else {
        lemma_multiset_of_cons(x, s.drop_last());
        assert(seq![x] + s =~= (seq![x] + s.drop_last()).push(s.last()));
        assert(((seq![x] + s.drop_last()).push(s.last())).to_multiset() =~= (seq![x]
            + s.drop_last()).to_multiset().insert(s.last()));
        assert(s =~= s.drop_last().push(s.last()));
        assert((s.drop_last().push(s.last())).to_multiset() =~= s.drop_last().to_multiset().insert(
            s.last(),
        ));
        assert((seq![x] + s).to_multiset() =~= s.to_multiset().insert(x)) by {
            assert((seq![x] + s.drop_last()).to_multiset().insert(s.last())
                =~= s.drop_last().to_multiset().insert(x).insert(s.last()));
            assert(s.drop_last().to_multiset().insert(x).insert(s.last())
                =~= s.drop_last().to_multiset().insert(s.last()).insert(x));
        }
    }
}

/// Ranking permutes the sequence: the same elements, with multiplicity.
pub proof fn lemma_rank_sorted_multiset<T>(s: Seq<T>, score: spec_fn(T) -> int)
    ensures
        rank_sorted(s, score).to_multiset() == s.to_multiset(),
    decreases s.len(),
{
    broadcast use vstd::seq_lib::group_seq_properties;

    if s.len() == 0 {
    } else {
        lemma_rank_sorted_multiset(s.drop_last(), score);
        lemma_insert_ranked_multiset(rank_sorted(s.drop_last(), score), s.last(), score);
        assert(s =~= s.drop_last().push(s.last()));
        assert((s.drop_last().push(s.last())).to_multiset() =~= s.drop_last().to_multiset().insert(
            s.last(),
        ));
    }
}

} // verus!
