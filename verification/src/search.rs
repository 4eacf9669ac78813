//! The search box: a query buffer with a cursor and an activation flag, and
//! the fuzzy matcher that decides membership and ranks candidates.

use vstd::prelude::*;
use crate::text::chars_eq;
use crate::text::chars_contains;
use crate::text::chars_of;
use crate::text::chars_prefix;
use crate::text::is_subsequence;
use crate::text::is_subsequence_of;
use crate::text::is_substring_of;
use crate::text::lemma_subsequence_skip;
use crate::text::insert_char_at;
use crate::text::lower_of;
use crate::text::lowercase;
use crate::text::remove_char_at;

verus! {

/// Whether the query matches the candidate: an empty query matches
/// everything; otherwise every case-folded query character must occur in the
/// case-folded candidate in order.
pub open spec fn matches_spec(q: Seq<char>, t: Seq<char>) -> bool {
    q.len() == 0 || is_subsequence_of(lower_of(q), lower_of(t))
}

/// The ranking score over already case-folded sequences: 1000 for equality,
/// 500 for a proper prefix, 100 for an inner substring, plus a flat 10
/// whenever the query is a subsequence.
pub open spec fn tier_score(q: Seq<char>, t: Seq<char>) -> int {
    (if t == q {
        1000int
    } else if q.is_prefix_of(t) {
        500int
    } else if is_substring_of(q, t) {
        100int
    } else {
        0int
    }) + (if is_subsequence_of(q, t) {
        10int
    } else {
        0int
    })
}

/// The ranking score of a query against a candidate: an empty query scores
/// zero, anything else is scored on the case-folded forms.
pub open spec fn score_spec(q: Seq<char>, t: Seq<char>) -> int {
    if q.len() == 0 {
        0
    } else {
        tier_score(lower_of(q), lower_of(t))
    }
}

/// How `handle_char` changes a search box: when active, the character goes
/// in at the cursor and the cursor advances; when inactive, nothing moves.
pub open spec fn search_char_rel(o: SearchBox, n: SearchBox, c: char) -> bool {
    &&& (o.active ==> n.query@ == o.query@.insert(o.cursor_position as int, c)
        && n.cursor_position == o.cursor_position + 1 && n.active)
    &&& (!o.active ==> n == o)
    &&& n.wf()
}

/// How `handle_backspace` changes a search box: when active and off the
/// start, the character before the cursor goes away and the cursor
/// retreats; otherwise nothing moves.
pub open spec fn search_backspace_rel(o: SearchBox, n: SearchBox) -> bool {
    &&& ((o.active && o.cursor_position > 0) ==> n.query@ == o.query@.remove(
        o.cursor_position - 1,
    ) && n.cursor_position == o.cursor_position - 1 && n.active)
    &&& (!(o.active && o.cursor_position > 0) ==> n == o)
    &&& n.wf()
}

/// Owns the query text, a cursor into it (counted in characters), and the
/// activation flag.
pub struct SearchBox {
    pub query: String,
    pub cursor_position: usize,
    pub active: bool,
}

impl SearchBox {
    /// The cursor stays inside the query.
    pub open spec fn wf(&self) -> bool {
        self.cursor_position <= self.query@.len()
    }

    /// An empty, inactive search box.
    pub fn new() -> (r: SearchBox)
        ensures
            r.query@ == Seq::<char>::empty(),
            r.cursor_position == 0,
            !r.active,
            r.wf(),
    {
        SearchBox { query: String::new(), cursor_position: 0, active: false }
    }

    /// Turns the search box on without touching the query.
    pub fn activate(&mut self)
        ensures
            *final(self) == (SearchBox { active: true, ..*old(self) }),
    {
        self.active = true;
    }

    /// Turns the search box off without touching the query.
    pub fn deactivate(&mut self)
        ensures
            *final(self) == (SearchBox { active: false, ..*old(self) }),
    {
        self.active = false;
    }

    /// Empties the query, resets the cursor and deactivates.
    pub fn clear(&mut self)
        ensures
            final(self).query@ == Seq::<char>::empty(),
            final(self).cursor_position == 0,
            !final(self).active,
            final(self).wf(),
    {
        self.query = String::new();
        self.cursor_position = 0;
        self.active = false;
    }

    /// When active, inserts the character at the cursor and advances the
    /// cursor by one; otherwise does nothing.
    pub fn handle_char(&mut self, c: char)
        requires
            old(self).wf(),
        ensures
            old(self).active ==> final(self).query@ == old(self).query@.insert(
                old(self).cursor_position as int,
                c,
            ),
            old(self).active ==> final(self).cursor_position == old(self).cursor_position + 1,
            old(self).active ==> final(self).active,
            !old(self).active ==> *final(self) == *old(self),
            final(self).wf(),
            search_char_rel(*old(self), *final(self), c),
    {
        if self.active {
            self.query = insert_char_at(&self.query, self.cursor_position, c);
            let n = self.query.as_str().unicode_len();
            proof {
                assert(self.cursor_position < n);
            }
            self.cursor_position = self.cursor_position + 1;
        }
    }

    /// When active and the cursor is not at the start, removes the character
    /// just before the cursor and moves the cursor back by one.
    pub fn handle_backspace(&mut self)
        requires
            old(self).wf(),
        ensures
            (old(self).active && old(self).cursor_position > 0) ==> final(self).query@ == old(
                self,
            ).query@.remove(old(self).cursor_position - 1),
            (old(self).active && old(self).cursor_position > 0) ==> final(self).cursor_position
                == old(self).cursor_position - 1,
            (old(self).active && old(self).cursor_position > 0) ==> final(self).active,
            !(old(self).active && old(self).cursor_position > 0) ==> *final(self) == *old(self),
            final(self).wf(),
            search_backspace_rel(*old(self), *final(self)),
    {
        if self.active && self.cursor_position > 0 {
            self.query = remove_char_at(&self.query, self.cursor_position - 1);
            self.cursor_position = self.cursor_position - 1;
        }
    }

    /// Fuzzy match: true iff the query is empty or every case-folded query
    /// character occurs in the case-folded candidate in order.
    pub fn matches(&self, text: &str) -> (r: bool)
        ensures
            r == matches_spec(self.query@, text@),
    {
        if self.query.as_str().is_empty() {
            return true;
        }
        let ql = lowercase(self.query.as_str());
        let tl = lowercase(text);
        let qc = chars_of(ql.as_str());
        let tc = chars_of(tl.as_str());
        is_subsequence(&qc, &tc)
    }

    /// Ranking score of the query against the candidate (higher is better).
    pub fn match_score(&self, text: &str) -> (r: i32)
        ensures
            r as int == score_spec(self.query@, text@),
    {
        if self.query.as_str().is_empty() {
            return 0;
        }
        let tl = lowercase(text);
        let ql = lowercase(self.query.as_str());
        let qc = chars_of(ql.as_str());
        let tc = chars_of(tl.as_str());

        let mut score: i32 = 0;
        if chars_eq(&tc, &qc) {
            score = 1000;
        } else if chars_prefix(&qc, &tc) {
            score = 500;
        } else if chars_contains(&qc, &tc) {
            score = 100;
        }
        if is_subsequence(&qc, &tc) {
            score = score + 10;
        }
        score
    }
}

/// A prefix is a subsequence.
proof fn lemma_prefix_implies_subsequence(q: Seq<char>, t: Seq<char>)
    requires
        q.is_prefix_of(t),
    ensures
        is_subsequence_of(q, t),
    decreases q.len(),
{
    if q.len() == 0 {
    } else {
        assert(q.first() == t.first());
        assert(q.drop_first() =~= t.subrange(0, q.len() as int).drop_first());
        assert(q.drop_first().is_prefix_of(t.drop_first())) by {
            assert(q.drop_first() =~= t.drop_first().subrange(0, q.len() - 1));
        }
        lemma_prefix_implies_subsequence(q.drop_first(), t.drop_first());
    }
}

/// A substring is a subsequence.
pub proof fn lemma_substring_implies_subsequence(q: Seq<char>, t: Seq<char>)
    requires
        is_substring_of(q, t),
    ensures
        is_subsequence_of(q, t),
    decreases t.len(),
{
    let i = choose|i: int|
        0 <= i && i + q.len() <= t.len() && #[trigger] t.subrange(i, i + q.len() as int) == q;
    if i == 0 {
        assert(q.is_prefix_of(t));
        lemma_prefix_implies_subsequence(q, t);
    } else {
        assert(t.drop_first().subrange(i - 1, i - 1 + q.len() as int) =~= t.subrange(
            i,
            i + q.len() as int,
        ));
        lemma_substring_implies_subsequence(q, t.drop_first());
        lemma_subsequence_skip(q, t);
    }
}

/// The scoring tiers are ordered: an exact case-folded match scores 1010, a
/// prefix at least 510, a substring at least 110, any fuzzy match at least
/// 10, and no score leaves [0, 1010]. In particular a match always scores at
/// least the flat fuzzy bonus.
pub proof fn lemma_score_tiers(q: Seq<char>, t: Seq<char>)
    requires
        q.len() > 0,
    ensures
        0 <= score_spec(q, t) <= 1010,
        matches_spec(q, t) ==> score_spec(q, t) >= 10,
        lower_of(t) == lower_of(q) ==> score_spec(q, t) == 1010,
        lower_of(q).is_prefix_of(lower_of(t)) ==> score_spec(q, t) >= 510,
        is_substring_of(lower_of(q), lower_of(t)) ==> score_spec(q, t) >= 110,
{
    let lq = lower_of(q);
    let lt = lower_of(t);
    if lt == lq {
        assert(lq.is_prefix_of(lt)) by {
            assert(lq =~= lt.subrange(0, lq.len() as int));
        }
        lemma_prefix_implies_subsequence(lq, lt);
    } else if lq.is_prefix_of(lt) {
        lemma_prefix_implies_subsequence(lq, lt);
    } else if is_substring_of(lq, lt) {
        lemma_substring_implies_subsequence(lq, lt);
    }
}

} // verus!
