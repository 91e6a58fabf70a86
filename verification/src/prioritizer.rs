//! The target prioritizer: order candidates by Manhattan distance adjusted
//! for the kind of work, keeping discovery order among equal keys, and pick
//! the first.

use vstd::prelude::*;

use crate::model::{distinct_cells, manhattan, BotState, Candidate, Work};

verus! {

broadcast use vstd::seq_lib::group_seq_properties, vstd::seq_lib::group_seq_lib_default;

/// The sort key of a candidate: its Manhattan distance from the agent,
/// lowered by one for a harvest (ready produce must not rot) and raised by
/// one for a watering (deferred at equal distance).
pub open spec fn priority_key(bot: BotState, c: Candidate) -> int {
    manhattan(bot, c.x as int, c.y as int) + match c.work {
        Work::Harvesting => -1,
        Work::Watering => 1,
        Work::Seeding => 0,
    }
}

/// A sequence is ordered by ascending priority key.
pub open spec fn sorted_by_key(bot: BotState, s: Seq<Candidate>) -> bool {
    forall|i: int, j: int|
        0 <= i < j < s.len() ==> priority_key(bot, s[i]) <= priority_key(bot, s[j])
}

/// The predicate selecting candidates of one priority key.
pub open spec fn key_pred(bot: BotState, k: int) -> spec_fn(Candidate) -> bool {
    |c: Candidate| priority_key(bot, c) == k
}

/// The subsequence of `s` whose candidates have priority key `k`, in order.
pub open spec fn with_key(bot: BotState, s: Seq<Candidate>, k: int) -> Seq<Candidate> {
    s.filter(key_pred(bot, k))
}

/// What a stable ascending sort of `s` yields, when every key of `s` lies
/// in `-1..=k`: the concatenation, by ascending key, of the equal-key
/// subsequences of `s`, each in discovery order.
pub open spec fn stable_sorted(bot: BotState, s: Seq<Candidate>, k: int) -> Seq<Candidate>
    decreases k + 2,
{
    if k < -1 {
        Seq::empty()
    } else {
        stable_sorted(bot, s, k - 1) + with_key(bot, s, k)
    }
}

proof fn lemma_stable_len_zero(bot: BotState, s: Seq<Candidate>, k: int)
    requires
        s.len() == 0,
    ensures
        stable_sorted(bot, s, k).len() == 0,
    decreases k + 2,
{
    if k >= -1 {
        lemma_stable_len_zero(bot, s, k - 1);
        s.lemma_filter_len(key_pred(bot, k));
    }
}

proof fn lemma_stable_len_push(bot: BotState, s: Seq<Candidate>, c: Candidate, k: int)
    ensures
        stable_sorted(bot, s.push(c), k).len() == stable_sorted(bot, s, k).len() + (if -1
            <= priority_key(bot, c) <= k {
            1int
        } else {
            0int
        }),
    decreases k + 2,
{
    if k >= -1 {
        lemma_stable_len_push(bot, s, c, k - 1);
        s.lemma_filter_len_push(key_pred(bot, k), c);
    }
}

proof fn lemma_stable_len(bot: BotState, s: Seq<Candidate>, k: int)
    requires
        forall|i: int| 0 <= i < s.len() ==> -1 <= priority_key(bot, #[trigger] s[i]) <= k,
    ensures
        stable_sorted(bot, s, k).len() == s.len(),
    decreases s.len(),
{
    if s.len() == 0 {
        lemma_stable_len_zero(bot, s, k);
    } else {
        let s0 = s.drop_last();
        let c = s.last();
        assert(s =~= s0.push(c));
        assert(forall|i: int| 0 <= i < s0.len() ==> s0[i] == s[i]);
        lemma_stable_len(bot, s0, k);
        lemma_stable_len_push(bot, s0, c, k);
    }
}

proof fn lemma_stable_props(bot: BotState, s: Seq<Candidate>, k: int)
    ensures
        forall|i: int|
            0 <= i < stable_sorted(bot, s, k).len() ==> priority_key(bot, #[trigger] stable_sorted(
                bot, s, k)[i]) <= k,
        sorted_by_key(bot, stable_sorted(bot, s, k)),
        forall|c: Candidate|
            #[trigger] stable_sorted(bot, s, k).contains(c) <==> (s.contains(c) && -1
                <= priority_key(bot, c) <= k),
    decreases k + 2,
{
    if k < -1 {
    } else {
        lemma_stable_props(bot, s, k - 1);
        let a = stable_sorted(bot, s, k - 1);
        let b = with_key(bot, s, k);
        let t = stable_sorted(bot, s, k);
        assert(t == a + b);
        assert forall|i: int| 0 <= i < t.len() implies priority_key(bot, #[trigger] t[i])
            <= k by {
            if i < a.len() {
                assert(t[i] == a[i]);
            } else {
                assert(t[i] == b[i - a.len()]);
                s.lemma_filter_pred(key_pred(bot, k), i - a.len());
            }
        }
        assert forall|i: int, j: int| 0 <= i < j < t.len() implies priority_key(bot, t[i])
            <= priority_key(bot, t[j]) by {
            if j < a.len() {
            } else if i < a.len() {
                assert(t[i] == a[i]);
                assert(t[j] == b[j - a.len()]);
                s.lemma_filter_pred(key_pred(bot, k), j - a.len());
            } else {
                assert(t[i] == b[i - a.len()]);
                assert(t[j] == b[j - a.len()]);
                s.lemma_filter_pred(key_pred(bot, k), i - a.len());
                s.lemma_filter_pred(key_pred(bot, k), j - a.len());
            }
        }
        assert forall|c: Candidate| #[trigger] t.contains(c) implies (s.contains(c) && -1
            <= priority_key(bot, c) <= k) by {
            let i = choose|i: int| 0 <= i < t.len() && t[i] == c;
            if i < a.len() {
                assert(a[i] == c);
                assert(a.contains(c));
            } else {
                assert(b[i - a.len()] == c);
                s.lemma_filter_pred(key_pred(bot, k), i - a.len());
                assert(b.contains(c));
                s.lemma_filter_contains_rev(key_pred(bot, k), c);
            }
        }
        assert forall|c: Candidate| s.contains(c) && -1 <= priority_key(bot, c)
            <= k implies #[trigger] t.contains(c) by {
            if priority_key(bot, c) < k {
                assert(a.contains(c));
                let i = choose|i: int| 0 <= i < a.len() && a[i] == c;
                assert(t[i] == c);
            } else {
                let i = choose|i: int| 0 <= i < s.len() && s[i] == c;
                s.lemma_filter_contains(key_pred(bot, k), i);
                assert(b.contains(c));
                let j = choose|j: int| 0 <= j < b.len() && b[j] == c;
                assert(t[a.len() + j] == c);
            }
        }
    }
}

proof fn lemma_filter_distinct(s: Seq<Candidate>, pred: spec_fn(Candidate) -> bool)
    requires
        distinct_cells(s),
    ensures
        distinct_cells(s.filter(pred)),
    decreases s.len(),
{
    if s.len() > 0 {
        let s0 = s.drop_last();
        let c = s.last();
        assert(forall|i: int| 0 <= i < s0.len() ==> s0[i] == s[i]);
        lemma_filter_distinct(s0, pred);
        assert(s0.push(c) =~= s);
        s0.lemma_filter_push(c, pred);
        if pred(c) {
            let f0 = s0.filter(pred);
            assert forall|i: int| 0 <= i < f0.len() implies !((#[trigger] f0[i]).x == c.x
                && f0[i].y == c.y) by {
                assert(f0.contains(f0[i]));
                s0.lemma_filter_contains_rev(pred, f0[i]);
                let j = choose|j: int| 0 <= j < s0.len() && s0[j] == f0[i];
                assert(s[j] == f0[i] && s[s.len() - 1] == c);
            }
        }
    }
}

proof fn lemma_stable_distinct(bot: BotState, s: Seq<Candidate>, k: int)
    requires
        distinct_cells(s),
    ensures
        distinct_cells(stable_sorted(bot, s, k)),
    decreases k + 2,
{
    if k >= -1 {
        lemma_stable_distinct(bot, s, k - 1);
        lemma_stable_props(bot, s, k - 1);
        lemma_filter_distinct(s, key_pred(bot, k));
        let a = stable_sorted(bot, s, k - 1);
        let b = with_key(bot, s, k);
        let t = stable_sorted(bot, s, k);
        assert(t == a + b);
        assert forall|i: int, j: int| 0 <= i < j < t.len() implies !((#[trigger] t[i]).x == (
        #[trigger] t[j]).x && t[i].y == t[j].y) by {
            if j < a.len() {
                assert(t[i] == a[i] && t[j] == a[j]);
            } else if i >= a.len() {
                assert(t[i] == b[i - a.len()] && t[j] == b[j - a.len()]);
            } else {
                // one from each part: their keys differ, so they are not the
                // same element of `s`, and distinct elements never share a cell
                let u = t[i];
                let v = t[j];
                assert(u == a[i]);
                assert(v == b[j - a.len()]);
                assert(priority_key(bot, u) <= k - 1);
                s.lemma_filter_pred(key_pred(bot, k), j - a.len());
                assert(priority_key(bot, v) == k);
                assert(a.contains(u));
                assert(b.contains(v));
                s.lemma_filter_contains_rev(key_pred(bot, k), v);
                let iu = choose|p: int| 0 <= p < s.len() && s[p] == u;
                let iv = choose|p: int| 0 <= p < s.len() && s[p] == v;
                assert(iu != iv);
                assert(s[iu] == u && s[iv] == v);
            }
        }
    }
}

/// The priority key of `c` for this agent.
fn candidate_key(bot: &BotState, c: &Candidate) -> (k: i64)
    ensures
        k == priority_key(*bot, *c),
{
    let dx: i64 = (c.x as i64) - (bot.position.x as i64);
    let dy: i64 = (c.y as i64) - (bot.position.y as i64);
    let adx: i64 = if dx < 0 {
        -dx
    } else {
        dx
    };
    let ady: i64 = if dy < 0 {
        -dy
    } else {
        dy
    };
    let modifier: i64 = match c.work {
        Work::Harvesting => -1,
        Work::Watering => 1,
        Work::Seeding => 0,
    };
    adx + ady + modifier
}

/// Stable-sort the candidates by ascending priority key, keeping discovery
/// order as the tie-break.  The result is exactly the concatenation, by
/// ascending key, of the equal-key subsequences of the input.
///
/// The candidates must lie within the search radius of 3, so every key
/// lies in `-1..=7`.
pub fn sort_candidates(bot: &BotState, cands: &Vec<Candidate>) -> (r: Vec<Candidate>)
    requires
        forall|i: int|
            0 <= i < cands@.len() ==> -1 <= priority_key(*bot, #[trigger] cands@[i]) <= 7,
    ensures
        r@ == stable_sorted(*bot, cands@, 7),
        sorted_by_key(*bot, r@),
        forall|c: Candidate| r@.contains(c) <==> cands@.contains(c),
        r@.len() == cands@.len(),
        distinct_cells(cands@) ==> distinct_cells(r@),
{
    let mut out: Vec<Candidate> = Vec::new();
    let mut k: i64 = -1;
    while k <= 7
        invariant
            -1 <= k <= 8,
            out@ == stable_sorted(*bot, cands@, k - 1),
        decreases 8 - k,
    {
        let mut i: usize = 0;
        while i < cands.len()
            invariant
                -1 <= k <= 7,
                0 <= i <= cands@.len(),
                out@ == stable_sorted(*bot, cands@, k - 1) + with_key(*bot, cands@.take(
                    i as int), k as int),
            decreases cands@.len() - i,
        {
            let c = cands[i];
            let ck = candidate_key(bot, &c);
            proof {
                assert(cands@.take(i as int + 1) =~= cands@.take(i as int).push(c));
                cands@.take(i as int).lemma_filter_push(c, key_pred(*bot, k as int));
            }
            if ck == k {
                out.push(c);
            }
            i += 1;
        }
        proof {
            assert(cands@.take(cands@.len() as int) =~= cands@);
        }
        k += 1;
    }
    proof {
        lemma_stable_props(*bot, cands@, 7);
        lemma_stable_len(*bot, cands@, 7);
        if distinct_cells(cands@) {
            lemma_stable_distinct(*bot, cands@, 7);
        }
        assert forall|c: Candidate| cands@.contains(c) implies out@.contains(c) by {
            let i = choose|i: int| 0 <= i < cands@.len() && cands@[i] == c;
        }
    }
    out
}

/// Choose the target: the first candidate of the prioritized list, if any.
pub fn select_target(candidates: &Vec<Candidate>) -> (r: Option<Candidate>)
    ensures
        r is Some <==> candidates@.len() > 0,
        candidates@.len() > 0 ==> r == Some(candidates@[0]),
{
    if candidates.len() > 0 {
        Some(candidates[0])
    } else {
        None
    }
}

/// At equal Manhattan distance, a harvesting candidate always precedes a
/// watering one in the prioritized order, so the watering candidate is
/// never the selected first element.
pub proof fn lemma_harvest_before_watering(
    bot: BotState,
    s: Seq<Candidate>,
    h: Candidate,
    w: Candidate,
)
    requires
        sorted_by_key(bot, s),
        s.contains(h),
        s.contains(w),
        h.work == Work::Harvesting,
        w.work == Work::Watering,
        manhattan(bot, h.x as int, h.y as int) == manhattan(bot, w.x as int, w.y as int),
    ensures
        forall|i: int, j: int|
            0 <= i < s.len() && 0 <= j < s.len() && s[i] == h && s[j] == w ==> i < j,
        s[0] != w,
{
    assert(priority_key(bot, h) < priority_key(bot, w));
    assert forall|i: int, j: int|
        0 <= i < s.len() && 0 <= j < s.len() && s[i] == h && s[j] == w implies i < j by {
        if j < i {
            assert(priority_key(bot, s[j]) <= priority_key(bot, s[i]));
        }
        assert(i != j);
    }
    let ih = choose|i: int| 0 <= i < s.len() && s[i] == h;
    if s[0] == w {
        assert(0 < ih);
        assert(priority_key(bot, s[0]) <= priority_key(bot, s[ih]));
    }
}

} // verus!
