//! What holds across calls: the fingerprint ignores the order of addresses and
//! topics, windows advance the cursor without gaps, and a created cursor row
//! is resumed unchanged.
use vstd::multiset::Multiset;
use vstd::prelude::*;

use crate::cursor::{row_action, RowAction};
use crate::engine::{tick_plan, TickPlan};
use crate::fingerprint::{fingerprint, LogFilter};

verus! {

/// The cursor after one tick whose chain head is `head`.
pub open spec fn after_tick(last: u64, head: u64, limit: Option<u64>) -> u64 {
    match tick_plan(last, head, limit) {
        TickPlan::CaughtUp => last,
        TickPlan::Fetch(w) => w.to_block,
    }
}

/// The cursor after successful ticks that saw the chain heads `heads`, in order.
pub open spec fn after_ticks(last: u64, heads: Seq<u64>, limit: Option<u64>) -> u64
    decreases heads.len(),
{
    if heads.len() == 0 {
        last
    } else {
        after_tick(after_ticks(last, heads.drop_last(), limit), heads.last(), limit)
    }
}

proof fn lemma_map_multiset<A, B>(s1: Seq<A>, s2: Seq<A>, f: spec_fn(A) -> B)
    requires
        s1.to_multiset() == s2.to_multiset(),
    ensures
        s1.map_values(f).to_multiset() == s2.map_values(f).to_multiset(),
    decreases s1.len(),
{
    s1.to_multiset_ensures();
    s2.to_multiset_ensures();
    if s1.len() == 0 {
        assert(s2.len() == 0);
        assert(s1.map_values(f) =~= s2.map_values(f));
    } else {
        let n = s1.len() - 1;
        let a = s1[n];
        assert(s1.contains(a));
        assert(s2.to_multiset().count(a) > 0);
        let j = choose|j: int| 0 <= j < s2.len() && s2[j] == a;
        let d1 = s1.remove(n);
        let d2 = s2.remove(j);
        lemma_map_multiset(d1, d2, f);
        let m1 = s1.map_values(f);
        let m2 = s2.map_values(f);
        m1.to_multiset_ensures();
        m2.to_multiset_ensures();
        assert(m1.remove(n) =~= d1.map_values(f));
        assert(m2.remove(j) =~= d2.map_values(f));
        let x = f(a);
        assert(m1.to_multiset().count(x) > 0) by {
            assert(m1[n] == x);
            assert(m1.contains(x));
        }
        assert(m2.to_multiset().count(x) > 0) by {
            assert(m2[j] == x);
            assert(m2.contains(x));
        }
        let r1 = m1.to_multiset();
        let r2 = m2.to_multiset();
        assert(r1.remove(x) == r2.remove(x));
        assert forall|y: B| r1.count(y) == r2.count(y) by {
            if y == x {
                assert(r1.remove(x).count(x) == r1.count(x) - 1);
                assert(r2.remove(x).count(x) == r2.count(x) - 1);
            } else {
                assert(r1.remove(x).count(y) == r1.count(y));
                assert(r2.remove(x).count(y) == r2.count(y));
            }
        }
        assert(r1 =~= r2);
    }
}

/// The identifier of a filter does not depend on the order in which its
/// addresses, or the values at any topic position, are listed.
pub proof fn lemma_fingerprint_order_free(f: LogFilter, g: LogFilter, chain_id: u64)
    requires
        f.from_block == g.from_block,
        f.addresses@.to_multiset() == g.addresses@.to_multiset(),
        forall|k: int| 0 <= k < 4 ==> (#[trigger] f.topics@[k])@.to_multiset() == g.topics@[k]@.to_multiset(),
    ensures
        fingerprint(f, chain_id) == fingerprint(g, chain_id),
{
    lemma_map_multiset(f.addresses@, g.addresses@, |a: [u8; 20]| a@);
    assert forall|k: int| 0 <= k < 4 implies (#[trigger] f.topics@[k])@.map_values(
        |w: [u8; 32]| w@,
    ).to_multiset() == g.topics@[k]@.map_values(|w: [u8; 32]| w@).to_multiset() by {
        lemma_map_multiset(f.topics@[k]@, g.topics@[k]@, |w: [u8; 32]| w@);
    }
    assert(f.topics@[0] == f.topics@[0]);
    assert(f.topics@[1] == f.topics@[1]);
    assert(f.topics@[2] == f.topics@[2]);
    assert(f.topics@[3] == f.topics@[3]);
}

/// Two filters that hold the same values, however they were built, get the
/// same identifier on the same chain.
pub proof fn lemma_fingerprint_deterministic(f: LogFilter, g: LogFilter, chain_id: u64)
    requires
        f.from_block == g.from_block,
        f.addresses@ == g.addresses@,
        forall|k: int| 0 <= k < 4 ==> (#[trigger] f.topics@[k])@ == g.topics@[k]@,
    ensures
        fingerprint(f, chain_id) == fingerprint(g, chain_id),
{
    lemma_fingerprint_order_free(f, g, chain_id);
}

/// A tick never moves the cursor back.
pub proof fn lemma_tick_monotone(last: u64, head: u64, limit: Option<u64>)
    ensures
        last <= after_tick(last, head, limit),
{
}

/// Along any run of successful ticks the cursor never decreases.
pub proof fn lemma_cursor_monotone(last: u64, heads: Seq<u64>, limit: Option<u64>, i: int, j: int)
    requires
        0 <= i <= j <= heads.len(),
    ensures
        after_ticks(last, heads.take(i), limit) <= after_ticks(last, heads.take(j), limit),
    decreases j - i,
{
    if i < j {
        lemma_cursor_monotone(last, heads, limit, i, j - 1);
        assert(heads.take(j).drop_last() =~= heads.take(j - 1));
        lemma_tick_monotone(after_ticks(last, heads.take(j - 1), limit), heads[j - 1], limit);
    }
}

/// With a range limit `l`, a window spans at most `l` blocks past its start.
pub proof fn lemma_window_within_limit(last: u64, head: u64, l: u64)
    ensures
        tick_plan(last, head, Some(l)) matches TickPlan::Fetch(w) ==> w.from_block <= w.to_block
            && w.to_block - w.from_block <= l,
{
}

/// Consecutive batches are contiguous: the batch after one that ended at
/// block `n` starts with `prev_block == n` and fetches from `n + 1`.
pub proof fn lemma_windows_contiguous(last: u64, h1: u64, h2: u64, limit: Option<u64>)
    ensures
        tick_plan(last, h1, limit) matches TickPlan::Fetch(w1) ==> (tick_plan(
            w1.to_block,
            h2,
            limit,
        ) matches TickPlan::Fetch(w2) ==> w2.prev_block == w1.to_block && w2.from_block
            == w1.to_block + 1 && w1.prev_block == last && w1.from_block == last + 1),
{
}

/// A row created on a first start and found again on the next start (no
/// batch committed in between) resumes from the block the first start used.
pub proof fn lemma_row_round_trip(from_block: Option<u64>)
    ensures
        row_action(None, from_block) matches Ok(RowAction::Create { stored, block }) ==> row_action(
            Some(stored),
            from_block,
        ) == Ok::<RowAction, crate::IndexError>(RowAction::Resume(block)),
{
}

} // verus!
