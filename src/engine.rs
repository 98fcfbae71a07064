//! The tick handler's decisions: which block window to fetch next, and how the
//! in-memory cursor moves once a batch has been committed or refused.
use vstd::prelude::*;

use crate::FinalityLevel;
use crate::IndexError;

verus! {

/// The blocks of one batch: the processor is told `prev_block` (the cursor
/// before the batch) and `to_block` (the cursor after it), and the logs cover
/// `from_block ..= to_block`.
#[derive(Clone, Copy, Debug, PartialEq, Eq, Structural)]
pub struct Window {
    pub prev_block: u64,
    pub from_block: u64,
    pub to_block: u64,
    pub head: u64,
}

/// What a tick does once the chain head is known.
#[derive(Clone, Copy, Debug, PartialEq, Eq, Structural)]
pub enum TickPlan {
    /// The cursor already stands at (or past) the head: nothing to fetch.
    CaughtUp,
    Fetch(Window),
}

pub open spec fn min_int(a: int, b: int) -> int {
    if a <= b {
        a
    } else {
        b
    }
}

/// The last block of the window that starts right after `last`.
pub open spec fn window_end(last: u64, head: u64, limit: Option<u64>) -> int {
    match limit {
        None => head as int,
        Some(l) => min_int(head as int, last + 1 + l),
    }
}

/// The plan of a tick whose cursor is `last` and whose chain head is `head`.
pub open spec fn tick_plan(last: u64, head: u64, limit: Option<u64>) -> TickPlan {
    if head <= last {
        TickPlan::CaughtUp
    } else {
        TickPlan::Fetch(
            Window {
                prev_block: last,
                from_block: (last + 1) as u64,
                to_block: window_end(last, head, limit) as u64,
                head,
            },
        )
    }
}

/// Plans the next tick from the cursor `last`, the chain head `head` and the
/// optional range limit: the window starts right after the cursor and ends at
/// the head, or `limit` blocks after its start if that comes first.
pub fn plan_window(last: u64, head: u64, limit: Option<u64>) -> (p: TickPlan)
    ensures
        p == tick_plan(last, head, limit),
{
    if head <= last {
        return TickPlan::CaughtUp;
    }
    let from = last + 1;
    let to = match limit {
        None => head,
        Some(l) => match from.checked_add(l) {
            Some(end) => if end < head {
                end
            } else {
                head
            },
            None => head,
        },
    };
    TickPlan::Fetch(Window { prev_block: last, from_block: from, to_block: to, head })
}

/// The state an indexing engine keeps between ticks.
pub struct Engine {
    pub chain_id: u64,
    pub filter_id: String,
    pub last_observed_block: u64,
    pub block_range_limit: Option<u64>,
    pub finality_level: FinalityLevel,
}

impl Engine {
    pub fn new(
        chain_id: u64,
        filter_id: String,
        last_observed_block: u64,
        block_range_limit: Option<u64>,
        finality_level: FinalityLevel,
    ) -> (e: Engine)
        ensures
            e.chain_id == chain_id,
            e.filter_id@ == filter_id@,
            e.last_observed_block == last_observed_block,
            e.block_range_limit == block_range_limit,
            e.finality_level == finality_level,
    {
        Engine { chain_id, filter_id, last_observed_block, block_range_limit, finality_level }
    }

    /// Plans a tick from the head block the RPC reported at the engine's
    /// finality level; no such block fails the tick with a transport error.
    pub fn plan_tick(&self, head: Option<u64>) -> (r: Result<TickPlan, IndexError>)
        ensures
            head is None ==> r == Err::<TickPlan, IndexError>(IndexError::TransportHttp),
            head matches Some(h) ==> r == Ok::<TickPlan, IndexError>(
                tick_plan(self.last_observed_block, h, self.block_range_limit),
            ),
    {
        match head {
            None => Err(IndexError::TransportHttp),
            Some(h) => Ok(plan_window(self.last_observed_block, h, self.block_range_limit)),
        }
    }

    /// Ends a tick whose window was planned from the current cursor, given how
    /// its batch fared in storage. On success the cursor moves to the window's
    /// end and the result says whether the head was reached; on failure the
    /// cursor stays and the error is handed on.
    pub fn finish_tick(&mut self, w: Window, stored: Result<(), IndexError>) -> (r: Result<
        bool,
        IndexError,
    >)
        requires
            tick_plan(
                old(self).last_observed_block,
                w.head,
                old(self).block_range_limit,
            ) == TickPlan::Fetch(w),
        ensures
            final(self).chain_id == old(self).chain_id,
            final(self).filter_id == old(self).filter_id,
            final(self).block_range_limit == old(self).block_range_limit,
            final(self).finality_level == old(self).finality_level,
            stored matches Err(e) ==> r == Err::<bool, IndexError>(e)
                && final(self).last_observed_block == old(self).last_observed_block,
            stored is Ok ==> r == Ok::<bool, IndexError>(w.to_block == w.head)
                && final(self).last_observed_block == w.to_block,
            old(self).last_observed_block <= final(self).last_observed_block,
    {
        match stored {
            Err(e) => Err(e),
            Ok(()) => {
                self.last_observed_block = w.to_block;
                Ok(w.to_block == w.head)
            },
        }
    }
}

} // verus!
