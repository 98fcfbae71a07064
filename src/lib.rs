//! An event-log indexer engine for EVM chains: the filter fingerprint, the
//! block-window planning of each tick and the cursor commit protocol.
use vstd::prelude::*;

pub mod builder;
pub mod cursor;
pub mod engine;
pub mod fingerprint;
pub mod laws;

verus! {

/// Which view of the chain head a tick targets.
#[derive(Clone, Copy, Debug, PartialEq, Eq, Structural)]
pub enum FinalityLevel {
    Finalized,
    Safe,
    Latest,
    Pending,
}

/// The kinds of failure that end a tick and the run.
#[derive(Clone, Copy, Debug, PartialEq, Eq, Structural)]
pub enum IndexError {
    /// A required builder input is absent.
    ConfigMissing,
    /// An HTTP RPC call failed or returned no data where data was required.
    TransportHttp,
    /// The WebSocket subscription or connection failed.
    TransportWs,
    /// The database reported an error.
    Storage,
    /// The cursor read back did not match, or a block number did not fit.
    Integrity,
    /// The processor returned an error.
    Processor,
}

} // verus!
