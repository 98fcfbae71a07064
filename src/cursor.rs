//! The persisted cursor of a filter: block numbers as the database stores them
//! (signed 64-bit), the row a first start creates, and the checks of the
//! transaction that advances it.
use vstd::prelude::*;

use crate::fingerprint::from_block_or_one;
use crate::IndexError;

verus! {

pub const STORED_MAX: u64 = 0x7fff_ffff_ffff_ffff;

/// A block number as the database stores it; a number that does not fit a
/// signed 64-bit column is an integrity error, never wrapped.
pub fn to_stored(n: u64) -> (r: Result<i64, IndexError>)
    ensures
        n <= STORED_MAX ==> r == Ok::<i64, IndexError>(n as i64),
        n > STORED_MAX ==> r == Err::<i64, IndexError>(IndexError::Integrity),
{
    if n <= STORED_MAX {
        Ok(n as i64)
    } else {
        Err(IndexError::Integrity)
    }
}

/// A block number read from the database; a negative value is an integrity
/// error.
pub fn from_stored(v: i64) -> (r: Result<u64, IndexError>)
    ensures
        v >= 0 ==> r == Ok::<u64, IndexError>(v as u64),
        v < 0 ==> r == Err::<u64, IndexError>(IndexError::Integrity),
{
    if v >= 0 {
        Ok(v as u64)
    } else {
        Err(IndexError::Integrity)
    }
}

/// The amount by which a batch advances the stored cursor, `new_block -
/// prev_block`, as the database stores it.
pub fn cursor_delta(prev_block: u64, new_block: u64) -> (r: Result<i64, IndexError>)
    ensures
        prev_block <= new_block && new_block - prev_block <= STORED_MAX ==> r == Ok::<
            i64,
            IndexError,
        >((new_block - prev_block) as i64),
        !(prev_block <= new_block && new_block - prev_block <= STORED_MAX) ==> r == Err::<
            i64,
            IndexError,
        >(IndexError::Integrity),
{
    if prev_block <= new_block {
        to_stored(new_block - prev_block)
    } else {
        Err(IndexError::Integrity)
    }
}

/// The check made inside the transaction before it commits: the cursor read
/// back must equal the block the batch ends at.
pub fn check_commit(new_block: u64, read_back: i64) -> (r: Result<(), IndexError>)
    ensures
        r is Ok <==> read_back == new_block,
        r is Err ==> r == Err::<(), IndexError>(IndexError::Integrity),
{
    match from_stored(read_back) {
        Ok(v) => if v == new_block {
            Ok(())
        } else {
            Err(IndexError::Integrity)
        },
        Err(e) => Err(e),
    }
}

/// What starting an engine does with the cursor table.
#[derive(Clone, Copy, Debug, PartialEq, Eq, Structural)]
pub enum RowAction {
    /// A row exists: resume from its block.
    Resume(u64),
    /// No row exists: insert one holding `stored` and start from `block`.
    Create { stored: i64, block: u64 },
}

/// The outcome of looking up a filter's row, given the block stored in it if
/// there is one.
pub open spec fn row_action(existing: Option<i64>, from_block: Option<u64>) -> Result<
    RowAction,
    IndexError,
> {
    match existing {
        Some(v) => if v >= 0 {
            Ok(RowAction::Resume(v as u64))
        } else {
            Err(IndexError::Integrity)
        },
        None => {
            let b = from_block_or_one(from_block);
            if b <= STORED_MAX {
                Ok(RowAction::Create { stored: b as i64, block: b })
            } else {
                Err(IndexError::Integrity)
            }
        },
    }
}

/// Decides the start of an engine from the row found for its filter (if
/// any): an existing row is resumed; otherwise a row holding the filter's
/// first block (1 when it has none) is to be created.
pub fn resolve_row(existing: Option<i64>, from_block: Option<u64>) -> (r: Result<
    RowAction,
    IndexError,
>)
    ensures
        r == row_action(existing, from_block),
{
    match existing {
        Some(v) => match from_stored(v) {
            Ok(b) => Ok(RowAction::Resume(b)),
            Err(e) => Err(e),
        },
        None => {
            let b = match from_block {
                Some(n) => n,
                None => 1,
            };
            match to_stored(b) {
                Ok(s) => Ok(RowAction::Create { stored: s, block: b }),
                Err(e) => Err(e),
            }
        },
    }
}

} // verus!
