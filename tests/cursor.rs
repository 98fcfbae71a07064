use evm_indexer::cursor::{check_commit, cursor_delta, from_stored, resolve_row, to_stored, RowAction};
use evm_indexer::IndexError;

#[test]
fn stored_conversions() {
    assert_eq!(to_stored(17), Ok(17));
    assert_eq!(to_stored(i64::MAX as u64), Ok(i64::MAX));
    assert_eq!(to_stored(i64::MAX as u64 + 1), Err(IndexError::Integrity));
    assert_eq!(from_stored(0), Ok(0));
    assert_eq!(from_stored(-1), Err(IndexError::Integrity));
}

#[test]
fn delta_is_new_minus_prev() {
    assert_eq!(cursor_delta(10, 21), Ok(11));
    assert_eq!(cursor_delta(10, 10), Ok(0));
    assert_eq!(cursor_delta(11, 10), Err(IndexError::Integrity));
    assert_eq!(cursor_delta(0, u64::MAX), Err(IndexError::Integrity));
}

#[test]
fn commit_check_compares_read_back() {
    assert_eq!(check_commit(21, 21), Ok(()));
    assert_eq!(check_commit(21, 20), Err(IndexError::Integrity));
    assert_eq!(check_commit(0, -1), Err(IndexError::Integrity));
}

#[test]
fn fresh_row_then_resume() {
    let first = resolve_row(None, Some(5)).unwrap();
    assert_eq!(first, RowAction::Create { stored: 5, block: 5 });
    if let RowAction::Create { stored, block } = first {
        assert_eq!(resolve_row(Some(stored), Some(5)), Ok(RowAction::Resume(block)));
    }
    assert_eq!(resolve_row(None, None), Ok(RowAction::Create { stored: 1, block: 1 }));
    assert_eq!(resolve_row(Some(77), None), Ok(RowAction::Resume(77)));
    assert_eq!(resolve_row(Some(-3), None), Err(IndexError::Integrity));
    assert_eq!(resolve_row(None, Some(u64::MAX)), Err(IndexError::Integrity));
}
