use std::time::Duration;

use evm_indexer::builder::{Endpoint, IndexerBuilder};
use evm_indexer::fingerprint::LogFilter;
use evm_indexer::{FinalityLevel, IndexError};

fn empty_filter() -> LogFilter {
    LogFilter { addresses: Vec::new(), topics: [Vec::new(), Vec::new(), Vec::new(), Vec::new()], from_block: None }
}

fn complete() -> IndexerBuilder<u8, u16, u32> {
    IndexerBuilder::new()
        .http_rpc_url(String::from("http://localhost:8545"))
        .filter(empty_filter())
        .set_processor(7u16)
        .pg_storage(3u8)
        .fetch_interval(Duration::from_secs(10))
}

#[test]
fn build_fills_defaults() {
    let c = complete().build().ok().unwrap();
    assert!(matches!(c.http, Endpoint::Url(ref u) if u == "http://localhost:8545"));
    assert!(c.ws.is_none());
    assert_eq!(c.processor, 7);
    assert_eq!(c.storage, 3);
    assert_eq!(c.fetch_interval, Duration::from_secs(10));
    assert_eq!(c.overtake_interval, Duration::from_secs(10));
    assert_eq!(c.block_range_limit, None);
    assert_eq!(c.finality_level, FinalityLevel::Finalized);
}

#[test]
fn build_keeps_options() {
    let c = complete()
        .http_provider(5u32)
        .ws_rpc_url(String::from("ws://localhost:8546"))
        .overtake_interval(Duration::from_millis(50))
        .block_range_limit(10)
        .finality_level(FinalityLevel::Latest)
        .build()
        .ok()
        .unwrap();
    assert!(matches!(c.http, Endpoint::Client(5)));
    assert!(matches!(c.ws, Some(Endpoint::Url(ref u)) if u == "ws://localhost:8546"));
    assert_eq!(c.overtake_interval, Duration::from_millis(50));
    assert_eq!(c.block_range_limit, Some(10));
    assert_eq!(c.finality_level, FinalityLevel::Latest);
}

#[test]
fn build_reports_missing_inputs() {
    let no_http: IndexerBuilder<u8, u16, u32> = IndexerBuilder::new()
        .filter(empty_filter())
        .set_processor(1)
        .sqlite_storage(1)
        .fetch_interval(Duration::from_secs(1));
    assert_eq!(no_http.build().err(), Some(IndexError::ConfigMissing));
    assert_eq!(complete().ws_provider_opt(None).block_range_limit_opt(None).build().is_ok(), true);
    let no_interval: IndexerBuilder<u8, u16, u32> = IndexerBuilder::default()
        .http_rpc_url(String::from("http://x"))
        .filter(empty_filter())
        .set_processor(1)
        .pg_storage(1);
    assert_eq!(no_interval.build().err(), Some(IndexError::ConfigMissing));
}
