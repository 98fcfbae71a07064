//! Assembling an engine's inputs: each option is recorded as given, and
//! `build` checks that every required one is present.
use std::time::Duration;
use vstd::prelude::*;

use crate::fingerprint::LogFilter;
use crate::FinalityLevel;
use crate::IndexError;

verus! {

/// An RPC endpoint: an address to connect to, or a client built by the caller.
pub enum Endpoint<T> {
    Url(String),
    Client(T),
}

/// The inputs of an engine, every required one present.
pub struct IndexerConfig<S, P, T> {
    pub http: Endpoint<T>,
    pub ws: Option<Endpoint<T>>,
    pub filter: LogFilter,
    pub processor: P,
    pub storage: S,
    pub fetch_interval: Duration,
    pub overtake_interval: Duration,
    pub block_range_limit: Option<u64>,
    pub finality_level: FinalityLevel,
}

/// Collects the inputs of an engine; `S` is the storage backend, `P` the
/// processor and `T` an RPC client.
pub struct IndexerBuilder<S, P, T> {
    pub http_rpc_url: Option<String>,
    pub http_provider: Option<T>,
    pub ws_provider: Option<T>,
    pub ws_rpc_url: Option<String>,
    pub fetch_interval: Option<Duration>,
    pub overtake_interval: Option<Duration>,
    pub filter: Option<LogFilter>,
    pub processor: Option<P>,
    pub storage: Option<S>,
    pub block_range_limit: Option<u64>,
    pub finality_level: FinalityLevel,
}

/// The inputs without which no engine can be built.
pub open spec fn has_required<S, P, T>(b: IndexerBuilder<S, P, T>) -> bool {
    (b.http_provider is Some || b.http_rpc_url is Some) && b.processor is Some && b.filter is Some
        && b.fetch_interval is Some && b.storage is Some
}

impl<S, P, T> IndexerBuilder<S, P, T> {
    /// A builder with no option set and finality level `Finalized`.
    pub fn new() -> (b: Self)
        ensures
            b.http_rpc_url is None,
            b.http_provider is None,
            b.ws_provider is None,
            b.ws_rpc_url is None,
            b.fetch_interval is None,
            b.overtake_interval is None,
            b.filter is None,
            b.processor is None,
            b.storage is None,
            b.block_range_limit is None,
            b.finality_level == FinalityLevel::Finalized,
    {
        IndexerBuilder {
            http_rpc_url: None,
            http_provider: None,
            ws_provider: None,
            ws_rpc_url: None,
            fetch_interval: None,
            overtake_interval: None,
            filter: None,
            processor: None,
            storage: None,
            block_range_limit: None,
            finality_level: FinalityLevel::Finalized,
        }
    }

    /// Sets the storage backend (a Postgres pool).
    pub fn pg_storage(self, pool: S) -> (b: Self)
        ensures
            b == (IndexerBuilder { storage: Some(pool), ..self }),
    {
        IndexerBuilder { storage: Some(pool), ..self }
    }

    /// Sets the storage backend (an SQLite pool).
    pub fn sqlite_storage(self, pool: S) -> (b: Self)
        ensures
            b == (IndexerBuilder { storage: Some(pool), ..self }),
    {
        IndexerBuilder { storage: Some(pool), ..self }
    }

    pub fn http_rpc_url(self, url: String) -> (b: Self)
        ensures
            b == (IndexerBuilder { http_rpc_url: Some(url), ..self }),
    {
        IndexerBuilder { http_rpc_url: Some(url), ..self }
    }

    pub fn http_provider(self, p: T) -> (b: Self)
        ensures
            b == (IndexerBuilder { http_provider: Some(p), ..self }),
    {
        IndexerBuilder { http_provider: Some(p), ..self }
    }

    pub fn filter(self, filter_data: LogFilter) -> (b: Self)
        ensures
            b == (IndexerBuilder { filter: Some(filter_data), ..self }),
    {
        IndexerBuilder { filter: Some(filter_data), ..self }
    }

    pub fn set_processor(self, function: P) -> (b: Self)
        ensures
            b == (IndexerBuilder { processor: Some(function), ..self }),
    {
        IndexerBuilder { processor: Some(function), ..self }
    }

    pub fn block_range_limit(self, limit: u64) -> (b: Self)
        ensures
            b == (IndexerBuilder { block_range_limit: Some(limit), ..self }),
    {
        IndexerBuilder { block_range_limit: Some(limit), ..self }
    }

    pub fn block_range_limit_opt(self, limit: Option<u64>) -> (b: Self)
        ensures
            b == (IndexerBuilder { block_range_limit: limit, ..self }),
    {
        IndexerBuilder { block_range_limit: limit, ..self }
    }

    pub fn ws_provider(self, p: T) -> (b: Self)
        ensures
            b == (IndexerBuilder { ws_provider: Some(p), ..self }),
    {
        IndexerBuilder { ws_provider: Some(p), ..self }
    }

    pub fn ws_provider_opt(self, p: Option<T>) -> (b: Self)
        ensures
            b == (IndexerBuilder { ws_provider: p, ..self }),
    {
        IndexerBuilder { ws_provider: p, ..self }
    }

    pub fn ws_rpc_url(self, url: String) -> (b: Self)
        ensures
            b == (IndexerBuilder { ws_rpc_url: Some(url), ..self }),
    {
        IndexerBuilder { ws_rpc_url: Some(url), ..self }
    }

    pub fn ws_rpc_url_opt(self, url: Option<String>) -> (b: Self)
        ensures
            b == (IndexerBuilder { ws_rpc_url: url, ..self }),
    {
        IndexerBuilder { ws_rpc_url: url, ..self }
    }

    pub fn overtake_interval(self, interval: Duration) -> (b: Self)
        ensures
            b == (IndexerBuilder { overtake_interval: Some(interval), ..self }),
    {
        IndexerBuilder { overtake_interval: Some(interval), ..self }
    }

    pub fn fetch_interval(self, interval: Duration) -> (b: Self)
        ensures
            b == (IndexerBuilder { fetch_interval: Some(interval), ..self }),
    {
        IndexerBuilder { fetch_interval: Some(interval), ..self }
    }

    pub fn finality_level(self, level: FinalityLevel) -> (b: Self)
        ensures
            b == (IndexerBuilder { finality_level: level, ..self }),
    {
        IndexerBuilder { finality_level: level, ..self }
    }

    /// Checks that every required input is present. A client given for an
    /// endpoint is preferred over an address; the catch-up delay defaults to
    /// the poll period.
    pub fn build(self) -> (r: Result<IndexerConfig<S, P, T>, IndexError>)
        ensures
            r is Err <==> !has_required(self),
            r is Err ==> r == Err::<IndexerConfig<S, P, T>, IndexError>(IndexError::ConfigMissing),
            r matches Ok(c) ==> {
                &&& c.http == (match self.http_provider {
                    Some(p) => Endpoint::Client(p),
                    None => Endpoint::Url(self.http_rpc_url->0),
                })
                &&& c.ws == (match self.ws_provider {
                    Some(p) => Some(Endpoint::Client(p)),
                    None => match self.ws_rpc_url {
                        Some(u) => Some(Endpoint::Url(u)),
                        None => None,
                    },
                })
                &&& c.filter == self.filter->0
                &&& c.processor == self.processor->0
                &&& c.storage == self.storage->0
                &&& c.fetch_interval == self.fetch_interval->0
                &&& c.overtake_interval == (match self.overtake_interval {
                    Some(d) => d,
                    None => self.fetch_interval->0,
                })
                &&& c.block_range_limit == self.block_range_limit
                &&& c.finality_level == self.finality_level
            },
    {
        let http = match self.http_provider {
            Some(p) => Endpoint::Client(p),
            None => match self.http_rpc_url {
                Some(u) => Endpoint::Url(u),
                None => return Err(IndexError::ConfigMissing),
            },
        };
        let ws = match self.ws_provider {
            Some(p) => Some(Endpoint::Client(p)),
            None => match self.ws_rpc_url {
                Some(u) => Some(Endpoint::Url(u)),
                None => None,
            },
        };
        let processor = match self.processor {
            Some(p) => p,
            None => return Err(IndexError::ConfigMissing),
        };
        let filter = match self.filter {
            Some(f) => f,
            None => return Err(IndexError::ConfigMissing),
        };
        let fetch_interval = match self.fetch_interval {
            Some(d) => d,
            None => return Err(IndexError::ConfigMissing),
        };
        let storage = match self.storage {
            Some(s) => s,
            None => return Err(IndexError::ConfigMissing),
        };
        let overtake_interval = match self.overtake_interval {
            Some(d) => d,
            None => fetch_interval,
        };
        Ok(
            IndexerConfig {
                http,
                ws,
                filter,
                processor,
                storage,
                fetch_interval,
                overtake_interval,
                block_range_limit: self.block_range_limit,
                finality_level: self.finality_level,
            },
        )
    }
}

impl<S, P, T> Default for IndexerBuilder<S, P, T> {
    fn default() -> (b: Self)
        ensures
            b.http_rpc_url is None,
            b.http_provider is None,
            b.ws_provider is None,
            b.ws_rpc_url is None,
            b.fetch_interval is None,
            b.overtake_interval is None,
            b.filter is None,
            b.processor is None,
            b.storage is None,
            b.block_range_limit is None,
            b.finality_level == FinalityLevel::Finalized,
    {
        IndexerBuilder::new()
    }
}

} // verus!
