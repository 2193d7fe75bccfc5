//! Firehose ingestion for ATProto relays: frame decoding, operation
//! classification, block lookup, record projection and the bookkeeping
//! behind the metrics and the profile cache.
pub mod car;
pub mod cid;
pub mod config;
pub mod events;
pub mod export;
pub mod frame;
pub mod language;
pub mod metrics;
pub mod operation;
pub mod profile;
pub mod record;
pub mod stream;
pub mod text;
pub mod time;
pub mod types;
pub mod window;
