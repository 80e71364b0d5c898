//! Sensor telemetry ingestion: identifier generation, row construction and
//! the per-request decisions of the ingestion handler.

pub mod id;
pub mod clock;
pub mod reading;
pub mod ingest;
pub mod store;
