//! Ingestion of cadastral parcel records: mapping raw named-field records to
//! typed parcels, batching them, loading the batches into a columnar store,
//! and the reports that read them back.

pub mod chunker;
pub mod data_mapper;
pub mod loader;
pub mod number;
pub mod parcel_record;
pub mod query;
pub mod schema;
pub mod text;
