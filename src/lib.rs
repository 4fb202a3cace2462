//! Indexing of per-user photo folders, inference of when each photo was
//! taken, reconciliation against a stored catalog, and the decisions behind
//! thumbnail and preview generation.

pub mod datetime;
pub mod names;
pub mod name_timestamp;
pub mod sidecar;
pub mod media_type;
pub mod exif_data;
pub mod timestamp;
pub mod photo;
pub mod catalog;
pub mod scan;
pub mod storage;
pub mod derivative;
pub mod manager;
