//! Conversion of tabular data between encodings, with column and row filtering
//! and local or object-store storage endpoints.
//!
//! The verified core: the in-memory table model, the column and row filters,
//! the classification of storage locations, the decisions of a storage session
//! (when to download, spool and upload) and the run configuration.
pub mod config;
pub mod format;
pub mod storage;
pub mod table;
pub mod text;
pub mod transform;
