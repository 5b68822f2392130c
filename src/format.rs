//! The table encodings a conversion reads and writes.
use vstd::prelude::*;

verus! {

/// A table encoding. Each one has one reader and one writer.
#[derive(Clone, Copy, Debug, PartialEq, Eq, Structural)]
pub enum Format {
    Csv,
    Parquet,
    Avro,
    Ipc,
    Json,
}

} // verus!
