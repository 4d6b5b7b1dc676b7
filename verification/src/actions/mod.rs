//! The repair actions: offline procedures that re-derive one store from
//! another. They assume exclusive access to the stores.

/// Compress blobs that were stored uncompressed
pub mod compress;
/// Rebuild missing metadata records from the blob index
pub mod rebuild_messages;
/// Rebuild the search index from metadata records and blobs
pub mod rebuild_search;
