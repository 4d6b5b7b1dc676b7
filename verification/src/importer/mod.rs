//! The computing half of the importer clients: where batches are cut and how
//! an upload is addressed and its answer read.

pub mod client;
pub mod maildir;
