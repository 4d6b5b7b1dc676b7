//! Storage-and-indexing core of an email archive.
//!
//! Raw messages are deduplicated by content hash, stored compressed in a
//! blob store, recorded with their owner in a relational store and projected
//! into a full-text index. The three stores fail independently and no
//! transaction spans them, so every multi-store operation is a saga of
//! single writes, and repair actions re-derive one store from another.
//!
//! The stores themselves are on disk and outside this library. The library
//! holds everything that is decided or computed around them:
//!
//! - [`hash`]: the content hash.
//! - [`codec`]: the physical encoding of blobs and its transparent reading.
//! - [`email`] and [`utils::message`]: parsing and the projection of a
//!   message into its canonical fields.
//! - [`blobs`], [`archive`]: models of the stores and the laws that hold of
//!   them.
//! - [`ingest`]: the ingestion saga.
//! - [`actions`]: the decisions of the repair actions.
//! - [`search`]: the schema, the documents and the paging of the index.
//! - [`http`], [`db`], [`config`], [`importer`]: the plain shapes and rules
//!   of the surfaces around the core.

pub mod actions;
pub mod archive;
pub mod blobs;
pub mod codec;
pub mod config;
pub mod dates;
pub mod db;
pub mod email;
pub mod hash;
pub mod http;
pub mod importer;
pub mod ingest;
pub mod search;
pub mod text;
pub mod utils;
