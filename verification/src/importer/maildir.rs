//! Cutting a stream of message files into upload batches.
//!
//! Files are collected until the batch holds 100 of them, or 10 000 000
//! bytes, or the source is exhausted; then the batch is due.

use crate::importer::client::MailEntry;
use vstd::prelude::*;

verus! {

/// Number of bytes from which on a batch is due.
pub const BATCH_BYTES: usize = 10_000_000;

/// Number of files from which on a batch is due.
pub const BATCH_FILES: usize = 100;

/// The summed length of the contents of `entries`.
pub open spec fn total_bytes(entries: Seq<MailEntry>) -> nat
    decreases entries.len(),
{
    if entries.len() == 0 {
        0
    } else {
        total_bytes(entries.drop_last()) + entries.last().contents@.len()
    }
}

/// Whether a batch of these entries is due, `last` telling that the source
/// has no further file.
pub open spec fn is_due(entries: Seq<MailEntry>, last: bool) -> bool {
    total_bytes(entries) >= BATCH_BYTES || entries.len() >= BATCH_FILES || last
}

/// The files collected for the next upload, with the paths they were read
/// from.
#[derive(Debug)]
pub struct UploadBatch {
    messages: Vec<MailEntry>,
    paths: Vec<String>,
    size: usize,
}

impl UploadBatch {
    /// The entries collected so far, in the order in which they came.
    pub closed spec fn entries(&self) -> Seq<MailEntry> {
        self.messages@
    }

    /// The paths of the entries collected so far.
    pub closed spec fn sources(&self) -> Seq<String> {
        self.paths@
    }

    /// There is one path for each entry, and the byte count is kept, up to
    /// the largest machine word.
    #[verifier::type_invariant]
    closed spec fn counts_are_kept(&self) -> bool {
        &&& self.paths@.len() == self.messages@.len()
        &&& if total_bytes(self.messages@) <= usize::MAX {
            self.size == total_bytes(self.messages@)
        } else {
            self.size == usize::MAX
        }
    }

    /// A batch that holds nothing.
    pub fn new() -> (batch: UploadBatch)
        ensures
            batch.entries().len() == 0,
            batch.sources().len() == 0,
    {
        UploadBatch { messages: Vec::new(), paths: Vec::new(), size: 0 }
    }

    /// Adds one file, read from `path`, to the batch.
    pub fn add(self, entry: MailEntry, path: String) -> (batch: UploadBatch)
        ensures
            batch.entries() == self.entries().push(entry),
            batch.sources() == self.sources().push(path),
    {
        proof {
            use_type_invariant(&self);
            assert(self.messages@.push(entry).drop_last() == self.messages@);
        }
        let size = match self.size.checked_add(entry.contents.len()) {
            Some(sum) => sum,
            None => usize::MAX,
        };
        let mut messages = self.messages;
        let mut paths = self.paths;
        messages.push(entry);
        paths.push(path);
        UploadBatch { messages, paths, size }
    }

    /// Whether the batch is to be uploaded now, `last` telling that the
    /// source has no further file.
    pub fn due(&self, last: bool) -> (due: bool)
        ensures
            due == is_due(self.entries(), last),
    {
        proof {
            use_type_invariant(self);
        }
        self.size >= BATCH_BYTES || self.messages.len() >= BATCH_FILES || last
    }

    /// Hands out the collected files and their paths.
    pub fn take(self) -> (parts: (Vec<MailEntry>, Vec<String>))
        ensures
            parts.0@ == self.entries(),
            parts.1@ == self.sources(),
            parts.0@.len() == parts.1@.len(),
    {
        proof {
            use_type_invariant(&self);
        }
        (self.messages, self.paths)
    }
}

} // verus!
