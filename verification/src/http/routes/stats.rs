//! The stats surface: raw figures of the stores, for monitoring.

use crate::http::models::responses::StatsResponse;
use vstd::prelude::*;

verus! {

/// Assembles the stats answer from what the stores report: the sizes of the
/// two store files, the number of metadata records, the number of blobs and
/// the number of search documents.
///
/// The record count comes from the relational store as a signed number; a
/// count below zero, which no store reports, is shown as zero.
pub fn stats(
    version: String,
    db_size: u64,
    blob_db_size: u64,
    message_count: i64,
    blob_count: u64,
    search_doc_count: u64,
) -> (response: StatsResponse)
    ensures
        response.version == version,
        response.db_size == db_size,
        response.blob_db_size == blob_db_size,
        response.blob_count == blob_count,
        response.search_doc_count == search_doc_count,
        message_count >= 0 ==> response.message_count == message_count,
        message_count < 0 ==> response.message_count == 0,
{
    let shown: u64 = if message_count >= 0 {
        message_count as u64
    } else {
        0
    };
    StatsResponse {
        version,
        db_size,
        message_count: shown,
        blob_db_size,
        blob_count,
        search_doc_count,
    }
}

} // verus!
