//! Deployment configuration and the persisted layout derived from it.
//!
//! The three stores live under one data directory. Their relative paths are
//! fixed here so that they stay stable across restarts.

use vstd::prelude::*;
use vstd::string::StringExecFns;

verus! {

/// Configuration of one archive deployment.
#[derive(Debug, Clone)]
pub struct CentaureissiConfig {
    /// Data directory to store database and blobs
    pub data_dir: String,
    /// Auth secret used to sign JWTs
    pub auth_secret: String,
    /// Disable registration on the instance
    pub disable_registration: bool,
    /// Be verbose on logging
    pub verbose: bool,
}

impl CentaureissiConfig {
    /// Path of the relational database file below `data_dir`.
    pub open spec fn database_url(self) -> Seq<char> {
        self.data_dir@ + "/centaureissi.db"@
    }

    /// Path of the search index directory below `data_dir`.
    pub open spec fn search_index_path(self) -> Seq<char> {
        self.data_dir@ + "/search"@
    }

    /// Path of the blob store file below `data_dir`.
    pub open spec fn blob_db_path(self) -> Seq<char> {
        self.data_dir@ + "/blobs.db"@
    }

    /// The relational database file: the data directory followed by
    /// `/centaureissi.db`.
    pub fn get_database_url(&self) -> (url: String)
        ensures
            url@ == self.database_url(),
    {
        let mut database_url = self.data_dir.clone();
        database_url.append("/centaureissi.db");
        database_url
    }

    /// The search index directory: the data directory followed by `/search`.
    pub fn get_search_index_path(&self) -> (path: String)
        ensures
            path@ == self.search_index_path(),
    {
        let mut search_index = self.data_dir.clone();
        search_index.append("/search");
        search_index
    }

    /// The blob store file: the data directory followed by `/blobs.db`.
    pub fn get_blob_db_path(&self) -> (path: String)
        ensures
            path@ == self.blob_db_path(),
    {
        let mut blob_db_file = self.data_dir.clone();
        blob_db_file.append("/blobs.db");
        blob_db_file
    }
}

/// The three store locations are pairwise different, whatever the data
/// directory is.
pub proof fn store_paths_distinct(config: CentaureissiConfig)
    ensures
        config.database_url() != config.search_index_path(),
        config.database_url() != config.blob_db_path(),
        config.search_index_path() != config.blob_db_path(),
{
    reveal_strlit("/centaureissi.db");
    reveal_strlit("/search");
    reveal_strlit("/blobs.db");
    let d = config.data_dir@;
    let n = d.len() as int;
    assert(config.database_url().len() == n + 16);
    assert(config.search_index_path().len() == n + 7);
    assert(config.blob_db_path().len() == n + 9);
}

} // verus!
