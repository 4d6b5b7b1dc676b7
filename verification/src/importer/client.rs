//! Addressing of the ingestion endpoint and reading of its answer.

use vstd::prelude::*;
use vstd::string::StringExecFns;

verus! {

/// One message file read from a mail source.
#[derive(Debug, Clone, PartialEq, Eq)]
pub struct MailEntry {
    pub file_name: String,
    pub contents: Vec<u8>,
}

/// Where to upload, and with which token.
#[derive(Debug, Clone, PartialEq, Eq)]
pub struct CentaureissiClient {
    pub server: String,
    pub token: String,
}

/// How the answer to an upload is to be taken.
#[derive(Debug, Clone, Copy, PartialEq, Eq, Structural)]
pub enum UploadVerdict {
    /// The upload was accepted.
    Accepted,
    /// The server refused the upload and says why in the body of its answer.
    Refused,
    /// The answer is an HTTP error without a reason to read.
    HttpError,
}

/// How an answer with this status is to be taken. Status 200 accepts.
/// Status 400 and 500 refuse with a reason in the body. Any other client or
/// server error is an HTTP error; every other status counts as accepted.
pub open spec fn verdict_of(status: u16) -> UploadVerdict {
    if status == 200 {
        UploadVerdict::Accepted
    } else if status == 400 || status == 500 {
        UploadVerdict::Refused
    } else if 400 <= status < 600 {
        UploadVerdict::HttpError
    } else {
        UploadVerdict::Accepted
    }
}

impl CentaureissiClient {
    /// The address of the ingestion endpoint of the server.
    pub fn upload_url(&self) -> (url: String)
        ensures
            url@ == self.server@ + "/api/messages/add"@,
    {
        let mut api_path = self.server.clone();
        api_path.append("/api/messages/add");
        api_path
    }

    /// The value of the `Authorization` header of an upload.
    pub fn authorization(&self) -> (value: String)
        ensures
            value@ == "Bearer "@ + self.token@,
    {
        String::from_str("Bearer ").concat(self.token.as_str())
    }

    /// Reads the status of the answer to an upload.
    pub fn upload_verdict(status: u16) -> (verdict: UploadVerdict)
        ensures
            verdict == verdict_of(status),
    {
        if status == 200 {
            UploadVerdict::Accepted
        } else if status == 400 || status == 500 {
            UploadVerdict::Refused
        } else if 400 <= status && status < 600 {
            UploadVerdict::HttpError
        } else {
            UploadVerdict::Accepted
        }
    }
}

} // verus!
