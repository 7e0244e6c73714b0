use vstd::prelude::*;
use reqwest::Error as ReqwestError;
use serde_json::Error as JsonError;
use std::io::Error as IoError;

verus! {

/// serde_json's error, carried as it came from decoding or encoding.
#[verifier::external_type_specification]
#[verifier::external_body]
pub struct ExJsonError(JsonError);

/// std's I/O error, carried as it came from a file operation.
#[verifier::external_type_specification]
#[verifier::external_body]
pub struct ExIoError(IoError);

/// reqwest's error, carried as it came from the HTTP client.
#[verifier::external_type_specification]
#[verifier::external_body]
pub struct ExReqwestError(ReqwestError);

/// The closed set of failures that the retrieval path reports.
#[derive(Debug)]
pub enum ErrorKind {
    /// The command line did not name repositories as `owner/name`.
    BadArgs,
    /// A repository produced no records.
    EmptyData,
    /// The API token was not available.
    NoToken,
    /// A response body could not be decoded, or records not encoded.
    Json(JsonError),
    /// Reading or writing a file failed.
    Io(IoError),
    /// The network request itself failed.
    Reqwest(ReqwestError),
}

/// The sentence that opens the description of an error of kind `k`.
pub open spec fn kind_message(k: ErrorKind) -> Seq<char> {
    match k {
        ErrorKind::BadArgs => "Called with bad arguments: "@,
        ErrorKind::EmptyData => "Unexpectedly empty data: "@,
        ErrorKind::NoToken => "The environmental variable GITHUB_API_TOKEN must contain your GitHub API token. Context: "@,
        ErrorKind::Json(_) => "Serde JSON error: "@,
        ErrorKind::Io(_) => "IO error: "@,
        ErrorKind::Reqwest(_) => "Reqwest error: "@,
    }
}

/// An error kind together with a free-form description of what failed.
#[derive(Debug)]
pub struct Error {
    context: String,
    errorkind: ErrorKind,
}

pub type Result<T> = core::result::Result<T, Error>;

impl Error {
    pub closed spec fn context_spec(&self) -> Seq<char> {
        self.context@
    }

    pub closed spec fn kind_spec(&self) -> ErrorKind {
        self.errorkind
    }

    pub fn new(context: &str, errorkind: ErrorKind) -> (e: Error)
        ensures
            e.context_spec() == context@,
            e.kind_spec() == errorkind,
    {
        Error { context: context.to_owned(), errorkind }
    }

    pub fn context(&self) -> (r: &str)
        ensures
            r@ == self.context_spec(),
    {
        self.context.as_str()
    }

    pub fn kind(&self) -> (r: &ErrorKind)
        ensures
            *r == self.kind_spec(),
    {
        &self.errorkind
    }

    /// A description for people: a sentence naming the kind, then the context.
    pub fn message(&self) -> (r: String)
        ensures
            r@ == kind_message(self.kind_spec()) + self.context_spec(),
    {
        let mut r = match &self.errorkind {
            ErrorKind::BadArgs => "Called with bad arguments: ".to_owned(),
            ErrorKind::EmptyData => "Unexpectedly empty data: ".to_owned(),
            ErrorKind::NoToken => "The environmental variable GITHUB_API_TOKEN must contain your GitHub API token. Context: ".to_owned(),
            ErrorKind::Json(_) => "Serde JSON error: ".to_owned(),
            ErrorKind::Io(_) => "IO error: ".to_owned(),
            ErrorKind::Reqwest(_) => "Reqwest error: ".to_owned(),
        };
        r.append(self.context.as_str());
        r
    }
}

} // verus!
