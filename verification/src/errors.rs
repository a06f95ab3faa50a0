//! Two layered error sets: failures while preparing content for output, and
//! failures while producing the output itself. Every content-preparation
//! error maps to exactly one output-production error, adding no field.

use vstd::prelude::*;

verus! {

/// Declares `base64::DecodeError`, the error returned by the base64 engine
/// when decoding malformed input.
#[verifier::external_type_specification]
#[verifier::external_body]
pub struct ExDecodeError(base64::DecodeError);

/// A failure reported by the source-control collaborator while listing or
/// fetching a document's images.
#[derive(Debug)]
pub struct GitHubError {
    pub message: String,
}

/// A failure reported by the file store while touching the render workspace.
/// Each variant names the operation that failed and carries the path.
#[derive(Debug)]
pub enum FileIoError {
    Create { path: String },
    Write { path: String },
    Remove { path: String },
}

/// A failure of the external conversion capability: the unit of work it was
/// handed did not run to completion.
#[derive(Debug)]
pub struct TaskError {
    pub message: String,
}

/// Failures while preparing a document's content for output.
#[derive(Debug)]
pub enum RfdContentError {
    /// An embedded image's base64 content could not be decoded.
    Decode(base64::DecodeError),
    /// Communication with the source-control collaborator failed.
    GitHub(GitHubError),
    /// A text-encoding conversion failed.
    InvalidContent,
    /// A general I/O failure outside the render workspace.
    Io(String),
    /// An I/O failure inside the render workspace.
    File(FileIoError),
    /// Reserved for the dialect-parser collaborator: it did not complete.
    ParserFailed,
    /// An asynchronous unit of work did not run to completion.
    TaskFailure(TaskError),
}

/// Failures while producing a rendered output artifact. Content-preparation
/// failures are wrapped, one variant to one variant, by `ContentFailure`.
#[derive(Debug)]
pub enum RfdOutputError {
    /// The conversion capability's unit of work did not run to completion.
    Command(TaskError),
    /// Preparing the content failed; the inner error says how.
    ContentFailure(RfdContentError),
    /// An I/O failure inside the render workspace.
    File(FileIoError),
    /// The document's dialect has no PDF rendering.
    FormatNotSupported,
    /// A general process I/O failure.
    Io(String),
}

impl RfdOutputError {
    /// Wraps a content-preparation failure as an output-production failure.
    /// The mapping adds no field and is injective: two distinct content
    /// errors never collapse into one output error.
    pub fn from_content(err: RfdContentError) -> (r: RfdOutputError)
        ensures
            r == RfdOutputError::ContentFailure(err),
    {
        RfdOutputError::ContentFailure(err)
    }
}

} // verus!
