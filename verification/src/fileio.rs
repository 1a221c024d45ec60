//! File command responses. The raw whole-file read or write happens at the
//! process boundary; here its outcome is shaped into the command result,
//! with failures carried as a typed error whose boundary string form is a
//! rendering, not the source of truth.

use vstd::prelude::*;

verus! {

/// Which file operation failed.
#[derive(Debug, PartialEq, Eq, Structural, Clone, Copy)]
pub enum FileOp {
    Read,
    Write,
}

/// A file read or write failure: the operation, the path it was given and
/// the underlying cause.
#[derive(Debug)]
pub struct IoError {
    pub op: FileOp,
    pub path: String,
    pub cause: String,
}

/// The boundary string for a failure: `Failed to read file {path}: {cause}`
/// or `Failed to write file {path}: {cause}`.
pub open spec fn io_error_text(op: FileOp, path: Seq<char>, cause: Seq<char>) -> Seq<char> {
    (match op {
        FileOp::Read => "Failed to read file "@,
        FileOp::Write => "Failed to write file "@,
    }) + path + ": "@ + cause
}

impl IoError {
    /// Renders the error into its boundary string form.
    pub fn message(&self) -> (m: String)
        ensures
            m@ == io_error_text(self.op, self.path@, self.cause@),
    {
        let mut m = match self.op {
            FileOp::Read => String::from_str("Failed to read file "),
            FileOp::Write => String::from_str("Failed to write file "),
        };
        m.append(self.path.as_str());
        m.append(": ");
        m.append(self.cause.as_str());
        m
    }
}

/// Shapes the result of the read-file command from the raw outcome of the
/// whole-file read: content passes through unchanged, and any failure
/// becomes a read `IoError` carrying the path and the cause.
pub fn read_file_response(path: String, outcome: Result<String, String>) -> (r: Result<
    String,
    IoError,
>)
    ensures
        (match outcome {
            Ok(content) => r == Result::<String, IoError>::Ok(content),
            Err(cause) => r matches Err(e) && e.op == FileOp::Read && e.path == path && e.cause
                == cause,
        }),
{
    match outcome {
        Ok(content) => Ok(content),
        Err(cause) => Err(IoError { op: FileOp::Read, path, cause }),
    }
}

/// Shapes the result of the write-file command from the raw outcome of the
/// whole-file write: success passes through, and any failure becomes a
/// write `IoError` carrying the path and the cause.
pub fn write_file_response(path: String, outcome: Result<(), String>) -> (r: Result<(), IoError>)
    ensures
        (match outcome {
            Ok(u) => r == Result::<(), IoError>::Ok(u),
            Err(cause) => r matches Err(e) && e.op == FileOp::Write && e.path == path && e.cause
                == cause,
        }),
{
    match outcome {
        Ok(u) => Ok(u),
        Err(cause) => Err(IoError { op: FileOp::Write, path, cause }),
    }
}

} // verus!
