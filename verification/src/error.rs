//! The errors that the command surface returns.

use vstd::prelude::*;
use crate::text::push_signed_decimal;
use crate::text::push_text;
use crate::text::signed_decimal;
use crate::text::string_of;

verus! {

/// An error of the command surface.
#[derive(Debug, PartialEq, Eq)]
pub enum AppError {
    /// The operating system refused an operation.
    IoError(String),
    /// The worker ended with a failure.
    ProcessFailed { exit_code: i32, stderr: String },
    /// An input of a command was refused.
    ValidationFailed(String),
    JobAlreadyExists,
    JobNotFound,
    ProcessKillFailed(String),
}

impl AppError {
    /// The message of this error.
    pub open spec fn message_text(self) -> Seq<char> {
        match self {
            AppError::IoError(detail) => "I/O Error: "@ + detail@,
            AppError::ProcessFailed { exit_code, stderr } => "yt-dlp process failed with exit code "@
                + signed_decimal(exit_code as int) + ": "@ + stderr@,
            AppError::ValidationFailed(detail) => "Validation failed: "@ + detail@,
            AppError::JobAlreadyExists => "A download for this URL is already in progress."@,
            AppError::JobNotFound => "Job with the specified ID was not found."@,
            AppError::ProcessKillFailed(detail) => "Failed to kill process: "@ + detail@,
        }
    }

    /// The message of this error.
    pub fn message(&self) -> (r: String)
        ensures
            r@ == self.message_text(),
    {
        let mut out: Vec<char> = Vec::new();
        match self {
            AppError::IoError(detail) => {
                push_text(&mut out, "I/O Error: ");
                push_text(&mut out, detail.as_str());
            },
            AppError::ProcessFailed { exit_code, stderr } => {
                push_text(&mut out, "yt-dlp process failed with exit code ");
                push_signed_decimal(&mut out, *exit_code);
                push_text(&mut out, ": ");
                push_text(&mut out, stderr.as_str());
            },
            AppError::ValidationFailed(detail) => {
                push_text(&mut out, "Validation failed: ");
                push_text(&mut out, detail.as_str());
            },
            AppError::JobAlreadyExists => {
                push_text(&mut out, "A download for this URL is already in progress.");
            },
            AppError::JobNotFound => {
                push_text(&mut out, "Job with the specified ID was not found.");
            },
            AppError::ProcessKillFailed(detail) => {
                push_text(&mut out, "Failed to kill process: ");
                push_text(&mut out, detail.as_str());
            },
        }
        assert(out@ =~= self.message_text());
        string_of(&out)
    }
}

} // verus!
