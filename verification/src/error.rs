//! The library's error type and the small logging helpers around it.
//!
//! Failures are classified as repository errors or domain-level messages;
//! recovered errors may be reported on standard error, and nothing is ever
//! written to standard output.

use std::io::Write;

use vstd::prelude::*;

use crate::git_ext;

verus! {

/// Whether recovered errors are reported on standard error.
pub const VERBOSE_ERRORS: bool = true;

/// A failure of the repository inspection: either an error of the
/// repository library, or a domain-level message.
#[derive(Debug)]
pub enum PromptError {
    Git(git2::Error),
    Message(String),
}



impl PromptError {
    /// The human-readable message of this error.
    pub fn message_text(&self) -> (r: String)
        ensures
            self matches PromptError::Message(m) ==> r@ == m@,
    {
        match self {
            PromptError::Git(err) => git_ext::git_error_text(err),
            PromptError::Message(m) => m.clone(),
        }
    }
}

impl From<git2::Error> for PromptError {
    fn from(err: git2::Error) -> Self {
        PromptError::Git(err)
    }
}

impl vstd::std_specs::convert::FromSpecImpl<git2::Error> for PromptError {
    open spec fn obeys_from_spec() -> bool {
        true
    }

    open spec fn from_spec(err: git2::Error) -> Self {
        PromptError::Git(err)
    }
}

impl From<String> for PromptError {
    fn from(message: String) -> Self {
        PromptError::Message(message)
    }
}

impl vstd::std_specs::convert::FromSpecImpl<String> for PromptError {
    open spec fn obeys_from_spec() -> bool {
        true
    }

    open spec fn from_spec(message: String) -> Self {
        PromptError::Message(message)
    }
}

/// Relies on std::io::Stderr::write_fmt, through the `writeln` macro: prints
/// one line to standard error; nothing reaches standard output.
#[verifier::external_body]
fn write_error_line(line: &str) {
    let _ = writeln!(std::io::stderr(), "{}", line);
}

pub trait LogError {
    fn log(&self);
}

impl LogError for PromptError {
    /// Prints the error message to standard error when verbose errors are on.
    fn log(&self) {
        if VERBOSE_ERRORS {
            let mut line = String::from_str(":  ");
            let text = self.message_text();
            line.append(text.as_str());
            write_error_line(line.as_str());
        }
    }
}

pub trait MapLog<T> {
    fn map_log(self) -> Option<T>;
}

impl<T> MapLog<T> for Result<T, PromptError> {
    /// Logs the error, if there is one, and turns the result into an option.
    fn map_log(self) -> (r: Option<T>)
        ensures
            self matches Ok(v) ==> r == Some(v),
            self matches Err(_) ==> r is None,
    {
        match self {
            Ok(v) => Some(v),
            Err(err) => {
                err.log();
                None
            },
        }
    }
}

} // verus!
