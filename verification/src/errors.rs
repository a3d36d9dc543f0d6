//! The error taxonomy of the scaffolding engine.

use vstd::prelude::*;

verus! {

/// Everything that can stop a generation run.
///
/// `AlreadyExists`: the target root directory is already present; choosing a
/// different name recovers. `InvalidName`: the requested name is empty or
/// contains a path separator. `IoFailure`: a directory or file could not be
/// written; raised by the caller that executes a plan, never by the planner
/// itself. `UnknownVariant`: a template variant name outside the closed set
/// was requested.
#[derive(Clone, Copy, Debug, PartialEq, Eq, Structural)]
pub enum ScaffoldError {
    AlreadyExists,
    InvalidName,
    IoFailure,
    UnknownVariant,
}

impl ScaffoldError {
    /// The single-line diagnostic for this error, naming the offending
    /// path, name or variant.
    pub open spec fn describe_model(self, subject: Seq<char>) -> Seq<char> {
        match self {
            ScaffoldError::AlreadyExists => "Error: Directory `"@ + subject + "` already exists!"@,
            ScaffoldError::InvalidName => "Error: Invalid project name `"@ + subject
                + "`: the name must be a single non-empty path segment!"@,
            ScaffoldError::IoFailure => "Error: Failed to write project files under `"@ + subject
                + "`!"@,
            ScaffoldError::UnknownVariant => "Error: Unknown template variant `"@ + subject
                + "`!"@,
        }
    }

    /// Renders the diagnostic for a concrete offending subject.
    pub fn describe(&self, subject: &str) -> (r: String)
        ensures
            r@ == self.describe_model(subject@),
    {
        match self {
            ScaffoldError::AlreadyExists => {
                let mut r = String::from_str("Error: Directory `");
                r.append(subject);
                r.append("` already exists!");
                r
            },
            ScaffoldError::InvalidName => {
                let mut r = String::from_str("Error: Invalid project name `");
                r.append(subject);
                r.append("`: the name must be a single non-empty path segment!");
                r
            },
            ScaffoldError::IoFailure => {
                let mut r = String::from_str("Error: Failed to write project files under `");
                r.append(subject);
                r.append("`!");
                r
            },
            ScaffoldError::UnknownVariant => {
                let mut r = String::from_str("Error: Unknown template variant `");
                r.append(subject);
                r.append("`!");
                r
            },
        }
    }
}

} // verus!
