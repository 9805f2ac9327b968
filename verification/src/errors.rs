use vstd::prelude::*;
use vstd::string::StringExecFns;

verus! {

/// The ways a reconciliation can fail.  Every failure is surfaced to the
/// caller; nothing is swallowed or retried.
#[derive(Debug, Clone, PartialEq, Eq)]
pub enum UpsertError {
    /// The entry path is not usable: it is absolute, it has no final
    /// segment, or a segment is a dot form.
    InvalidPath,
    /// A metadata record had to be created but the update supplies no title.
    MissingRequiredField,
    /// Reading or writing the tree failed; carries a description of the
    /// underlying failure.
    Io(String),
    /// A stored metadata record could not be decoded; carries a description
    /// of the underlying failure.
    Parse(String),
    /// A path segment could not be represented as a plain name.
    NameConversion,
}

impl UpsertError {
    /// A human-readable description of the failure.
    pub fn message(&self) -> String {
        match self {
            UpsertError::InvalidPath => String::from_str(
                "Only relative paths with a final segment are supported",
            ),
            UpsertError::MissingRequiredField => String::from_str(
                "A title is required for a newly created page",
            ),
            UpsertError::Io(cause) => {
                let mut m = String::from_str("Unable to access the tree: ");
                m.append(cause.as_str());
                m
            },
            UpsertError::Parse(cause) => {
                let mut m = String::from_str("Unable to parse entry meta: ");
                m.append(cause.as_str());
                m
            },
            UpsertError::NameConversion => String::from_str(
                "Unable to convert a path segment to a plain name",
            ),
        }
    }
}

} // verus!
