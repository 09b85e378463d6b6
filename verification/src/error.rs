//! The library's failure taxonomy. A provider that merely declines to match
//! is not an error; these variants cover real failures while resolving a
//! branch.

use vstd::prelude::*;

verus! {

/// Why a branch could not be determined.
///
/// `Io` carries a description of an underlying filesystem or process-spawn
/// failure, supplied by the caller that performed the read. `Parse` means a
/// recognized metadata file exists but its content does not match the
/// expected internal format; it carries the literal offending content
/// (trimmed) for diagnosability.
#[derive(Debug, Clone, PartialEq)]
pub enum VcsError {
    Io(String),
    Parse(String),
}

impl VcsError {
    pub open spec fn spec_is_io(&self) -> bool {
        match self {
            VcsError::Io(_) => true,
            VcsError::Parse(_) => false,
        }
    }

    pub open spec fn spec_is_parse(&self) -> bool {
        match self {
            VcsError::Io(_) => false,
            VcsError::Parse(_) => true,
        }
    }

    /// The carried description or offending content.
    pub open spec fn spec_detail(&self) -> Seq<char> {
        match self {
            VcsError::Io(m) => m@,
            VcsError::Parse(m) => m@,
        }
    }

    pub fn is_io(&self) -> (r: bool)
        ensures
            r == self.spec_is_io(),
    {
        match self {
            VcsError::Io(_) => true,
            VcsError::Parse(_) => false,
        }
    }

    pub fn is_parse(&self) -> (r: bool)
        ensures
            r == self.spec_is_parse(),
    {
        match self {
            VcsError::Io(_) => false,
            VcsError::Parse(_) => true,
        }
    }

    pub fn detail(&self) -> (r: &str)
        ensures
            r@ == self.spec_detail(),
    {
        match self {
            VcsError::Io(m) => m.as_str(),
            VcsError::Parse(m) => m.as_str(),
        }
    }
}

} // verus!
