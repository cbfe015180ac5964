//! Error types: a plain message-carrying error for snapshot operations, and
//! the taxonomy of failures met while resolving the current test's identity.

use vstd::prelude::*;
use vstd::string::*;
use crate::strutil;

verus! {

/// An error carrying a human-readable message.
#[derive(Debug, Clone)]
pub struct SnapError(pub String);

impl SnapError {
    /// The message the error carries.
    pub fn message(&self) -> (r: &String)
        ensures
            r@ == self.0@,
    {
        &self.0
    }
}

impl From<String> for SnapError {
    fn from(value: String) -> (r: Self) {
        SnapError(value)
    }
}

impl vstd::std_specs::convert::FromSpecImpl<String> for SnapError {
    open spec fn obeys_from_spec() -> bool {
        true
    }

    open spec fn from_spec(value: String) -> Self {
        SnapError(value)
    }
}

/// Why the current test's identity could not be resolved: the identity
/// string lacks the `"::"` separator, the environment variable holding it is
/// absent or not valid text, or no test file could be located.
#[derive(Debug, Clone, PartialEq, Eq)]
pub enum PytestInfoError {
    CouldNotSplit(String),
    MissingEnvVar,
    NotUnicodeEnvVar,
    NoTestFile,
}

impl PytestInfoError {
    /// The diagnostic message for this failure.
    pub fn message(&self) -> (r: String)
        ensures
            r@ == spec_pytest_info_error_message(*self),
    {
        match self {
            PytestInfoError::CouldNotSplit(s) => {
                let head = concat_lit_pre(s.as_str());
                strutil::concat_str(head.as_str(), ")")
            },
            PytestInfoError::MissingEnvVar => "PYTEST_CURRENT_TEST is not set".to_owned(),
            PytestInfoError::NotUnicodeEnvVar => {
                "PYTEST_CURRENT_TEST is not a valid unicode string".to_owned()
            },
            PytestInfoError::NoTestFile => "No test file found".to_owned(),
        }
    }
}

/// The message that each resolution failure renders.
pub open spec fn spec_pytest_info_error_message(e: PytestInfoError) -> Seq<char> {
    match e {
        PytestInfoError::CouldNotSplit(s) =>
            "Expected '::' to be in PYTEST_CURRENT_TEST string ("@ + s@ + ")"@,
        PytestInfoError::MissingEnvVar => "PYTEST_CURRENT_TEST is not set"@,
        PytestInfoError::NotUnicodeEnvVar =>
            "PYTEST_CURRENT_TEST is not a valid unicode string"@,
        PytestInfoError::NoTestFile => "No test file found"@,
    }
}

/// The fixed prefix of the split-failure message, joined to the offending
/// identity string.
fn concat_lit_pre(s: &str) -> (r: String)
    ensures
        r@ == "Expected '::' to be in PYTEST_CURRENT_TEST string ("@ + s@,
{
    strutil::concat_str("Expected '::' to be in PYTEST_CURRENT_TEST string (", s)
}

} // verus!
