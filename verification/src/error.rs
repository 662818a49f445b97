//! The ways in which an operation of this library can fail.
use vstd::prelude::*;

verus! {

/// Why an operation produced no value.
#[derive(Clone, Copy, Debug, PartialEq, Eq, Structural)]
pub enum Error {
    /// An input buffer has the wrong length, or its bytes are not the
    /// canonical encoding of a value of the type it stands for.
    Validation,
    /// No token can be issued for the given key and identifier.
    Signing,
    /// No proof can be constructed for the given identifier.
    ProofConstruction,
}

impl Error {
    /// A short description of the failure, fit for an error message.
    pub fn message(&self) -> (out: &'static str)
        ensures
            out@ == (match *self {
                Error::Validation => "malformed input"@,
                Error::Signing => "token could not be issued"@,
                Error::ProofConstruction => "proof could not be constructed"@,
            }),
    {
        match self {
            Error::Validation => "malformed input",
            Error::Signing => "token could not be issued",
            Error::ProofConstruction => "proof could not be constructed",
        }
    }
}

} // verus!
