use vstd::prelude::*;

verus! {

/// The ways in which preparing a deck can fail.
#[derive(Debug, Clone, PartialEq, Eq)]
pub enum DeckError {
    /// A cell file lacks a required block or holds a malformed one.
    ParseError { file: String, reason: String },
    /// A filesystem operation failed.
    IoError { path: String, cause: String },
    /// No pseudopotential file exists for a species of the lattice.
    MissingPotential { species: String },
    /// The seed name is empty or holds a path separator.
    InvalidSeedName { name: String },
}

} // verus!
