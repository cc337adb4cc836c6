//! Building blocks for preparing plane-wave DFT input decks from a substrate
//! cell and a library of small metal-cluster cells: seed naming, lattice
//! combination under a rigid translation, species bookkeeping and the checks
//! that precede writing a deck.

pub mod cell_text;
pub mod deck;
pub mod error;
pub mod lattice;
pub mod naming;
pub mod species;
