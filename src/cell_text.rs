use vstd::prelude::*;
use crate::error::DeckError;
use crate::naming::{contains_seq, contains_str};

verus! {

/// The name of the block that holds the cell vectors.
pub open spec fn lattice_block() -> Seq<char> {
    seq!['L', 'A', 'T', 'T', 'I', 'C', 'E', '_', 'C', 'A', 'R', 'T']
}

/// The name of the block that holds fractional atom positions.
pub open spec fn frac_positions_block() -> Seq<char> {
    seq!['P', 'O', 'S', 'I', 'T', 'I', 'O', 'N', 'S', '_', 'F', 'R', 'A', 'C']
}

/// The name of the block that holds absolute atom positions.
pub open spec fn abs_positions_block() -> Seq<char> {
    seq!['P', 'O', 'S', 'I', 'T', 'I', 'O', 'N', 'S', '_', 'A', 'B', 'S']
}

/// Whether a cell text names a block of atom positions, fractional or absolute.
pub open spec fn has_positions(text: Seq<char>) -> bool {
    contains_seq(text, frac_positions_block()) || contains_seq(text, abs_positions_block())
}

/// Accepts the text of a cell file only where it names both required blocks:
/// the cell vectors, and the atom positions (fractional or absolute). Any
/// other text fails with a parse error that names `file`.
pub fn check_cell_text(file: &str, text: &str) -> (r: Result<(), DeckError>)
    ensures
        match r {
            Ok(()) => contains_seq(text@, lattice_block()) && has_positions(text@),
            Err(DeckError::ParseError { file: f, reason: _ }) => f@ == file@ && !(contains_seq(
                text@,
                lattice_block(),
            ) && has_positions(text@)),
            Err(_) => false,
        },
{
    let lattice = "LATTICE_CART";
    let frac = "POSITIONS_FRAC";
    let abs = "POSITIONS_ABS";
    proof {
        reveal_strlit("LATTICE_CART");
        reveal_strlit("POSITIONS_FRAC");
        reveal_strlit("POSITIONS_ABS");
    }
    assert(lattice@ =~= lattice_block());
    assert(frac@ =~= frac_positions_block());
    assert(abs@ =~= abs_positions_block());
    if !contains_str(text, lattice) {
        return Err(
            DeckError::ParseError {
                file: String::from_str(file),
                reason: String::from_str("no LATTICE_CART block"),
            },
        );
    }
    if !contains_str(text, frac) && !contains_str(text, abs) {
        return Err(
            DeckError::ParseError {
                file: String::from_str(file),
                reason: String::from_str("no POSITIONS_FRAC or POSITIONS_ABS block"),
            },
        );
    }
    Ok(())
}

} // verus!
