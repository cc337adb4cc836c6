use vstd::prelude::*;
use crate::error::DeckError;
use crate::naming::{check_seed_name, valid_seed_name};
use crate::species::{all_available, check_potentials};

verus! {

/// Checks what must hold before a deck is written: the seed name can stand
/// as a directory and file stem, and each species of the deck has its
/// pseudopotential file at hand (`available[k]` for `species[k]`). The seed
/// name is checked first.
pub fn check_deck(seed_name: &str, species: &Vec<String>, available: &Vec<bool>) -> (r: Result<
    (),
    DeckError,
>)
    requires
        species.len() == available.len(),
    ensures
        match r {
            Ok(()) => valid_seed_name(seed_name@) && all_available(available@),
            Err(DeckError::InvalidSeedName { name }) => !valid_seed_name(seed_name@) && name@
                == seed_name@,
            Err(DeckError::MissingPotential { species: s }) => valid_seed_name(seed_name@) && exists|
                k: int,
            |
                0 <= k < available@.len() && !available@[k] && s@ == species@[k]@ && all_available(
                    available@.take(k),
                ),
            Err(_) => false,
        },
{
    match check_seed_name(seed_name) {
        Ok(()) => check_potentials(species, available),
        Err(e) => Err(e),
    }
}

} // verus!
