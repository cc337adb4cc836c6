use vstd::prelude::*;
use crate::error::DeckError;
use crate::lattice::{Atom, AtomView, Lattice};

verus! {

/// The distinct entries of `s`, each once, in order of first appearance.
pub open spec fn first_appearance(s: Seq<Seq<char>>) -> Seq<Seq<char>>
    decreases s.len(),
{
    if s.len() == 0 {
        Seq::empty()
    } else {
        let before = first_appearance(s.drop_last());
        if before.contains(s.last()) {
            before
        } else {
            before.push(s.last())
        }
    }
}

/// The species symbols of a list of atoms, in list order.
pub open spec fn symbols(atoms: Seq<AtomView>) -> Seq<Seq<char>> {
    atoms.map_values(|a: AtomView| a.symbol)
}

/// The species of a list of atoms, each once, in order of first appearance.
pub open spec fn species_of(atoms: Seq<AtomView>) -> Seq<Seq<char>> {
    first_appearance(symbols(atoms))
}

/// The views of a list of strings.
pub open spec fn string_views(v: Seq<String>) -> Seq<Seq<char>> {
    v.map_values(|s: String| s@)
}

/// What `first_appearance` yields holds no entry twice, and holds exactly the
/// entries of its argument.
pub proof fn lemma_first_appearance(s: Seq<Seq<char>>)
    ensures
        first_appearance(s).no_duplicates(),
        forall|x: Seq<char>| first_appearance(s).contains(x) <==> s.contains(x),
    decreases s.len(),
{
    if s.len() > 0 {
        let p = s.drop_last();
        lemma_first_appearance(p);
        assert forall|x: Seq<char>| s.contains(x) <==> (p.contains(x) || x == s.last()) by {
            if s.contains(x) {
                let i = choose|i: int| 0 <= i < s.len() && s[i] == x;
                if i < s.len() - 1 {
                    assert(p[i] == x);
                }
            }
            if p.contains(x) {
                let i = choose|i: int| 0 <= i < p.len() && p[i] == x;
                assert(s[i] == x);
            }
            if x == s.last() {
                assert(s[s.len() - 1] == x);
            }
        }
        let before = first_appearance(p);
        if !before.contains(s.last()) {
            assert forall|x: Seq<char>| before.push(s.last()).contains(x) <==> (before.contains(x)
                || x == s.last()) by {
                if before.push(s.last()).contains(x) {
                    let i = choose|i: int| 0 <= i < before.len() + 1 && before.push(s.last())[i] == x;
                    if i < before.len() {
                        assert(before[i] == x);
                    }
                }
                if before.contains(x) {
                    let i = choose|i: int| 0 <= i < before.len() && before[i] == x;
                    assert(before.push(s.last())[i] == x);
                }
                if x == s.last() {
                    assert(before.push(s.last())[before.len() as int] == x);
                }
            }
        }
    }
}

/// Whether `v` holds a string equal to `s`.
fn holds_string(v: &Vec<String>, s: &String) -> (r: bool)
    ensures
        r == string_views(v@).contains(s@),
{
    let mut k: usize = 0;
    while k < v.len()
        invariant
            k <= v@.len(),
            forall|i: int| 0 <= i < k ==> v@[i]@ != s@,
        decreases v.len() - k,
    {
        if v[k] == *s {
            assert(string_views(v@)[k as int] == s@);
            return true;
        }
        k = k + 1;
    }
    proof {
        if string_views(v@).contains(s@) {
            let i = choose|i: int| 0 <= i < v@.len() && string_views(v@)[i] == s@;
            assert(v@[i]@ == s@);
        }
    }
    false
}

/// The species present in a lattice, each once, in order of first appearance
/// in its atom list. Every atom's species is listed, and none twice.
pub fn distinct_species(lattice: &Lattice) -> (r: Vec<String>)
    ensures
        string_views(r@) == species_of(lattice@.atoms),
        string_views(r@).no_duplicates(),
        forall|k: int|
            0 <= k < lattice@.atoms.len() ==> string_views(r@).contains(
                #[trigger] lattice@.atoms[k].symbol,
            ),
{
    let ghost atoms = lattice@.atoms;
    let mut r: Vec<String> = Vec::new();
    let mut i: usize = 0;
    while i < lattice.atoms.len()
        invariant
            atoms == lattice@.atoms,
            i <= atoms.len(),
            string_views(r@) == first_appearance(symbols(atoms).take(i as int)),
        decreases lattice.atoms.len() - i,
    {
        let a: &Atom = &lattice.atoms[i];
        proof {
            assert(symbols(atoms).take(i + 1).drop_last() =~= symbols(atoms).take(i as int));
            assert(symbols(atoms).take(i + 1).last() == a.symbol@);
        }
        if !holds_string(&r, &a.symbol) {
            r.push(a.symbol.clone());
            assert(string_views(r@) =~= first_appearance(symbols(atoms).take(i as int)).push(a.symbol@));
        }
        i = i + 1;
    }
    proof {
        assert(symbols(atoms).take(atoms.len() as int) =~= symbols(atoms));
        lemma_first_appearance(symbols(atoms));
        assert forall|k: int| 0 <= k < atoms.len() implies string_views(r@).contains(
            #[trigger] atoms[k].symbol,
        ) by {
            assert(symbols(atoms)[k] == atoms[k].symbol);
            assert(symbols(atoms).contains(atoms[k].symbol));
            assert(first_appearance(symbols(atoms)).contains(atoms[k].symbol));
        }
    }
    r
}

/// The suffix of the pseudopotential file of a species.
pub open spec fn potential_suffix() -> Seq<char> {
    seq!['_', 'O', 'T', 'F', '.', 'u', 's', 'p']
}

/// The pseudopotential file name of a species: `<species>_OTF.usp`.
pub fn potential_file_name(species: &str) -> (r: String)
    ensures
        r@ == species@ + potential_suffix(),
{
    let suffix = "_OTF.usp";
    proof {
        reveal_strlit("_OTF.usp");
    }
    assert(suffix@ =~= potential_suffix());
    String::from_str(species).concat(suffix)
}

/// Whether every species has its pseudopotential file at hand.
pub open spec fn all_available(available: Seq<bool>) -> bool {
    forall|k: int| 0 <= k < available.len() ==> #[trigger] available[k]
}

/// Checks that each species has its pseudopotential file at hand, where
/// `available[k]` tells whether the file of `species[k]` exists. Fails with
/// the first species, in list order, whose file is missing.
pub fn check_potentials(species: &Vec<String>, available: &Vec<bool>) -> (r: Result<(), DeckError>)
    requires
        species.len() == available.len(),
    ensures
        match r {
            Ok(()) => all_available(available@),
            Err(DeckError::MissingPotential { species: s }) => exists|k: int|
                0 <= k < available@.len() && !available@[k] && s@ == species@[k]@ && all_available(
                    available@.take(k),
                ),
            Err(_) => false,
        },
{
    let mut k: usize = 0;
    while k < available.len()
        invariant
            species.len() == available.len(),
            k <= available.len(),
            all_available(available@.take(k as int)),
        decreases available.len() - k,
    {
        if !available[k] {
            return Err(DeckError::MissingPotential { species: species[k].clone() });
        }
        assert(available@.take(k + 1) =~= available@.take(k as int).push(available@[k as int]));
        k = k + 1;
    }
    assert(available@.take(k as int) =~= available@);
    Ok(())
}

} // verus!
