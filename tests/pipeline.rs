use ni_sinx_combiner::cell_text::check_cell_text;
use ni_sinx_combiner::deck::check_deck;
use ni_sinx_combiner::error::DeckError;
use ni_sinx_combiner::lattice::{
    anchor_translation, can_combine, combine, combine_ni_sinx, registration_translation, Atom,
    Lattice, Vec3, UNITS_PER_ANGSTROM,
};
use ni_sinx_combiner::naming::{
    check_seed_name, combined_cell_name, contains_str, is_dos_stem, seed_name_for_stem,
    should_process,
};
use ni_sinx_combiner::species::{check_potentials, distinct_species, potential_file_name};

const U: i64 = UNITS_PER_ANGSTROM;

fn atom(symbol: &str, index: usize, x: i64, y: i64, z: i64) -> Atom {
    Atom { symbol: symbol.to_string(), index, position: Vec3::new(x, y, z) }
}

fn cubic(edge: i64, atoms: Vec<Atom>) -> Lattice {
    Lattice {
        vectors: [Vec3::new(edge, 0, 0), Vec3::new(0, edge, 0), Vec3::new(0, 0, edge)],
        atoms,
    }
}

fn substrate() -> Lattice {
    cubic(
        12 * U,
        vec![
            atom("Si", 1, 0, 0, 0),
            atom("N", 2, U, 2 * U, 3 * U),
            atom("Si", 3, 4 * U, 5 * U, 6 * U),
        ],
    )
}

fn ni2() -> Lattice {
    cubic(
        5 * U,
        vec![
            atom("Ni", 1, 707_254_000_000, 8_575_000_000_000, 1_017_500_000_000),
            atom("Ni", 2, 2 * U, 7 * U, 2 * U),
        ],
    )
}

#[test]
fn minimal_combination() {
    let si = cubic(5 * U, vec![atom("Si", 1, 0, 0, 0)]);
    let ni = cubic(5 * U, vec![atom("Ni", 1, 0, 0, 0)]);
    let r = combine(&si, &ni, Vec3::new(U, 2 * U, 3 * U));
    assert_eq!(r.vectors, si.vectors);
    assert_eq!(r.atoms.len(), 2);
    assert_eq!(r.atoms[0].symbol, "Si");
    assert_eq!(r.atoms[0].position, Vec3::new(0, 0, 0));
    assert_eq!(r.atoms[0].index, 1);
    assert_eq!(r.atoms[1].symbol, "Ni");
    assert_eq!(r.atoms[1].position, Vec3::new(U, 2 * U, 3 * U));
    assert_eq!(r.atoms[1].index, 2);
}

#[test]
fn canonical_translation() {
    let r = combine_ni_sinx(&ni2(), &substrate());
    assert_eq!(r.atoms.len(), 5);
    assert_eq!(
        r.atoms[3].position,
        Vec3::new(2_678_720_000_000, 9_973_250_000_000, 5_931_993_000_000)
    );
    assert_eq!(r.atoms[3].index, 4);
    assert_eq!(r.atoms[4].position, Vec3::new(2 * U + 1_971_466_000_000, 7 * U + 1_398_250_000_000, 2 * U + 4_914_493_000_000));
}

#[test]
fn registration_translation_value() {
    assert_eq!(
        registration_translation(),
        Vec3::new(1_971_466_000_000, 1_398_250_000_000, 4_914_493_000_000)
    );
    let d = anchor_translation(Vec3::new(1, 2, 3), Vec3::new(10, -20, 30));
    assert_eq!(d, Vec3::new(9, -22, 27));
}

#[test]
fn translate_adds_componentwise() {
    assert_eq!(Vec3::new(1, -2, 3).translate(Vec3::new(10, 20, -30)), Vec3::new(11, 18, -27));
}

#[test]
fn combined_count_is_additive() {
    let r = combine(&substrate(), &ni2(), Vec3::new(7, 8, 9));
    assert_eq!(r.atoms.len(), substrate().atoms.len() + ni2().atoms.len());
}

#[test]
fn substrate_atoms_unchanged() {
    let s = substrate();
    let r = combine(&s, &ni2(), Vec3::new(7, 8, 9));
    for i in 0..s.atoms.len() {
        assert_eq!(r.atoms[i].position, s.atoms[i].position);
        assert_eq!(r.atoms[i].symbol, s.atoms[i].symbol);
    }
}

#[test]
fn cluster_atoms_shifted_once() {
    let s = substrate();
    let c = ni2();
    let d = Vec3::new(7, -8, 9);
    let r = combine(&s, &c, d);
    for j in 0..c.atoms.len() {
        let p = c.atoms[j].position;
        assert_eq!(r.atoms[s.atoms.len() + j].position, Vec3::new(p.x + 7, p.y - 8, p.z + 9));
        assert_eq!(r.atoms[s.atoms.len() + j].index, s.atoms.len() + j + 1);
    }
}

#[test]
fn empty_cluster_gives_lattice_back() {
    let s = substrate();
    let r = combine(&s, &cubic(U, vec![]), Vec3::new(7, 8, 9));
    assert_eq!(r.vectors, s.vectors);
    assert_eq!(r.atoms.len(), s.atoms.len());
    for i in 0..s.atoms.len() {
        assert_eq!(r.atoms[i].symbol, s.atoms[i].symbol);
        assert_eq!(r.atoms[i].index, s.atoms[i].index);
        assert_eq!(r.atoms[i].position, s.atoms[i].position);
    }
}

#[test]
fn empty_substrate_gives_shifted_atoms() {
    let c = ni2();
    let r = combine(&cubic(U, vec![]), &c, Vec3::new(1, 1, 1));
    assert_eq!(r.atoms.len(), c.atoms.len());
    for j in 0..c.atoms.len() {
        let p = c.atoms[j].position;
        assert_eq!(r.atoms[j].symbol, c.atoms[j].symbol);
        assert_eq!(r.atoms[j].index, c.atoms[j].index);
        assert_eq!(r.atoms[j].position, Vec3::new(p.x + 1, p.y + 1, p.z + 1));
    }
}

#[test]
fn recombining_moves_only_new_cluster() {
    let d = Vec3::new(5, 5, 5);
    let first = combine(&substrate(), &ni2(), d);
    let second = combine(&first, &ni2(), d);
    assert_eq!(second.atoms.len(), 7);
    for k in 0..first.atoms.len() {
        assert_eq!(second.atoms[k].position, first.atoms[k].position);
    }
    assert_eq!(second.atoms[5].position, first.atoms[3].position);
}

#[test]
fn overflowing_shift_is_detected() {
    let c = cubic(U, vec![atom("Ni", 1, i64::MAX - 1, 0, 0)]);
    assert!(!can_combine(&substrate(), &c, Vec3::new(2, 0, 0)));
    assert!(can_combine(&substrate(), &c, Vec3::new(1, 0, 0)));
    assert!(can_combine(&substrate(), &ni2(), registration_translation()));
}

#[test]
fn combined_name_from_path() {
    assert_eq!(combined_cell_name("hcp_growth/Ni2/Ni2.cell"), Some("Ni2_SiNx_am".to_string()));
    assert_eq!(combined_cell_name("fcc_growth/Ni13_fcc.cell"), Some("Ni13_fcc_SiNx_am".to_string()));
    assert_eq!(combined_cell_name(""), None);
    assert_eq!(seed_name_for_stem("Ni4"), "Ni4_SiNx_am");
}

#[test]
fn dos_cells_are_skipped() {
    assert!(should_process("a.cell"));
    assert!(!should_process("a_DOS.cell"));
    assert!(!should_process(""));
    assert!(is_dos_stem("Ni2_DOS"));
    assert!(!is_dos_stem("Ni2_dos"));
}

#[test]
fn substring_search() {
    assert!(contains_str("abcabd", "abd"));
    assert!(!contains_str("abcab", "abd"));
    assert!(contains_str("abc", ""));
    assert!(!contains_str("ab", "abc"));
}

#[test]
fn seed_name_with_separator_is_rejected() {
    assert_eq!(
        check_seed_name("out/Ni2"),
        Err(DeckError::InvalidSeedName { name: "out/Ni2".to_string() })
    );
    assert_eq!(
        check_seed_name(""),
        Err(DeckError::InvalidSeedName { name: String::new() })
    );
    assert_eq!(check_seed_name("Ni2_SiNx_am"), Ok(()));
}

#[test]
fn missing_potential_is_reported() {
    let species = vec!["Si".to_string(), "N".to_string(), "Ni".to_string()];
    assert_eq!(
        check_potentials(&species, &vec![true, true, false]),
        Err(DeckError::MissingPotential { species: "Ni".to_string() })
    );
    assert_eq!(
        check_potentials(&species, &vec![true, false, false]),
        Err(DeckError::MissingPotential { species: "N".to_string() })
    );
    assert_eq!(check_potentials(&species, &vec![true, true, true]), Ok(()));
}

#[test]
fn deck_check_order() {
    let species = vec!["Ni".to_string()];
    assert_eq!(
        check_deck("a/b", &species, &vec![false]),
        Err(DeckError::InvalidSeedName { name: "a/b".to_string() })
    );
    assert_eq!(
        check_deck("Ni2_SiNx_am", &species, &vec![false]),
        Err(DeckError::MissingPotential { species: "Ni".to_string() })
    );
    assert_eq!(check_deck("Ni2_SiNx_am", &species, &vec![true]), Ok(()));
}

#[test]
fn cell_without_positions_is_a_parse_error() {
    let text = "%BLOCK LATTICE_CART\n5 0 0\n0 5 0\n0 0 5\n%ENDBLOCK LATTICE_CART\n";
    match check_cell_text("a.cell", text) {
        Err(DeckError::ParseError { file, .. }) => assert_eq!(file, "a.cell"),
        other => panic!("unexpected {:?}", other),
    }
    let frac = format!("{text}%BLOCK POSITIONS_FRAC\nSi 0 0 0\n%ENDBLOCK POSITIONS_FRAC\n");
    assert_eq!(check_cell_text("a.cell", &frac), Ok(()));
    let abs = format!("{text}%BLOCK POSITIONS_ABS\nSi 0 0 0\n%ENDBLOCK POSITIONS_ABS\n");
    assert_eq!(check_cell_text("a.cell", &abs), Ok(()));
    assert!(check_cell_text("b.cell", "%BLOCK POSITIONS_ABS\n%ENDBLOCK POSITIONS_ABS\n").is_err());
}

#[test]
fn species_in_first_appearance_order() {
    let l = cubic(
        U,
        vec![
            atom("Si", 1, 0, 0, 0),
            atom("N", 2, 0, 0, 0),
            atom("Si", 3, 0, 0, 0),
            atom("Ni", 4, 0, 0, 0),
            atom("N", 5, 0, 0, 0),
        ],
    );
    assert_eq!(distinct_species(&l), vec!["Si", "N", "Ni"]);
    let r = combine_ni_sinx(&ni2(), &substrate());
    assert_eq!(distinct_species(&r), vec!["Si", "N", "Ni"]);
}

#[test]
fn potential_file_names() {
    assert_eq!(potential_file_name("Ni"), "Ni_OTF.usp");
    assert_eq!(potential_file_name("N"), "N_OTF.usp");
}
