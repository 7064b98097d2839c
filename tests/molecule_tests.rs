use ferrite::{smiles_parser, Atom, Bond, BondType, Molecule};

fn build(numbers: &[u8]) -> Molecule {
    let mut mol = Molecule::new();
    for &z in numbers {
        mol.add_atom(Atom::new(z));
    }
    mol
}

#[test]
fn test_molecule_creation() {
    let mut mol = Molecule::new();
    assert_eq!(mol.atom_count(), 0);
    assert_eq!(mol.bond_count(), 0);

    let a1 = mol.add_atom(Atom::new(6)); // Carbon
    let a2 = mol.add_atom(Atom::new(8)); // Oxygen

    assert_eq!(mol.atom_count(), 2);
    mol.add_bond(a1, a2, BondType::Single).unwrap();
    assert_eq!(mol.bond_count(), 1);
}

#[test]
fn test_molecular_formula() {
    // Create water (H2O)
    let mut water = Molecule::new();
    let o_idx = water.add_atom(Atom::new(8));
    let h1_idx = water.add_atom(Atom::new(1));
    let h2_idx = water.add_atom(Atom::new(1));

    water.add_bond(o_idx, h1_idx, BondType::Single).unwrap();
    water.add_bond(o_idx, h2_idx, BondType::Single).unwrap();

    assert_eq!(water.get_molecular_formula(), "H2O");
}

#[test]
fn test_molecular_weight() {
    // Create methane (CH4)
    let mut methane = Molecule::new();
    let c_idx = methane.add_atom(Atom::new(6));

    for _ in 0..4 {
        let h_idx = methane.add_atom(Atom::new(1));
        methane.add_bond(c_idx, h_idx, BondType::Single).unwrap();
    }

    // Expected weight: C (12.011) + 4*H (4*1.008) = 16.043
    let expected_weight = 16.043;
    let calculated_weight = methane.get_molecular_weight() as f64 / 1000.0;

    assert!((calculated_weight - expected_weight).abs() < 0.001);
}

#[test]
fn methane_weight_is_exact_in_milligrams() {
    let mol = build(&[6, 1, 1, 1, 1]);
    assert_eq!(mol.get_molecular_weight(), 16043);
}

#[test]
fn weight_of_unknown_element_is_zero() {
    let mol = build(&[0, 200, 8]);
    assert_eq!(mol.get_molecular_weight(), 15999);
    assert_eq!(Molecule::new().get_molecular_weight(), 0);
}

#[test]
fn weight_covers_the_whole_table() {
    let mol = build(&[1, 6, 7, 8, 9, 15, 16, 17, 35, 53]);
    let expected: u128 =
        1008 + 12011 + 14007 + 15999 + 18998 + 30974 + 32065 + 35453 + 79904 + 126904;
    assert_eq!(mol.get_molecular_weight(), expected);
}

#[test]
fn add_atom_returns_dense_indices() {
    let mut mol = Molecule::new();
    for k in 0..5usize {
        assert_eq!(mol.add_atom(Atom::new(6)), k);
        assert_eq!(mol.atom_count(), k + 1);
    }
}

#[test]
fn add_bond_updates_both_rows() {
    let mut mol = build(&[6, 8, 1]);
    assert_eq!(mol.add_bond(0, 1, BondType::Double), Ok(0));
    assert_eq!(mol.add_bond(2, 0, BondType::Single), Ok(1));
    assert_eq!(mol.bond_count(), 2);
    assert_eq!(mol.get_neighbors(0), Some(&[1usize, 2][..]));
    assert_eq!(mol.get_neighbors(1), Some(&[0usize][..]));
    assert_eq!(mol.get_neighbors(2), Some(&[0usize][..]));
    let total: usize = (0..3).map(|i| mol.get_neighbors(i).unwrap().len()).sum();
    assert_eq!(total, 2 * mol.bond_count());
    let bond = mol.get_bond(0).unwrap();
    assert_eq!(bond.begin_atom_idx, 0);
    assert_eq!(bond.end_atom_idx, 1);
    assert_eq!(bond.bond_type, BondType::Double);
    assert!(!bond.is_in_ring);
}

#[test]
fn add_bond_out_of_range_changes_nothing() {
    let mut mol = build(&[6, 8]);
    mol.add_bond(0, 1, BondType::Single).unwrap();
    assert!(mol.add_bond(0, 2, BondType::Single).is_err());
    assert!(mol.add_bond(2, 0, BondType::Single).is_err());
    assert!(mol.add_bond(7, 9, BondType::Triple).is_err());
    assert_eq!(mol.atom_count(), 2);
    assert_eq!(mol.bond_count(), 1);
    assert_eq!(mol.get_neighbors(0), Some(&[1usize][..]));
    assert_eq!(mol.get_neighbors(1), Some(&[0usize][..]));
}

#[test]
fn self_loop_and_duplicate_bonds_are_accepted() {
    let mut mol = build(&[6, 6]);
    assert_eq!(mol.add_bond(0, 0, BondType::Single), Ok(0));
    assert_eq!(mol.add_bond(0, 1, BondType::Single), Ok(1));
    assert_eq!(mol.add_bond(0, 1, BondType::Single), Ok(2));
    assert_eq!(mol.get_neighbors(0), Some(&[0usize, 0, 1, 1][..]));
    assert_eq!(mol.get_neighbors(1), Some(&[0usize, 0][..]));
}

#[test]
fn formula_of_methane() {
    let mol = build(&[1, 1, 6, 1, 1]);
    assert_eq!(mol.get_molecular_formula(), "CH4");
}

#[test]
fn formula_of_caffeine() {
    let mut numbers = vec![7u8, 6, 7, 6, 6, 6, 7, 6, 7, 8, 8, 6, 6, 6];
    numbers.extend([1u8; 10]);
    let mol = build(&numbers);
    assert_eq!(mol.get_molecular_formula(), "C8H10N4O2");
}

#[test]
fn formula_orders_other_elements_alphabetically() {
    let mol = build(&[0, 53, 16, 15, 9, 17, 35, 17, 8, 7]);
    assert_eq!(mol.get_molecular_formula(), "BrCl2FINOPSX");
}

#[test]
fn formula_without_carbon() {
    let mol = build(&[17, 1]);
    assert_eq!(mol.get_molecular_formula(), "HCl");
}

#[test]
fn formula_with_large_count() {
    let mut numbers = vec![6u8; 120];
    numbers.push(1);
    let mol = build(&numbers);
    assert_eq!(mol.get_molecular_formula(), "C120H");
}

#[test]
fn empty_molecule() {
    let mol = Molecule::new();
    assert_eq!(mol.atom_count(), 0);
    assert_eq!(mol.bond_count(), 0);
    assert_eq!(mol.get_molecular_formula(), "");
}

#[test]
fn neighbors_of_lonely_atom_and_missing_atom() {
    let mut mol = build(&[6, 8, 1]);
    mol.add_bond(0, 1, BondType::Single).unwrap();
    assert_eq!(mol.get_neighbors(2), Some(&[][..]));
    assert_eq!(mol.get_neighbors(3), None);
}

#[test]
fn get_atom_and_bond_bounds() {
    let mut mol = build(&[6, 8]);
    mol.add_bond(0, 1, BondType::Single).unwrap();
    assert_eq!(mol.get_atom(1).map(|a| a.atomic_number), Some(8));
    assert!(mol.get_atom(2).is_none());
    assert!(mol.get_bond(0).is_some());
    assert!(mol.get_bond(1).is_none());
}

#[test]
fn get_atom_mut_edits_in_place() {
    let mut mol = build(&[6, 8]);
    {
        let atom = mol.get_atom_mut(1).unwrap();
        atom.formal_charge = -1;
        atom.is_aromatic = true;
        atom.isotope = Some(18);
    }
    let atom = mol.get_atom(1).unwrap();
    assert_eq!(atom.formal_charge, -1);
    assert!(atom.is_aromatic);
    assert_eq!(atom.isotope, Some(18));
    assert_eq!(mol.get_atom(0).unwrap().formal_charge, 0);
    assert!(mol.get_atom_mut(2).is_none());
    assert_eq!(mol.atom_count(), 2);
}

#[test]
fn atom_symbols_and_valences() {
    let cases: [(u8, &str, u8); 12] = [
        (1, "H", 1),
        (6, "C", 4),
        (7, "N", 3),
        (8, "O", 2),
        (9, "F", 0),
        (15, "P", 0),
        (16, "S", 0),
        (17, "Cl", 0),
        (35, "Br", 0),
        (53, "I", 0),
        (0, "X", 0),
        (118, "X", 0),
    ];
    for (z, sym, val) in cases {
        let atom = Atom::new(z);
        assert_eq!(atom.symbol(), sym);
        assert_eq!(atom.valence(), val);
    }
}

#[test]
fn new_atom_defaults() {
    let atom = Atom::new(6);
    assert_eq!(atom.atomic_number, 6);
    assert_eq!(atom.formal_charge, 0);
    assert_eq!(atom.implicit_hydrogen, 0);
    assert!(!atom.is_aromatic);
    assert_eq!(atom.isotope, None);
}

#[test]
fn bond_orders_and_glyphs() {
    let cases = [
        (BondType::Single, 1u8, "-", false),
        (BondType::Double, 2, "=", false),
        (BondType::Triple, 3, "\u{2261}", false),
        (BondType::Aromatic, 1, "~", true),
    ];
    for (t, order, glyph, aromatic) in cases {
        let bond = Bond::new(3, 4, t);
        assert_eq!(bond.order(), order);
        assert_eq!(bond.glyph(), glyph);
        assert_eq!(bond.is_aromatic(), aromatic);
        assert_eq!(bond.begin_atom_idx, 3);
        assert_eq!(bond.end_atom_idx, 4);
        assert!(!bond.is_in_ring);
    }
}

#[test]
fn smiles_parser_gives_empty_molecule() {
    let mol = smiles_parser("CN1C=NC2=C1C(=O)N(C(=O)N2C)C");
    assert_eq!(mol.atom_count(), 0);
    assert_eq!(mol.bond_count(), 0);
}
