use vstd::prelude::*;

verus! {

/// The number of places in a molecular formula: carbon, hydrogen, the other
/// symbols of the table in alphabetical order, and `X` for the rest.
pub const FORMULA_PLACES: usize = 11;

/// The chemical symbol of an element, by atomic number; `X` for an element
/// outside the table.
pub open spec fn symbol_of(z: u8) -> Seq<char> {
    if z == 1 {
        seq!['H']
    } else if z == 6 {
        seq!['C']
    } else if z == 7 {
        seq!['N']
    } else if z == 8 {
        seq!['O']
    } else if z == 9 {
        seq!['F']
    } else if z == 15 {
        seq!['P']
    } else if z == 16 {
        seq!['S']
    } else if z == 17 {
        seq!['C', 'l']
    } else if z == 35 {
        seq!['B', 'r']
    } else if z == 53 {
        seq!['I']
    } else {
        seq!['X']
    }
}

/// The nominal valence of an element (H, C, N, O); 0 for any other.
pub open spec fn valence_of(z: u8) -> u8 {
    if z == 1 {
        1u8
    } else if z == 6 {
        4u8
    } else if z == 7 {
        3u8
    } else if z == 8 {
        2u8
    } else {
        0u8
    }
}

/// The standard atomic weight of an element in mg/mol (thousandths of
/// g/mol); 0 for an element outside the table.
pub open spec fn weight_of(z: u8) -> u32 {
    if z == 1 {
        1008u32
    } else if z == 6 {
        12011u32
    } else if z == 7 {
        14007u32
    } else if z == 8 {
        15999u32
    } else if z == 9 {
        18998u32
    } else if z == 15 {
        30974u32
    } else if z == 16 {
        32065u32
    } else if z == 17 {
        35453u32
    } else if z == 35 {
        79904u32
    } else if z == 53 {
        126904u32
    } else {
        0u32
    }
}

/// The symbol that stands at place `k` of a molecular formula: carbon first,
/// hydrogen second, then the other symbols in alphabetical order.
pub open spec fn place_symbol(k: int) -> Seq<char> {
    if k == 0 {
        seq!['C']
    } else if k == 1 {
        seq!['H']
    } else if k == 2 {
        seq!['B', 'r']
    } else if k == 3 {
        seq!['C', 'l']
    } else if k == 4 {
        seq!['F']
    } else if k == 5 {
        seq!['I']
    } else if k == 6 {
        seq!['N']
    } else if k == 7 {
        seq!['O']
    } else if k == 8 {
        seq!['P']
    } else if k == 9 {
        seq!['S']
    } else {
        seq!['X']
    }
}

/// The place of an element's symbol in a molecular formula.
pub open spec fn place_of(z: u8) -> int {
    if z == 1 {
        1
    } else if z == 6 {
        0
    } else if z == 7 {
        6
    } else if z == 8 {
        7
    } else if z == 9 {
        4
    } else if z == 15 {
        8
    } else if z == 16 {
        9
    } else if z == 17 {
        3
    } else if z == 35 {
        2
    } else if z == 53 {
        5
    } else {
        10
    }
}

/// Each element stands at the formula place of its own symbol, and at no
/// other.
pub proof fn lemma_place_of(z: u8, k: int)
    requires
        0 <= k < FORMULA_PLACES,
    ensures
        0 <= place_of(z) < FORMULA_PLACES,
        symbol_of(z) == place_symbol(place_of(z)),
        symbol_of(z) == place_symbol(k) <==> place_of(z) == k,
{
    assert(symbol_of(z) =~= place_symbol(place_of(z)));
    if symbol_of(z) == place_symbol(k) {
        let s = symbol_of(z);
        assert(s.len() == place_symbol(k).len());
        assert(s[0] == place_symbol(k)[0]);
        assert(s.len() == 1 || s[1] == place_symbol(k)[1]);
    }
}

/// Whether `a` comes strictly before `b` in alphabetical (character code)
/// order.
pub open spec fn alphabetically_before(a: Seq<char>, b: Seq<char>) -> bool
    decreases a.len(),
{
    if a.len() == 0 {
        b.len() > 0
    } else if b.len() == 0 {
        false
    } else if a[0] != b[0] {
        (a[0] as u32) < (b[0] as u32)
    } else {
        alphabetically_before(a.drop_first(), b.drop_first())
    }
}

/// Carbon takes the first place of a formula, hydrogen the second, and the
/// symbols after them stand in alphabetical order.
pub proof fn lemma_formula_places_ordered(k: int)
    requires
        2 <= k < FORMULA_PLACES - 1,
    ensures
        place_symbol(0) == symbol_of(6),
        place_symbol(1) == symbol_of(1),
        alphabetically_before(place_symbol(k), place_symbol(k + 1)),
{
    let a = place_symbol(k);
    let b = place_symbol(k + 1);
    assert(a[0] != b[0]);
}

/// Looks up the chemical symbol of atomic number `z`.
pub fn element_symbol(z: u8) -> (r: &'static str)
    ensures
        r@ == symbol_of(z),
{
    match z {
        1 => {
            proof {
                reveal_strlit("H");
                assert("H"@ =~= seq!['H']);
            }
            "H"
        },
        6 => {
            proof {
                reveal_strlit("C");
                assert("C"@ =~= seq!['C']);
            }
            "C"
        },
        7 => {
            proof {
                reveal_strlit("N");
                assert("N"@ =~= seq!['N']);
            }
            "N"
        },
        8 => {
            proof {
                reveal_strlit("O");
                assert("O"@ =~= seq!['O']);
            }
            "O"
        },
        9 => {
            proof {
                reveal_strlit("F");
                assert("F"@ =~= seq!['F']);
            }
            "F"
        },
        15 => {
            proof {
                reveal_strlit("P");
                assert("P"@ =~= seq!['P']);
            }
            "P"
        },
        16 => {
            proof {
                reveal_strlit("S");
                assert("S"@ =~= seq!['S']);
            }
            "S"
        },
        17 => {
            proof {
                reveal_strlit("Cl");
                assert("Cl"@ =~= seq!['C', 'l']);
            }
            "Cl"
        },
        35 => {
            proof {
                reveal_strlit("Br");
                assert("Br"@ =~= seq!['B', 'r']);
            }
            "Br"
        },
        53 => {
            proof {
                reveal_strlit("I");
                assert("I"@ =~= seq!['I']);
            }
            "I"
        },
        _ => {
            proof {
                reveal_strlit("X");
                assert("X"@ =~= seq!['X']);
            }
            "X"
        },
    }
}

/// Looks up the nominal valence of atomic number `z`.
pub fn element_valence(z: u8) -> (r: u8)
    ensures
        r == valence_of(z),
{
    match z {
        1 => 1,
        6 => 4,
        7 => 3,
        8 => 2,
        _ => 0,
    }
}

/// Looks up the standard atomic weight of atomic number `z`, in mg/mol.
pub fn element_weight(z: u8) -> (r: u32)
    ensures
        r == weight_of(z),
{
    match z {
        1 => 1008,
        6 => 12011,
        7 => 14007,
        8 => 15999,
        9 => 18998,
        15 => 30974,
        16 => 32065,
        17 => 35453,
        35 => 79904,
        53 => 126904,
        _ => 0,
    }
}

/// Looks up the formula place of atomic number `z`.
pub fn element_place(z: u8) -> (r: usize)
    ensures
        r == place_of(z),
{
    match z {
        1 => 1,
        6 => 0,
        7 => 6,
        8 => 7,
        9 => 4,
        15 => 8,
        16 => 9,
        17 => 3,
        35 => 2,
        53 => 5,
        _ => 10,
    }
}

/// The symbol at formula place `k`.
pub fn place_symbol_str(k: usize) -> (r: &'static str)
    requires
        k < FORMULA_PLACES,
    ensures
        r@ == place_symbol(k as int),
{
    match k {
        0 => {
            proof {
                reveal_strlit("C");
                assert("C"@ =~= seq!['C']);
            }
            "C"
        },
        1 => {
            proof {
                reveal_strlit("H");
                assert("H"@ =~= seq!['H']);
            }
            "H"
        },
        2 => {
            proof {
                reveal_strlit("Br");
                assert("Br"@ =~= seq!['B', 'r']);
            }
            "Br"
        },
        3 => {
            proof {
                reveal_strlit("Cl");
                assert("Cl"@ =~= seq!['C', 'l']);
            }
            "Cl"
        },
        4 => {
            proof {
                reveal_strlit("F");
                assert("F"@ =~= seq!['F']);
            }
            "F"
        },
        5 => {
            proof {
                reveal_strlit("I");
                assert("I"@ =~= seq!['I']);
            }
            "I"
        },
        6 => {
            proof {
                reveal_strlit("N");
                assert("N"@ =~= seq!['N']);
            }
            "N"
        },
        7 => {
            proof {
                reveal_strlit("O");
                assert("O"@ =~= seq!['O']);
            }
            "O"
        },
        8 => {
            proof {
                reveal_strlit("P");
                assert("P"@ =~= seq!['P']);
            }
            "P"
        },
        9 => {
            proof {
                reveal_strlit("S");
                assert("S"@ =~= seq!['S']);
            }
            "S"
        },
        _ => {
            proof {
                reveal_strlit("X");
                assert("X"@ =~= seq!['X']);
            }
            "X"
        },
    }
}

} // verus!
