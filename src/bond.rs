use vstd::prelude::*;

verus! {

/// The type of a bond between two atoms.
#[derive(Debug, Clone, Copy, PartialEq, Eq, Structural)]
pub enum BondType {
    Single,
    Double,
    Triple,
    Aromatic,
}

/// The bond order of a bond type; an aromatic bond counts as 1.
pub open spec fn order_of(t: BondType) -> u8 {
    match t {
        BondType::Single => 1,
        BondType::Double => 2,
        BondType::Triple => 3,
        BondType::Aromatic => 1,
    }
}

/// The glyph that draws a bond type in a connectivity listing.
pub open spec fn glyph_of(t: BondType) -> Seq<char> {
    match t {
        BondType::Single => seq!['-'],
        BondType::Double => seq!['='],
        BondType::Triple => seq!['\u{2261}'],
        BondType::Aromatic => seq!['~'],
    }
}

/// A typed connection between two atoms, by their indices in a molecule.
#[derive(Debug, Clone, Copy, PartialEq)]
pub struct Bond {
    pub bond_type: BondType,
    pub begin_atom_idx: usize,
    pub end_atom_idx: usize,
    pub is_in_ring: bool,
}

impl Bond {
    /// A bond of type `bond_type` from atom `begin_atom_idx` to atom
    /// `end_atom_idx`, not marked as part of a ring.
    pub fn new(begin_atom_idx: usize, end_atom_idx: usize, bond_type: BondType) -> (r: Self)
        ensures
            r.bond_type == bond_type,
            r.begin_atom_idx == begin_atom_idx,
            r.end_atom_idx == end_atom_idx,
            !r.is_in_ring,
    {
        Bond { bond_type, begin_atom_idx, end_atom_idx, is_in_ring: false }
    }

    /// Whether this is an aromatic bond.
    pub fn is_aromatic(&self) -> (r: bool)
        ensures
            r == (self.bond_type == BondType::Aromatic),
    {
        matches!(self.bond_type, BondType::Aromatic)
    }

    /// The bond order: 1, 2 or 3, with an aromatic bond counted as 1.
    pub fn order(&self) -> (r: u8)
        ensures
            r == order_of(self.bond_type),
    {
        match self.bond_type {
            BondType::Single => 1,
            BondType::Double => 2,
            BondType::Triple => 3,
            BondType::Aromatic => 1,
        }
    }

    /// The glyph that draws this bond: `-`, `=`, `≡` or `~`.
    pub fn glyph(&self) -> (r: &'static str)
        ensures
            r@ == glyph_of(self.bond_type),
    {
        match self.bond_type {
            BondType::Single => {
                proof {
                    reveal_strlit("-");
                    assert("-"@ =~= seq!['-']);
                }
                "-"
            },
            BondType::Double => {
                proof {
                    reveal_strlit("=");
                    assert("="@ =~= seq!['=']);
                }
                "="
            },
            BondType::Triple => {
                proof {
                    reveal_strlit("\u{2261}");
                    assert("\u{2261}"@ =~= seq!['\u{2261}']);
                }
                "\u{2261}"
            },
            BondType::Aromatic => {
                proof {
                    reveal_strlit("~");
                    assert("~"@ =~= seq!['~']);
                }
                "~"
            },
        }
    }
}

} // verus!
