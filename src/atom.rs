use vstd::prelude::*;

use crate::element::{element_symbol, element_valence, symbol_of, valence_of};

verus! {

/// One instance of a chemical element in a molecule.
#[derive(Debug, Clone, Copy, PartialEq)]
pub struct Atom {
    pub atomic_number: u8,
    pub formal_charge: i8,
    pub implicit_hydrogen: u8,
    pub is_aromatic: bool,
    pub isotope: Option<u16>,
}

impl Atom {
    /// A neutral, non-aromatic atom of element `atomic_number`, with no
    /// implicit hydrogens and no isotope tag.
    pub fn new(atomic_number: u8) -> (r: Atom)
        ensures
            r.atomic_number == atomic_number,
            r.formal_charge == 0,
            r.implicit_hydrogen == 0,
            !r.is_aromatic,
            r.isotope is None,
    {
        Atom {
            atomic_number,
            formal_charge: 0,
            implicit_hydrogen: 0,
            is_aromatic: false,
            isotope: None,
        }
    }

    /// The chemical symbol of this atom's element (`X` if unknown).
    pub fn symbol(&self) -> (r: &'static str)
        ensures
            r@ == symbol_of(self.atomic_number),
    {
        element_symbol(self.atomic_number)
    }

    /// The nominal valence of this atom's element; charge and hybridisation
    /// are not taken into account.
    pub fn valence(&self) -> (r: u8)
        ensures
            r == valence_of(self.atomic_number),
    {
        element_valence(self.atomic_number)
    }
}

} // verus!
