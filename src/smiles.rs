use vstd::prelude::*;

use crate::atom::Atom;
use crate::bond::Bond;
use crate::molecule::Molecule;

verus! {

/// Entry point for reading a molecule from SMILES notation. No notation is
/// read yet: every input gives an empty molecule.
pub fn smiles_parser(smiles: &str) -> (r: Molecule)
    ensures
        r.wf(),
        r.atoms() == Seq::<Atom>::empty(),
        r.bonds() == Seq::<Bond>::empty(),
{
    Molecule::new()
}

} // verus!
