//! Small molecules as labelled graphs: atoms as vertices, typed bonds as
//! edges, with the molecular formula and weight derived from the graph.

pub mod atom;
pub mod bond;
pub mod element;
pub mod molecule;
pub mod smiles;
pub mod text;

pub use atom::Atom;
pub use bond::{Bond, BondType};
pub use molecule::Molecule;
pub use smiles::smiles_parser;
