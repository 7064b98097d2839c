use vstd::prelude::*;

use crate::atom::Atom;
use crate::bond::{Bond, BondType};
use crate::element::{
    element_place, element_weight, lemma_place_of, place_symbol, place_symbol_str, symbol_of,
    weight_of, FORMULA_PLACES,
};
use crate::text::{decimal, decimal_string};

verus! {

/// The neighbour row that a sequence of bonds gives atom `i`: for each bond
/// in insertion order, the end atom if `i` begins it, then the begin atom if
/// `i` ends it.
pub open spec fn neighbor_row(bonds: Seq<Bond>, i: int) -> Seq<usize>
    decreases bonds.len(),
{
    if bonds.len() == 0 {
        Seq::empty()
    } else {
        let prev = neighbor_row(bonds.drop_last(), i);
        let b = bonds.last();
        let with_end = if b.begin_atom_idx == i {
            prev.push(b.end_atom_idx)
        } else {
            prev
        };
        if b.end_atom_idx == i {
            with_end.push(b.begin_atom_idx)
        } else {
            with_end
        }
    }
}

/// The sum of the lengths of all adjacency rows.
pub open spec fn total_degree(adj: Seq<Seq<usize>>) -> int
    decreases adj.len(),
{
    if adj.len() == 0 {
        0
    } else {
        total_degree(adj.drop_last()) + adj.last().len()
    }
}

/// The adjacency rows after a bond from `b` to `e`: `e` joins the row of `b`,
/// then `b` joins the row of `e`.
pub open spec fn with_edge(adj: Seq<Seq<usize>>, b: int, e: int) -> Seq<Seq<usize>> {
    let first = adj.update(b, adj[b].push(e as usize));
    first.update(e, first[e].push(b as usize))
}

/// How many of `atoms` have the chemical symbol `s`.
pub open spec fn count_symbol(atoms: Seq<Atom>, s: Seq<char>) -> nat
    decreases atoms.len(),
{
    if atoms.len() == 0 {
        0
    } else {
        count_symbol(atoms.drop_last(), s) + if symbol_of(atoms.last().atomic_number) == s {
            1nat
        } else {
            0nat
        }
    }
}

/// One element's part of a formula: nothing for no atoms, the symbol alone
/// for one, else the symbol followed by the count in decimal.
pub open spec fn formula_term(s: Seq<char>, count: nat) -> Seq<char> {
    if count == 0 {
        Seq::empty()
    } else if count == 1 {
        s
    } else {
        s + decimal(count)
    }
}

/// The first `k` places of the molecular formula of `atoms`.
pub open spec fn formula_upto(atoms: Seq<Atom>, k: nat) -> Seq<char>
    decreases k,
{
    if k == 0 {
        Seq::empty()
    } else {
        let p = k - 1;
        let s = place_symbol(p);
        formula_upto(atoms, p as nat) + formula_term(s, count_symbol(atoms, s))
    }
}

/// The molecular formula of `atoms`: carbon, then hydrogen, then the other
/// symbols alphabetically, each with its count when above one, and elements
/// with no atoms left out.
pub open spec fn formula_of(atoms: Seq<Atom>) -> Seq<char> {
    formula_upto(atoms, FORMULA_PLACES as nat)
}

/// The molecular weight of `atoms` in mg/mol.
pub open spec fn weight_sum(atoms: Seq<Atom>) -> nat
    decreases atoms.len(),
{
    if atoms.len() == 0 {
        0
    } else {
        weight_sum(atoms.drop_last()) + weight_of(atoms.last().atomic_number) as nat
    }
}

/// A molecule as a graph: atoms, bonds between them by index, and for each
/// atom the indices of its bonded neighbours.
#[derive(Debug, Clone)]
pub struct Molecule {
    atoms: Vec<Atom>,
    bonds: Vec<Bond>,
    adjacency_list: Vec<Vec<usize>>,
}

impl Molecule {
    /// The atoms, by index.
    pub closed spec fn atoms(&self) -> Seq<Atom> {
        self.atoms@
    }

    /// The bonds, by index.
    pub closed spec fn bonds(&self) -> Seq<Bond> {
        self.bonds@
    }

    /// For each atom, its neighbours' indices in bond insertion order.
    pub closed spec fn adjacency(&self) -> Seq<Seq<usize>> {
        self.adjacency_list@.map_values(|r: Vec<usize>| r@)
    }

    /// One adjacency row per atom, each the row that the bonds give it; every
    /// bond joins existing atoms; the rows hold two entries per bond.
    pub open spec fn wf(&self) -> bool {
        &&& self.adjacency().len() == self.atoms().len()
        &&& forall|i: int|
            0 <= i < self.adjacency().len() ==> #[trigger] self.adjacency()[i] == neighbor_row(
                self.bonds(),
                i,
            )
        &&& forall|j: int|
            0 <= j < self.bonds().len() ==> #[trigger] self.bonds()[j].begin_atom_idx
                < self.atoms().len() && self.bonds()[j].end_atom_idx < self.atoms().len()
        &&& total_degree(self.adjacency()) == 2 * self.bonds().len()
    }

    /// An empty molecule.
    pub fn new() -> (r: Self)
        ensures
            r.wf(),
            r.atoms() == Seq::<Atom>::empty(),
            r.bonds() == Seq::<Bond>::empty(),
            r.adjacency() == Seq::<Seq<usize>>::empty(),
    {
        let r = Molecule { atoms: Vec::new(), bonds: Vec::new(), adjacency_list: Vec::new() };
        assert(r.adjacency() =~= Seq::<Seq<usize>>::empty());
        r
    }

    /// Appends `atom` with an empty neighbour row and returns its index, which
    /// is the number of atoms before the call.
    pub fn add_atom(&mut self, atom: Atom) -> (r: usize)
        requires
            old(self).wf(),
        ensures
            final(self).wf(),
            r == old(self).atoms().len(),
            final(self).atoms() == old(self).atoms().push(atom),
            final(self).bonds() == old(self).bonds(),
            final(self).adjacency() == old(self).adjacency().push(Seq::<usize>::empty()),
    {
        let idx = self.atoms.len();
        self.atoms.push(atom);
        self.adjacency_list.push(Vec::new());
        proof {
            let old_adj = old(self).adjacency();
            assert(self.adjacency() =~= old_adj.push(Seq::<usize>::empty()));
            lemma_untouched_row_empty(self.bonds(), idx as int);
            assert(old_adj.push(Seq::<usize>::empty()).drop_last() =~= old_adj);
            assert forall|i: int| 0 <= i < self.adjacency().len() implies #[trigger] self.adjacency()[i]
                == neighbor_row(self.bonds(), i) by {
                if i < idx {
                    assert(old_adj[i] == neighbor_row(old(self).bonds(), i));
                }
            }
        }
        idx
    }

    /// Adds a bond of type `bond_type` from atom `begin_atom_idx` to atom
    /// `end_atom_idx` and returns its index, the number of bonds before the
    /// call. Fails, changing nothing, when either index is not an atom's.
    /// Self-loops and repeated bonds are accepted.
    pub fn add_bond(&mut self, begin_atom_idx: usize, end_atom_idx: usize, bond_type: BondType) -> (r:
        Result<usize, &'static str>)
        requires
            old(self).wf(),
        ensures
            final(self).wf(),
            r is Ok <==> (begin_atom_idx < old(self).atoms().len() && end_atom_idx < old(
                self,
            ).atoms().len()),
            r is Ok ==> {
                &&& r->Ok_0 == old(self).bonds().len()
                &&& final(self).atoms() == old(self).atoms()
                &&& final(self).bonds() == old(self).bonds().push(
                    Bond { bond_type, begin_atom_idx, end_atom_idx, is_in_ring: false },
                )
                &&& final(self).adjacency() == with_edge(
                    old(self).adjacency(),
                    begin_atom_idx as int,
                    end_atom_idx as int,
                )
            },
            r is Err ==> *final(self) == *old(self),
    {
        if begin_atom_idx >= self.atoms.len() || end_atom_idx >= self.atoms.len() {
            return Err("Atom index out of bounds");
        }
        let bond = Bond::new(begin_atom_idx, end_atom_idx, bond_type);
        let bond_idx = self.bonds.len();
        self.bonds.push(bond);
        self.adjacency_list[begin_atom_idx].push(end_atom_idx);
        self.adjacency_list[end_atom_idx].push(begin_atom_idx);
        proof {
            let b = begin_atom_idx as int;
            let e = end_atom_idx as int;
            let old_adj = old(self).adjacency();
            let mid = old_adj.update(b, old_adj[b].push(end_atom_idx));
            assert(self.adjacency() =~= with_edge(old_adj, b, e));
            assert(self.bonds().drop_last() =~= old(self).bonds());
            assert(self.bonds().last() == bond);
            assert forall|i: int| 0 <= i < self.adjacency().len() implies #[trigger] self.adjacency()[i]
                == neighbor_row(self.bonds(), i) by {
                assert(old_adj[i] == neighbor_row(old(self).bonds(), i));
            }
            lemma_total_degree_update(old_adj, b, old_adj[b].push(end_atom_idx));
            lemma_total_degree_update(mid, e, mid[e].push(begin_atom_idx));
        }
        Ok(bond_idx)
    }

    /// The number of atoms.
    pub fn atom_count(&self) -> (r: usize)
        ensures
            r == self.atoms().len(),
    {
        self.atoms.len()
    }

    /// The number of bonds.
    pub fn bond_count(&self) -> (r: usize)
        ensures
            r == self.bonds().len(),
    {
        self.bonds.len()
    }

    /// The atom at `idx`, or `None` when there is none.
    pub fn get_atom(&self, idx: usize) -> (r: Option<&Atom>)
        ensures
            r == (if idx < self.atoms().len() {
                Some(&self.atoms()[idx as int])
            } else {
                None
            }),
    {
        if idx < self.atoms.len() {
            Some(&self.atoms[idx])
        } else {
            None
        }
    }

    /// A mutable handle on the atom at `idx`, or `None` when there is none.
    /// Only that atom's fields can change through it.
    pub fn get_atom_mut(&mut self, idx: usize) -> (r: Option<&mut Atom>)
        ensures
            r is Some <==> idx < old(self).atoms().len(),
            r is None ==> *final(self) == *old(self),
            r is Some ==> {
                &&& *r->Some_0 == old(self).atoms()[idx as int]
                &&& final(self).atoms() == old(self).atoms().update(idx as int, *final(r->Some_0))
                &&& final(self).bonds() == old(self).bonds()
                &&& final(self).adjacency() == old(self).adjacency()
            },
    {
        if idx < self.atoms.len() {
            Some(&mut self.atoms[idx])
        } else {
            None
        }
    }

    /// The bond at `idx`, or `None` when there is none.
    pub fn get_bond(&self, idx: usize) -> (r: Option<&Bond>)
        ensures
            r == (if idx < self.bonds().len() {
                Some(&self.bonds()[idx as int])
            } else {
                None
            }),
    {
        if idx < self.bonds.len() {
            Some(&self.bonds[idx])
        } else {
            None
        }
    }

    /// The neighbours of atom `atom_idx` in bond insertion order, or `None`
    /// when there is no such atom.
    pub fn get_neighbors(&self, atom_idx: usize) -> (r: Option<&[usize]>)
        requires
            self.wf(),
        ensures
            r is Some <==> atom_idx < self.atoms().len(),
            r is Some ==> r->Some_0@ == self.adjacency()[atom_idx as int],
    {
        if atom_idx < self.adjacency_list.len() {
            Some(self.adjacency_list[atom_idx].as_slice())
        } else {
            None
        }
    }
    /// How many atoms have the symbol at formula place `k`.
    fn count_place(&self, k: usize) -> (r: usize)
        requires
            k < FORMULA_PLACES,
        ensures
            r == count_symbol(self.atoms(), place_symbol(k as int)),
    {
        let mut c: usize = 0;
        let mut i: usize = 0;
        while i < self.atoms.len()
            invariant
                i <= self.atoms.len(),
                c <= i,
                k < FORMULA_PLACES,
                c == count_symbol(self.atoms@.take(i as int), place_symbol(k as int)),
            decreases self.atoms.len() - i,
        {
            proof {
                lemma_place_of(self.atoms@[i as int].atomic_number, k as int);
                assert(self.atoms@.take(i + 1).drop_last() =~= self.atoms@.take(i as int));
            }
            if element_place(self.atoms[i].atomic_number) == k {
                c += 1;
            }
            i += 1;
        }
        assert(self.atoms@.take(i as int) =~= self.atoms@);
        c
    }

    /// The molecular formula in Hill order: carbon, then hydrogen, then the
    /// other symbols alphabetically, each followed by its count when above
    /// one. Empty for a molecule without atoms.
    pub fn get_molecular_formula(&self) -> (r: String)
        ensures
            r@ == formula_of(self.atoms()),
    {
        let mut formula = String::new();
        let mut k: usize = 0;
        while k < FORMULA_PLACES
            invariant
                k <= FORMULA_PLACES,
                formula@ == formula_upto(self.atoms(), k as nat),
            decreases FORMULA_PLACES - k,
        {
            let count = self.count_place(k);
            let sym = place_symbol_str(k);
            let ghost before = formula@;
            if count >= 1 {
                formula.append(sym);
            }
            if count > 1 {
                let digits = decimal_string(count);
                formula.append(digits.as_str());
            }
            assert(formula@ =~= before + formula_term(sym@, count as nat));
            k += 1;
        }
        formula
    }

    /// The molecular weight in mg/mol (thousandths of g/mol): the sum of the
    /// standard atomic weights, 0 for an element outside the table. Isotope
    /// tags are not taken into account.
    pub fn get_molecular_weight(&self) -> (r: u128)
        ensures
            r == weight_sum(self.atoms()),
    {
        let mut total: u128 = 0;
        let mut i: usize = 0;
        while i < self.atoms.len()
            invariant
                i <= self.atoms.len(),
                total <= i * 126904,
                total == weight_sum(self.atoms@.take(i as int)),
            decreases self.atoms.len() - i,
        {
            proof {
                assert(self.atoms@.take(i + 1).drop_last() =~= self.atoms@.take(i as int));
            }
            total = total + element_weight(self.atoms[i].atomic_number) as u128;
            i += 1;
        }
        assert(self.atoms@.take(i as int) =~= self.atoms@);
        total
    }
}

/// A row that no bond touches is empty.
proof fn lemma_untouched_row_empty(bonds: Seq<Bond>, i: int)
    requires
        forall|j: int|
            0 <= j < bonds.len() ==> #[trigger] bonds[j].begin_atom_idx != i
                && bonds[j].end_atom_idx != i,
    ensures
        neighbor_row(bonds, i) == Seq::<usize>::empty(),
    decreases bonds.len(),
{
    if bonds.len() > 0 {
        let prev = bonds.drop_last();
        assert forall|j: int| 0 <= j < prev.len() implies #[trigger] prev[j].begin_atom_idx != i
            && prev[j].end_atom_idx != i by {
            assert(prev[j] == bonds[j]);
        }
        lemma_untouched_row_empty(prev, i);
        assert(bonds.last() == bonds[bonds.len() - 1]);
    }
}

/// Replacing one row changes the total by the difference of the lengths.
proof fn lemma_total_degree_update(adj: Seq<Seq<usize>>, i: int, row: Seq<usize>)
    requires
        0 <= i < adj.len(),
    ensures
        total_degree(adj.update(i, row)) == total_degree(adj) - adj[i].len() + row.len(),
    decreases adj.len(),
{
    let upd = adj.update(i, row);
    if i == adj.len() - 1 {
        assert(upd.drop_last() =~= adj.drop_last());
    } else {
        assert(upd.drop_last() =~= adj.drop_last().update(i, row));
        lemma_total_degree_update(adj.drop_last(), i, row);
    }
}

/// In a well-formed molecule the adjacency rows hold, all together, two
/// entries per bond.
pub proof fn lemma_degree_sum(m: &Molecule)
    requires
        m.wf(),
    ensures
        total_degree(m.adjacency()) == 2 * m.bonds().len(),
{
}

/// An atom that no bond touches has an empty neighbour row.
pub proof fn lemma_unbonded_atom_has_no_neighbors(m: &Molecule, i: int)
    requires
        m.wf(),
        0 <= i < m.atoms().len(),
        forall|j: int|
            0 <= j < m.bonds().len() ==> #[trigger] m.bonds()[j].begin_atom_idx != i
                && m.bonds()[j].end_atom_idx != i,
    ensures
        m.adjacency()[i] == Seq::<usize>::empty(),
{
    lemma_untouched_row_empty(m.bonds(), i);
}

/// A molecule without atoms has the empty formula.
pub proof fn lemma_empty_formula()
    ensures
        formula_of(Seq::<Atom>::empty()) == Seq::<char>::empty(),
{
    lemma_formula_upto_empty(FORMULA_PLACES as nat);
}

proof fn lemma_formula_upto_empty(k: nat)
    ensures
        formula_upto(Seq::<Atom>::empty(), k) == Seq::<char>::empty(),
    decreases k,
{
    if k > 0 {
        lemma_formula_upto_empty((k - 1) as nat);
        let p = k - 1;
        assert(count_symbol(Seq::<Atom>::empty(), place_symbol(p)) == 0);
        assert(formula_upto(Seq::<Atom>::empty(), k) =~= Seq::<char>::empty());
    }
}

} // verus!
