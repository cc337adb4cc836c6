use vstd::prelude::*;

verus! {

/// Fixed-point units per ångström: a coordinate is held as an exact integer
/// count of 10^-12 Å, so that translating a position is exact.
pub const UNITS_PER_ANGSTROM: i64 = 1_000_000_000_000;

/// A Cartesian 3-vector in fixed-point units (see `UNITS_PER_ANGSTROM`).
#[derive(Debug, Clone, Copy, PartialEq, Eq)]
pub struct Vec3 {
    pub x: i64,
    pub y: i64,
    pub z: i64,
}

/// Whether a value fits in an `i64`.
pub open spec fn fits_i64(v: int) -> bool {
    i64::MIN <= v <= i64::MAX
}

/// Whether `p + d` can be formed componentwise without leaving the `i64` range.
pub open spec fn can_shift(p: Vec3, d: Vec3) -> bool {
    fits_i64(p.x + d.x) && fits_i64(p.y + d.y) && fits_i64(p.z + d.z)
}

/// The componentwise sum `p + d`.
pub open spec fn shifted(p: Vec3, d: Vec3) -> Vec3
    recommends
        can_shift(p, d),
{
    Vec3 { x: (p.x + d.x) as i64, y: (p.y + d.y) as i64, z: (p.z + d.z) as i64 }
}

/// Whether `to - from` can be formed componentwise without leaving the `i64` range.
pub open spec fn can_span(from: Vec3, to: Vec3) -> bool {
    fits_i64(to.x - from.x) && fits_i64(to.y - from.y) && fits_i64(to.z - from.z)
}

/// The componentwise difference `to - from`.
pub open spec fn span(from: Vec3, to: Vec3) -> Vec3
    recommends
        can_span(from, to),
{
    Vec3 { x: (to.x - from.x) as i64, y: (to.y - from.y) as i64, z: (to.z - from.z) as i64 }
}

impl Vec3 {
    pub fn new(x: i64, y: i64, z: i64) -> (r: Vec3)
        ensures
            r == (Vec3 { x, y, z }),
    {
        Vec3 { x, y, z }
    }

    /// This position moved by the translation `d`.
    pub fn translate(self, d: Vec3) -> (r: Vec3)
        requires
            can_shift(self, d),
        ensures
            r == shifted(self, d),
    {
        Vec3 { x: self.x + d.x, y: self.y + d.y, z: self.z + d.z }
    }
}

/// The translation that carries an anchor point of a cluster onto a site of the
/// substrate: `site - anchor`.
pub fn anchor_translation(anchor: Vec3, site: Vec3) -> (r: Vec3)
    requires
        can_span(anchor, site),
    ensures
        r == span(anchor, site),
        can_shift(anchor, r) && shifted(anchor, r) == site,
{
    Vec3 { x: site.x - anchor.x, y: site.y - anchor.y, z: site.z - anchor.z }
}

/// An atom: its species symbol, its 1-based index in its lattice, and its
/// Cartesian position.
#[derive(Debug, Clone)]
pub struct Atom {
    pub symbol: String,
    pub index: usize,
    pub position: Vec3,
}

/// What an atom is, as a mathematical value.
pub struct AtomView {
    pub symbol: Seq<char>,
    pub index: nat,
    pub position: Vec3,
}

impl View for Atom {
    type V = AtomView;

    open spec fn view(&self) -> AtomView {
        AtomView { symbol: self.symbol@, index: self.index as nat, position: self.position }
    }
}

/// A periodic cell: three lattice vectors (rows a, b, c) and an ordered list of atoms.
#[derive(Debug, Clone)]
pub struct Lattice {
    pub vectors: [Vec3; 3],
    pub atoms: Vec<Atom>,
}

/// What a lattice is, as a mathematical value.
pub struct LatticeView {
    pub vectors: [Vec3; 3],
    pub atoms: Seq<AtomView>,
}

impl View for Lattice {
    type V = LatticeView;

    open spec fn view(&self) -> LatticeView {
        LatticeView { vectors: self.vectors, atoms: self.atoms@.map_values(|a: Atom| a@) }
    }
}

/// Whether each atom's index is its 1-based place in the list.
pub open spec fn indices_in_order(atoms: Seq<AtomView>) -> bool {
    forall|k: int| 0 <= k < atoms.len() ==> #[trigger] atoms[k].index == k + 1
}

impl Lattice {
    /// Well-formed: atom indices run 1..N in list order.
    pub open spec fn wf(&self) -> bool {
        indices_in_order(self@.atoms)
    }
}

/// Whether every atom of `atoms` can be moved by `d` within the `i64` range.
pub open spec fn all_can_shift(atoms: Seq<AtomView>, d: Vec3) -> bool {
    forall|j: int| 0 <= j < atoms.len() ==> can_shift(#[trigger] atoms[j].position, d)
}

/// The `k`-th atom of the combination of `substrate` and `cluster` under `d`: a
/// substrate atom as it is, or a cluster atom moved by `d`; its index is `k + 1`.
pub open spec fn combined_atom(substrate: Seq<AtomView>, cluster: Seq<AtomView>, d: Vec3, k: int) -> AtomView {
    if k < substrate.len() {
        AtomView { symbol: substrate[k].symbol, index: (k + 1) as nat, position: substrate[k].position }
    } else {
        let c = cluster[k - substrate.len()];
        AtomView { symbol: c.symbol, index: (k + 1) as nat, position: shifted(c.position, d) }
    }
}

/// The combination of two lattices under the translation `d`: the substrate's
/// cell vectors; the substrate's atoms followed by the cluster's atoms moved by
/// `d`; indices renumbered 1..N.
pub open spec fn combined(substrate: LatticeView, cluster: LatticeView, d: Vec3) -> LatticeView {
    LatticeView {
        vectors: substrate.vectors,
        atoms: Seq::new(
            substrate.atoms.len() + cluster.atoms.len(),
            |k: int| combined_atom(substrate.atoms, cluster.atoms, d, k),
        ),
    }
}

/// Whether `p + d` stays in the `i64` range, componentwise.
pub fn fits_shift(p: Vec3, d: Vec3) -> (r: bool)
    ensures
        r == can_shift(p, d),
{
    let x = p.x as i128 + d.x as i128;
    let y = p.y as i128 + d.y as i128;
    let z = p.z as i128 + d.z as i128;
    let lo = i64::MIN as i128;
    let hi = i64::MAX as i128;
    lo <= x && x <= hi && lo <= y && y <= hi && lo <= z && z <= hi
}

/// Whether `combine(substrate, cluster, d)` can be formed: the atom count fits
/// a `usize` and every cluster atom can be moved by `d`.
pub fn can_combine(substrate: &Lattice, cluster: &Lattice, d: Vec3) -> (r: bool)
    ensures
        r == (substrate.atoms.len() + cluster.atoms.len() <= usize::MAX && all_can_shift(
            cluster@.atoms,
            d,
        )),
{
    if substrate.atoms.len() > usize::MAX - cluster.atoms.len() {
        return false;
    }
    let mut j: usize = 0;
    while j < cluster.atoms.len()
        invariant
            j <= cluster.atoms.len(),
            forall|k: int| 0 <= k < j ==> can_shift(#[trigger] cluster@.atoms[k].position, d),
        decreases cluster.atoms.len() - j,
    {
        if !fits_shift(cluster.atoms[j].position, d) {
            assert(!can_shift(cluster@.atoms[j as int].position, d));
            return false;
        }
        j = j + 1;
    }
    true
}

/// Combines a substrate lattice with a cluster lattice moved by the translation `d`.
pub fn combine(substrate: &Lattice, cluster: &Lattice, d: Vec3) -> (r: Lattice)
    requires
        substrate.atoms.len() + cluster.atoms.len() <= usize::MAX,
        all_can_shift(cluster@.atoms, d),
    ensures
        r@ == combined(substrate@, cluster@, d),
        r.wf(),
{
    let ghost target = combined(substrate@, cluster@, d);
    let n = substrate.atoms.len();
    let m = cluster.atoms.len();
    let mut atoms: Vec<Atom> = Vec::new();
    let mut i: usize = 0;
    while i < n
        invariant
            n == substrate.atoms.len(),
            m == cluster.atoms.len(),
            n + m <= usize::MAX,
            i <= n,
            atoms@.len() == i,
            forall|k: int| 0 <= k < i ==> (#[trigger] atoms@[k])@ == combined_atom(substrate@.atoms, cluster@.atoms, d, k),
        decreases n - i,
    {
        let a = &substrate.atoms[i];
        atoms.push(Atom { symbol: a.symbol.clone(), index: i + 1, position: a.position });
        i = i + 1;
    }
    let mut j: usize = 0;
    while j < m
        invariant
            n == substrate.atoms.len(),
            m == cluster.atoms.len(),
            n + m <= usize::MAX,
            j <= m,
            atoms@.len() == n + j,
            all_can_shift(cluster@.atoms, d),
            forall|k: int| 0 <= k < n + j ==> (#[trigger] atoms@[k])@ == combined_atom(substrate@.atoms, cluster@.atoms, d, k),
        decreases m - j,
    {
        let c = &cluster.atoms[j];
        assert(can_shift(cluster@.atoms[j as int].position, d));
        atoms.push(Atom { symbol: c.symbol.clone(), index: n + j + 1, position: c.position.translate(d) });
        j = j + 1;
    }
    let r = Lattice { vectors: substrate.vectors, atoms };
    assert(r@.atoms =~= target.atoms);
    r
}

/// The anchor atom of a cluster cell, in fixed-point units: (0.707254, 8.575, 1.0175) Å.
pub open spec fn cluster_anchor() -> Vec3 {
    Vec3 { x: 707_254_000_000, y: 8_575_000_000_000, z: 1_017_500_000_000 }
}

/// The substrate site that the cluster anchor is registered onto, in
/// fixed-point units: (2.67872, 9.97325, 5.931993) Å.
pub open spec fn substrate_site() -> Vec3 {
    Vec3 { x: 2_678_720_000_000, y: 9_973_250_000_000, z: 5_931_993_000_000 }
}

/// The translation that registers a cluster's anchor atom onto the substrate
/// site: (1.971466, 1.39825, 4.914493) Å.
pub fn registration_translation() -> (r: Vec3)
    ensures
        r == span(cluster_anchor(), substrate_site()),
        r == (Vec3 { x: 1_971_466_000_000, y: 1_398_250_000_000, z: 4_914_493_000_000 }),
{
    let anchor = Vec3::new(707_254_000_000, 8_575_000_000_000, 1_017_500_000_000);
    let site = Vec3::new(2_678_720_000_000, 9_973_250_000_000, 5_931_993_000_000);
    anchor_translation(anchor, site)
}

/// Registers a cluster lattice onto the substrate lattice: the substrate's
/// cell, its atoms, then the cluster's atoms moved by `registration_translation`.
pub fn combine_ni_sinx(ni_lattice: &Lattice, si_lattice: &Lattice) -> (r: Lattice)
    requires
        si_lattice.atoms.len() + ni_lattice.atoms.len() <= usize::MAX,
        all_can_shift(ni_lattice@.atoms, span(cluster_anchor(), substrate_site())),
    ensures
        r@ == combined(si_lattice@, ni_lattice@, span(cluster_anchor(), substrate_site())),
        r.wf(),
{
    let d = registration_translation();
    combine(si_lattice, ni_lattice, d)
}

/// Combining adds the atom counts: the result holds every substrate atom and
/// every cluster atom.
pub proof fn lemma_combined_count(substrate: LatticeView, cluster: LatticeView, d: Vec3)
    ensures
        combined(substrate, cluster, d).atoms.len() == substrate.atoms.len() + cluster.atoms.len(),
{
}

/// Combining keeps the substrate: its cell vectors, and each of its atoms in
/// place, with the same species and position.
pub proof fn lemma_substrate_kept(substrate: LatticeView, cluster: LatticeView, d: Vec3)
    ensures
        combined(substrate, cluster, d).vectors == substrate.vectors,
        forall|i: int|
            0 <= i < substrate.atoms.len() ==> {
                &&& (#[trigger] combined(substrate, cluster, d).atoms[i]).position
                    == substrate.atoms[i].position
                &&& combined(substrate, cluster, d).atoms[i].symbol == substrate.atoms[i].symbol
            },
{
}

/// Combining moves each cluster atom by the translation exactly once, keeps its
/// species, and places it after the substrate atoms in cluster order.
pub proof fn lemma_cluster_shifted(substrate: LatticeView, cluster: LatticeView, d: Vec3)
    ensures
        forall|j: int|
            0 <= j < cluster.atoms.len() ==> {
                &&& (#[trigger] combined(substrate, cluster, d).atoms[substrate.atoms.len() + j]).position
                    == shifted(cluster.atoms[j].position, d)
                &&& combined(substrate, cluster, d).atoms[substrate.atoms.len() + j].symbol
                    == cluster.atoms[j].symbol
            },
{
    assert forall|j: int| 0 <= j < cluster.atoms.len() implies {
        &&& (#[trigger] combined(substrate, cluster, d).atoms[substrate.atoms.len() + j]).position
            == shifted(cluster.atoms[j].position, d)
        &&& combined(substrate, cluster, d).atoms[substrate.atoms.len() + j].symbol
            == cluster.atoms[j].symbol
    } by {
        assert(combined(substrate, cluster, d).atoms[substrate.atoms.len() + j] == combined_atom(
            substrate.atoms,
            cluster.atoms,
            d,
            substrate.atoms.len() + j,
        ));
    }
}

/// Combining a well-formed lattice with a cluster that has no atoms gives the
/// lattice back, whatever the translation.
pub proof fn lemma_empty_cluster(lattice: LatticeView, cluster: LatticeView, d: Vec3)
    requires
        indices_in_order(lattice.atoms),
        cluster.atoms.len() == 0,
    ensures
        combined(lattice, cluster, d) == lattice,
{
    assert forall|k: int| 0 <= k < lattice.atoms.len() implies #[trigger] combined(
        lattice,
        cluster,
        d,
    ).atoms[k] == lattice.atoms[k] by {
        assert(lattice.atoms[k].index == k + 1);
    }
    assert(combined(lattice, cluster, d).atoms =~= lattice.atoms);
}

/// Combining a substrate that has no atoms with a well-formed lattice gives that
/// lattice's atoms, each moved by the translation, in the same order.
pub proof fn lemma_empty_substrate(substrate: LatticeView, lattice: LatticeView, d: Vec3)
    requires
        indices_in_order(lattice.atoms),
        substrate.atoms.len() == 0,
    ensures
        combined(substrate, lattice, d).atoms == lattice.atoms.map_values(
            |a: AtomView| AtomView { symbol: a.symbol, index: a.index, position: shifted(a.position, d) },
        ),
{
    assert(combined(substrate, lattice, d).atoms =~= lattice.atoms.map_values(
        |a: AtomView| AtomView { symbol: a.symbol, index: a.index, position: shifted(a.position, d) },
    ));
}

/// Combining the result of a combination with a further cluster moves only the
/// new cluster's atoms: every atom of the first combination keeps its species
/// and position.
pub proof fn lemma_recombine_moves_only_new(
    substrate: LatticeView,
    first: LatticeView,
    second: LatticeView,
    d: Vec3,
)
    ensures
        forall|k: int|
            0 <= k < substrate.atoms.len() + first.atoms.len() ==> {
                &&& (#[trigger] combined(combined(substrate, first, d), second, d).atoms[k]).position
                    == combined(substrate, first, d).atoms[k].position
                &&& combined(combined(substrate, first, d), second, d).atoms[k].symbol
                    == combined(substrate, first, d).atoms[k].symbol
            },
{
}
} // verus!
