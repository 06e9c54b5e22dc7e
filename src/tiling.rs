//! The combinatorial state of an isohedral tiling: the selected type, its edges
//! and the colouring of the copies of its prototile.
use vstd::prelude::*;

use crate::data::{catalogue, tiling_type_data, TilingTypeData, COLOURING_PERIOD, COLOURING_T1, COLOURING_T2};
use crate::{valid_types, EdgeShape, TilingType};

verus! {

/// The colour reached from `col` after `n` steps through the transition table
/// that starts at `base` in the colouring table `c`.
pub open spec fn colour_steps(c: Seq<u8>, base: int, col: int, n: nat) -> int
    decreases n,
{
    if n == 0 {
        col
    } else {
        c[base + colour_steps(c, base, col, (n - 1) as nat)] as int
    }
}

/// The colour of the copy of aspect `a` translated by `t1` and `t2` lattice
/// steps, for the colouring table `c`: the aspect's own colour, moved through
/// the first transition table `t1 mod p` times, then through the second one
/// `t2 mod p` times, where `p` is the period stored in the table.
pub open spec fn colour_of(c: Seq<u8>, t1: int, t2: int, a: int) -> int {
    let p = c[COLOURING_PERIOD as int] as int;
    let after_t1 = colour_steps(c, COLOURING_T1 as int, c[a] as int, (t1 % p) as nat);
    colour_steps(c, COLOURING_T2 as int, after_t1, (t2 % p) as nat)
}

/// One edge of the prototile, or one half of a symmetric edge.
#[derive(Debug, Clone, Copy, PartialEq, Eq, Structural)]
pub struct Shape {
    /// The edge of the prototile that this item lies on.
    pub edge: usize,
    /// The index of the edge's shape among the tiling type's edge shapes.
    pub id: usize,
    /// The constraint of the edge's shape.
    pub shape: EdgeShape,
    /// Whether the edge's curve is traversed backwards.
    pub rev: bool,
    /// Whether this item is the second half of a split edge.
    pub second: bool,
    /// For one half of a split edge, which of the two half-edge transforms of its
    /// shape places it on the edge.
    pub half: Option<usize>,
}

impl Shape {
    /// The edge of the prototile that this item lies on.
    pub fn edge(&self) -> (r: usize)
        ensures
            r == self.edge,
    {
        self.edge
    }

    /// The index of the edge's shape.
    pub fn id(&self) -> (r: usize)
        ensures
            r == self.id,
    {
        self.id
    }

    /// The constraint of the edge's shape.
    pub fn shape(&self) -> (r: EdgeShape)
        ensures
            r == self.shape,
    {
        self.shape
    }

    /// Whether the edge's curve is traversed backwards.
    pub fn reversed(&self) -> (r: bool)
        ensures
            r == self.rev,
    {
        self.rev
    }

    /// Whether this item is the second half of a split edge.
    pub fn second(&self) -> (r: bool)
        ensures
            r == self.second,
    {
        self.second
    }

    /// For one half of a split edge, the index of its half-edge transform.
    pub fn half(&self) -> (r: Option<usize>)
        ensures
            r == self.half,
    {
        self.half
    }
}

/// Whether an edge of this shape is drawn as two mirrored halves.
pub open spec fn is_split(shape: EdgeShape) -> bool {
    shape == EdgeShape::U || shape == EdgeShape::S
}

/// The flip bit of edge `i`.
pub open spec fn edge_flip(d: TilingTypeData, i: int) -> bool {
    d.edge_orientations@[2 * i]
}

/// The reverse bit of edge `i`.
pub open spec fn edge_rev(d: TilingTypeData, i: int) -> bool {
    d.edge_orientations@[2 * i + 1]
}

/// Whether the curve of edge `i` is traversed backwards: exactly one of its
/// two orientation bits is set.
pub open spec fn edge_reversed(d: TilingTypeData, i: int) -> bool {
    edge_flip(d, i) != edge_rev(d, i)
}

/// The constraint of edge `i`.
pub open spec fn edge_kind(d: TilingTypeData, i: int) -> EdgeShape {
    d.edge_shapes@[d.edge_shape_ids@[i] as int]
}

/// The item that describes edge `i` whole.
pub open spec fn whole_edge(d: TilingTypeData, i: int) -> Shape {
    Shape {
        edge: i as usize,
        id: d.edge_shape_ids@[i],
        shape: edge_kind(d, i),
        rev: edge_reversed(d, i),
        second: false,
        half: None,
    }
}

/// The items of edge `i` in the part decomposition: the edge whole, or, for a
/// `U` or `S` edge, its first half followed by its second half.
pub open spec fn edge_parts(d: TilingTypeData, i: int) -> Seq<Shape> {
    if is_split(edge_kind(d, i)) {
        let r = edge_reversed(d, i);
        let base = Shape {
            edge: i as usize,
            id: d.edge_shape_ids@[i],
            shape: edge_kind(d, i),
            rev: false,
            second: false,
            half: Some(if r { 1usize } else { 0usize }),
        };
        seq![
            base,
            Shape { rev: true, second: true, half: Some(if r { 0usize } else { 1usize }), ..base },
        ]
    } else {
        seq![whole_edge(d, i)]
    }
}

/// The items of the first `n` edges, one per edge.
pub open spec fn edges_upto(d: TilingTypeData, n: int) -> Seq<Shape> {
    Seq::new(n as nat, |i: int| whole_edge(d, i))
}

/// The part decomposition of the first `n` edges, edge after edge.
pub open spec fn parts_upto(d: TilingTypeData, n: int) -> Seq<Shape>
    decreases n,
{
    if n <= 0 {
        Seq::empty()
    } else {
        parts_upto(d, n - 1) + edge_parts(d, n - 1)
    }
}

/// The number of `U` and `S` edges among the first `n` edges.
pub open spec fn num_split_upto(d: TilingTypeData, n: int) -> int
    decreases n,
{
    if n <= 0 {
        0
    } else {
        num_split_upto(d, n - 1) + if is_split(edge_kind(d, n - 1)) { 1int } else { 0int }
    }
}

/// Represents a particular isohedral tiling type and the combinatorics of its prototile.
#[derive(Debug)]
pub struct IsohedralTiling {
    tiling_type: TilingType,
    ttd: TilingTypeData,
}

impl IsohedralTiling {
    /// The instance describes one of the defined tiling types with its catalogue record.
    pub open spec fn wf(&self) -> bool {
        &&& valid_types().contains(self.spec_tiling_type().0)
        &&& self.spec_data().wf()
    }

    /// The catalogue record of the current tiling type.
    pub closed spec fn spec_data(&self) -> TilingTypeData {
        self.ttd
    }

    /// The selected tiling type.
    pub closed spec fn spec_tiling_type(&self) -> TilingType {
        self.tiling_type
    }

    /// Creates an instance for the given tiling type, which must be one of the
    /// defined types (see [`crate::get_tiling_type`]).
    pub fn new(ihtype: TilingType) -> (r: Self)
        requires
            valid_types().contains(ihtype.0),
        ensures
            r.wf(),
            r.spec_tiling_type() == ihtype,
            r.spec_data()@ == catalogue(ihtype.0),
    {
        IsohedralTiling { tiling_type: ihtype, ttd: tiling_type_data(ihtype.0) }
    }

    /// Makes this instance describe the given tiling type.
    pub fn reset(&mut self, ihtype: TilingType)
        requires
            valid_types().contains(ihtype.0),
        ensures
            final(self).wf(),
            final(self).spec_tiling_type() == ihtype,
            final(self).spec_data()@ == catalogue(ihtype.0),
    {
        self.tiling_type = ihtype;
        self.ttd = tiling_type_data(ihtype.0);
    }

    /// The catalogue record of the current tiling type.
    pub fn data(&self) -> (r: &TilingTypeData)
        ensures
            *r == self.spec_data(),
    {
        &self.ttd
    }

    /// The tiling type described by this instance.
    pub fn tiling_type(&self) -> (r: TilingType)
        ensures
            r == self.spec_tiling_type(),
    {
        self.tiling_type
    }

    /// The number of parameters that shape the prototile.
    pub fn num_params(&self) -> (r: usize)
        ensures
            r == self.spec_data().num_params,
    {
        self.ttd.num_params
    }

    /// The number of different edge shapes of the prototile.
    pub fn num_edge_shapes(&self) -> (r: usize)
        ensures
            r == self.spec_data().num_edge_shapes,
    {
        self.ttd.num_edge_shapes
    }

    /// The number of vertices of the prototile.
    pub fn num_vertices(&self) -> (r: usize)
        ensures
            r == self.spec_data().num_vertices,
    {
        self.ttd.num_vertices
    }

    /// The number of aspects of the tiling type.
    pub fn num_aspects(&self) -> (r: usize)
        ensures
            r == self.spec_data().num_aspects,
    {
        self.ttd.num_aspects
    }

    /// The constraint of the edge shape `idx`.
    pub fn edge_shape(&self, idx: usize) -> (r: EdgeShape)
        requires
            self.wf(),
            idx < self.spec_data().num_edge_shapes,
        ensures
            r == self.spec_data().edge_shapes@[idx as int],
    {
        self.ttd.edge_shapes[idx]
    }

    /// Whether the curve of edge `idx` is traversed backwards.
    pub fn edge_reversed(&self, idx: usize) -> (r: bool)
        requires
            self.wf(),
            idx < self.spec_data().num_vertices,
        ensures
            r == edge_reversed(self.spec_data(), idx as int),
    {
        self.ttd.edge_orientations[2 * idx] != self.ttd.edge_orientations[2 * idx + 1]
    }

    /// The orientation of edge `idx`, from 0 to 3: twice its flip bit plus its
    /// reverse bit. It selects the identity, the half turn, the flip or the
    /// flip followed by a half turn.
    pub fn edge_orientation(&self, idx: usize) -> (r: usize)
        requires
            self.wf(),
            idx < self.spec_data().num_vertices,
        ensures
            r == 2 * (if edge_flip(self.spec_data(), idx as int) { 1int } else { 0int }) + (if edge_rev(
                self.spec_data(),
                idx as int,
            ) { 1int } else { 0int }),
    {
        let fl: usize = if self.ttd.edge_orientations[2 * idx] { 1 } else { 0 };
        let ro: usize = if self.ttd.edge_orientations[2 * idx + 1] { 1 } else { 0 };
        2 * fl + ro
    }

    fn whole_edge(&self, idx: usize) -> (r: Shape)
        requires
            self.wf(),
            idx < self.spec_data().num_vertices,
        ensures
            r == whole_edge(self.spec_data(), idx as int),
    {
        let id = self.ttd.edge_shape_ids[idx];
        Shape {
            edge: idx,
            id,
            shape: self.ttd.edge_shapes[id],
            rev: self.edge_reversed(idx),
            second: false,
            half: None,
        }
    }

    /// Iterates over the edges of the prototile, one item per edge.
    pub fn shapes(&self) -> (r: TilingShapeIterator<'_>)
        requires
            self.wf(),
        ensures
            r.wf(),
            r.tiling() == self,
            r.pos() == 0,
    {
        TilingShapeIterator { idx: 0, tiling: self }
    }

    /// Iterates over the parts of the prototile's edges: a `J` or `I` edge
    /// gives one item, a `U` or `S` edge two, its first half and then its
    /// second half.
    pub fn parts(&self) -> (r: TilingShapePartIterator<'_>)
        requires
            self.wf(),
        ensures
            r.wf(),
            r.tiling() == self,
            r.pos() == 0,
    {
        TilingShapePartIterator { idx: 0, second: false, tiling: self }
    }

    /// Computes the colour, 0, 1 or 2, of the copy of aspect `aspect` that is
    /// translated by `t1` times the first and `t2` times the second translation vector.
    pub fn colour(&self, t1: isize, t2: isize, aspect: usize) -> (r: u8)
        requires
            self.wf(),
            aspect < self.spec_data().num_aspects,
        ensures
            r < 3,
            r == colour_of(self.spec_data().colouring@, t1 as int, t2 as int, aspect as int),
    {
        let c = &self.ttd.colouring;
        let nc = c[COLOURING_PERIOD] as isize;
        // The period is at least 1, so both remainders exist.
        let mt1 = match t1.checked_rem_euclid(nc) {
            Some(m) => m,
            None => 0,
        };
        let mt2 = match t2.checked_rem_euclid(nc) {
            Some(m) => m,
            None => 0,
        };
        assert(mt1 == t1 as int % nc as int);
        assert(mt2 == t2 as int % nc as int);
        let mut col = c[aspect];
        let mut i: isize = 0;
        while i < mt1
            invariant
                self.wf(),
                c == &self.ttd.colouring,
                0 <= i <= mt1,
                aspect < self.ttd.num_aspects,
                col < 3,
                col == colour_steps(c@, COLOURING_T1 as int, c@[aspect as int] as int, i as nat),
            decreases mt1 - i,
        {
            col = c[COLOURING_T1 + col as usize];
            i = i + 1;
        }
        let ghost after_t1 = col as int;
        let mut j: isize = 0;
        while j < mt2
            invariant
                self.wf(),
                c == &self.ttd.colouring,
                0 <= j <= mt2,
                col < 3,
                col == colour_steps(c@, COLOURING_T2 as int, after_t1, j as nat),
            decreases mt2 - j,
        {
            col = c[COLOURING_T2 + col as usize];
            j = j + 1;
        }
        col
    }
}

/// A walk over the edges of a prototile, one item per edge.
#[derive(Debug)]
pub struct TilingShapeIterator<'a> {
    idx: usize,
    tiling: &'a IsohedralTiling,
}

impl<'a> TilingShapeIterator<'a> {
    /// The tiling whose edges are walked.
    pub closed spec fn tiling(&self) -> &'a IsohedralTiling {
        self.tiling
    }

    /// The number of items already handed out.
    pub closed spec fn pos(&self) -> int {
        self.idx as int
    }

    /// All the items of the walk, in order.
    pub open spec fn items(&self) -> Seq<Shape> {
        let d = self.tiling().spec_data();
        edges_upto(d, d.num_vertices as int)
    }

    /// The walk is over a well-formed tiling and has not gone past its end.
    pub open spec fn wf(&self) -> bool {
        &&& self.tiling().wf()
        &&& 0 <= self.pos() <= self.items().len()
    }

    /// Hands out the next edge, or `None` once every edge has been handed out.
    pub fn next(&mut self) -> (r: Option<Shape>)
        requires
            old(self).wf(),
        ensures
            final(self).wf(),
            final(self).tiling() == old(self).tiling(),
            old(self).pos() < old(self).items().len() ==> r == Some(old(self).items()[old(self).pos()])
                && final(self).pos() == old(self).pos() + 1,
            old(self).pos() == old(self).items().len() ==> r is None && final(self).pos()
                == old(self).pos(),
    {
        if self.idx < self.tiling.ttd.num_vertices {
            let data = self.tiling.whole_edge(self.idx);
            self.idx = self.idx + 1;
            Some(data)
        } else {
            None
        }
    }
}

/// A walk over the parts of the edges of a prototile: a `J` or `I` edge is
/// handed out whole, a `U` or `S` edge as its two halves.
#[derive(Debug)]
pub struct TilingShapePartIterator<'a> {
    idx: usize,
    second: bool,
    tiling: &'a IsohedralTiling,
}

impl<'a> TilingShapePartIterator<'a> {
    /// The tiling whose edges are walked.
    pub closed spec fn tiling(&self) -> &'a IsohedralTiling {
        self.tiling
    }

    /// The number of items already handed out.
    pub closed spec fn pos(&self) -> int {
        parts_upto(self.tiling.spec_data(), self.idx as int).len() + if self.second {
            1int
        } else {
            0int
        }
    }

    /// The walk stands at an edge boundary, or between the two halves of a split edge.
    pub closed spec fn inner_wf(&self) -> bool {
        &&& self.idx <= self.tiling.spec_data().num_vertices
        &&& self.second ==> self.idx < self.tiling.spec_data().num_vertices && is_split(
            edge_kind(self.tiling.spec_data(), self.idx as int),
        )
    }

    /// All the items of the walk, in order.
    pub open spec fn items(&self) -> Seq<Shape> {
        let d = self.tiling().spec_data();
        parts_upto(d, d.num_vertices as int)
    }

    /// The walk is over a well-formed tiling and has not gone past its end.
    pub open spec fn wf(&self) -> bool {
        &&& self.tiling().wf()
        &&& self.inner_wf()
        &&& 0 <= self.pos() <= self.items().len()
    }

    /// Hands out the next part, or `None` once every part has been handed out.
    pub fn next(&mut self) -> (r: Option<Shape>)
        requires
            old(self).wf(),
        ensures
            final(self).wf(),
            final(self).tiling() == old(self).tiling(),
            old(self).pos() < old(self).items().len() ==> r == Some(old(self).items()[old(self).pos()])
                && final(self).pos() == old(self).pos() + 1,
            old(self).pos() == old(self).items().len() ==> r is None && final(self).pos()
                == old(self).pos(),
    {
        let ghost d = self.tiling.spec_data();
        let ghost n = d.num_vertices as int;
        let ghost i = self.idx as int;
        proof {
            lemma_parts_upto(d, n);
            if i < n {
                lemma_parts_prefix(d, i + 1, n);
                assert(parts_upto(d, i + 1) == parts_upto(d, i) + edge_parts(d, i));
            }
        }
        if self.idx < self.tiling.ttd.num_vertices {
            let idx = self.idx;
            let id = self.tiling.ttd.edge_shape_ids[idx];
            let shp = self.tiling.ttd.edge_shapes[id];
            if shp == EdgeShape::J || shp == EdgeShape::I {
                let data = self.tiling.whole_edge(idx);
                self.idx = idx + 1;
                Some(data)
            } else {
                let reversed = self.tiling.edge_reversed(idx);
                let (first, second): (usize, usize) = if reversed { (1, 0) } else { (0, 1) };
                if !self.second {
                    self.second = true;
                    Some(Shape { edge: idx, id, shape: shp, rev: false, second: false, half: Some(first) })
                } else {
                    self.second = false;
                    self.idx = idx + 1;
                    Some(Shape { edge: idx, id, shape: shp, rev: true, second: true, half: Some(second) })
                }
            }
        } else {
            None
        }
    }
}

proof fn lemma_parts_prefix(d: TilingTypeData, m: int, n: int)
    requires
        0 <= m <= n,
    ensures
        parts_upto(d, m).len() <= parts_upto(d, n).len(),
        forall|j: int| 0 <= j < parts_upto(d, m).len() ==> parts_upto(d, n)[j] == parts_upto(d, m)[j],
    decreases n - m,
{
    if m < n {
        lemma_parts_prefix(d, m, n - 1);
        assert(parts_upto(d, n) == parts_upto(d, n - 1) + edge_parts(d, n - 1));
    }
}

proof fn lemma_parts_upto(d: TilingTypeData, n: int)
    requires
        d.wf(),
        0 <= n <= d.num_vertices,
    ensures
        parts_upto(d, n).len() == n + num_split_upto(d, n),
        forall|j: int|
            0 <= j < parts_upto(d, n).len() ==> {
                let p = #[trigger] parts_upto(d, n)[j];
                &&& is_split(p.shape) ==> p.rev == p.second
                &&& !is_split(p.shape) ==> !p.second
            },
    decreases n,
{
    if n > 0 {
        lemma_parts_upto(d, n - 1);
        let prev = parts_upto(d, n - 1);
        let cur = edge_parts(d, n - 1);
        assert forall|j: int| 0 <= j < parts_upto(d, n).len() implies {
            let p = #[trigger] parts_upto(d, n)[j];
            &&& is_split(p.shape) ==> p.rev == p.second
            &&& !is_split(p.shape) ==> !p.second
        } by {
            if j < prev.len() {
                assert(parts_upto(d, n)[j] == prev[j]);
            } else {
                assert(parts_upto(d, n)[j] == cur[j - prev.len()]);
            }
        }
    }
}

/// The walk over the edges of the prototile has one item per edge; its part
/// decomposition has one item per edge plus one per `U` or `S` edge; of the two halves of such an edge the first is not
/// reversed and the second is, and an edge that is not split is never a
/// second half.
pub proof fn lemma_parts_count(tiling: &IsohedralTiling)
    requires
        tiling.wf(),
    ensures
        ({
            let d = tiling.spec_data();
            let ps = parts_upto(d, d.num_vertices as int);
            &&& edges_upto(d, d.num_vertices as int).len() == d.num_vertices
            &&& ps.len() == d.num_vertices + num_split_upto(d, d.num_vertices as int)
            &&& forall|j: int|
                0 <= j < ps.len() ==> {
                    let p = #[trigger] ps[j];
                    &&& is_split(p.shape) ==> p.rev == p.second
                    &&& !is_split(p.shape) ==> !p.second
                }
        }),
{
    lemma_parts_upto(tiling.spec_data(), tiling.spec_data().num_vertices as int);
}

/// The colouring repeats with its period along both translation vectors.
pub proof fn lemma_colour_periodic(tiling: &IsohedralTiling, t1: int, t2: int, aspect: int)
    requires
        tiling.wf(),
        0 <= aspect < tiling.spec_data().num_aspects,
    ensures
        ({
            let c = tiling.spec_data().colouring@;
            let p = c[COLOURING_PERIOD as int] as int;
            &&& colour_of(c, t1 + p, t2, aspect) == colour_of(c, t1, t2, aspect)
            &&& colour_of(c, t1, t2 + p, aspect) == colour_of(c, t1, t2, aspect)
        }),
{
    let c = tiling.spec_data().colouring@;
    let p = c[COLOURING_PERIOD as int] as int;
    vstd::arithmetic::div_mod::lemma_mod_add_multiples_vanish(t1, p);
    vstd::arithmetic::div_mod::lemma_mod_add_multiples_vanish(t2, p);
}

} // verus!
