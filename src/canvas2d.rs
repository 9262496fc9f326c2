//! A batch of 2D shapes as an indexed triangle list: vertices of any payload
//! type `V` and `u16` indices into them, three per triangle.

use vstd::prelude::*;

verus! {

/// The most vertices a batch can index with `u16`.
pub const MAX_INDEXED_VERTICES: usize = 65536;

/// The two triangles of a quad whose four corners start at vertex `base`.
pub open spec fn quad_indices(base: int) -> Seq<u16> {
    seq![
        base as u16,
        (base + 1) as u16,
        (base + 2) as u16,
        base as u16,
        (base + 2) as u16,
        (base + 3) as u16,
    ]
}

/// Index `k` of a fan round a centre at `base` with `segments` rim vertices
/// after it: triangle `k / 3` is the centre, rim vertex `i` and rim vertex `i + 1`,
/// the last one closing back to the first.
pub open spec fn fan_index(base: int, segments: int, k: int) -> u16 {
    let i = k / 3;
    if k % 3 == 0 {
        base as u16
    } else if k % 3 == 1 {
        (base + 1 + i) as u16
    } else {
        (base + 1 + (i + 1) % segments) as u16
    }
}

pub open spec fn fan_indices(base: int, segments: int) -> Seq<u16> {
    Seq::new((3 * segments) as nat, |k: int| fan_index(base, segments, k))
}

/// Shapes collected for one upload.
pub struct Canvas2D<V> {
    vertices: Vec<V>,
    indices: Vec<u16>,
}

impl<V: Copy> Canvas2D<V> {
    pub closed spec fn vertex_seq(&self) -> Seq<V> {
        self.vertices@
    }

    pub closed spec fn index_seq(&self) -> Seq<u16> {
        self.indices@
    }

    /// Every index names a vertex of the batch, and there are whole triangles.
    pub open spec fn wf(&self) -> bool {
        &&& self.vertex_seq().len() <= MAX_INDEXED_VERTICES
        &&& self.index_seq().len() % 3 == 0
        &&& forall|k: int|
            0 <= k < self.index_seq().len() ==> #[trigger] self.index_seq()[k]
                < self.vertex_seq().len()
    }

    pub fn new() -> (r: Self)
        ensures
            r.wf(),
            r.vertex_seq() == Seq::<V>::empty(),
            r.index_seq() == Seq::<u16>::empty(),
    {
        Canvas2D { vertices: Vec::new(), indices: Vec::new() }
    }

    /// Number of vertices in the batch.
    pub fn vertex_count(&self) -> (r: usize)
        ensures
            r == self.vertex_seq().len(),
    {
        self.vertices.len()
    }

    /// Number of indices to draw.
    pub fn index_count(&self) -> (r: usize)
        ensures
            r == self.index_seq().len(),
    {
        self.indices.len()
    }

    pub fn vertices(&self) -> (r: &Vec<V>)
        ensures
            r@ == self.vertex_seq(),
    {
        &self.vertices
    }

    pub fn indices(&self) -> (r: &Vec<u16>)
        ensures
            r@ == self.index_seq(),
    {
        &self.indices
    }

    fn add_vertex(&mut self, v: V)
        requires
            old(self).vertex_seq().len() < MAX_INDEXED_VERTICES,
        ensures
            final(self).vertex_seq() == old(self).vertex_seq().push(v),
            final(self).index_seq() == old(self).index_seq(),
    {
        self.vertices.push(v);
    }

    /// Adds a quad with corners in drawing order (top left, top right, bottom
    /// right, bottom left) as two triangles sharing the first and third corner.
    /// A thick line is the quad round its centre line.
    pub fn fill_rect(&mut self, top_left: V, top_right: V, bottom_right: V, bottom_left: V)
        requires
            old(self).wf(),
            old(self).vertex_seq().len() + 4 <= MAX_INDEXED_VERTICES,
        ensures
            final(self).wf(),
            final(self).vertex_seq() == old(self).vertex_seq() + seq![
                top_left,
                top_right,
                bottom_right,
                bottom_left,
            ],
            final(self).index_seq() == old(self).index_seq() + quad_indices(
                old(self).vertex_seq().len() as int,
            ),
    {
        let base_vertex = self.vertices.len() as u16;
        self.add_vertex(top_left);
        self.add_vertex(top_right);
        self.add_vertex(bottom_right);
        self.add_vertex(bottom_left);
        self.indices.push(base_vertex);
        self.indices.push(base_vertex + 1);
        self.indices.push(base_vertex + 2);
        self.indices.push(base_vertex);
        self.indices.push(base_vertex + 2);
        self.indices.push(base_vertex + 3);
        assert(self.vertex_seq() =~= old(self).vertex_seq() + seq![
            top_left,
            top_right,
            bottom_right,
            bottom_left,
        ]);
        assert(self.index_seq() =~= old(self).index_seq() + quad_indices(
            old(self).vertex_seq().len() as int,
        ));
    }

    /// Adds a filled disc: the centre, then the rim vertices in order, joined
    /// as a fan of one triangle per rim vertex.
    pub fn fill_circle(&mut self, center: V, rim: &Vec<V>)
        requires
            old(self).wf(),
            old(self).vertex_seq().len() + 1 + rim@.len() <= MAX_INDEXED_VERTICES,
        ensures
            final(self).wf(),
            final(self).vertex_seq() == old(self).vertex_seq().push(center) + rim@,
            final(self).index_seq() == old(self).index_seq() + fan_indices(
                old(self).vertex_seq().len() as int,
                rim@.len() as int,
            ),
    {
        let ghost old_indices = self.index_seq();
        let ghost base = self.vertex_seq().len() as int;
        let base_vertex = self.vertices.len() as u16;
        let segments = rim.len();
        self.add_vertex(center);
        for i in 0..segments
            invariant
                segments == rim@.len(),
                base == base_vertex,
                base + 1 + segments <= MAX_INDEXED_VERTICES,
                base == old(self).vertex_seq().len(),
                self.vertex_seq() == old(self).vertex_seq().push(center) + rim@.subrange(0, i as int),
                self.index_seq() == old_indices,
        {
            self.add_vertex(rim[i]);
            assert(rim@.subrange(0, i + 1) =~= rim@.subrange(0, i as int).push(rim@[i as int]));
        }
        assert(rim@.subrange(0, segments as int) =~= rim@);
        let ghost start = self.index_seq();
        for i in 0..segments
            invariant
                segments == rim@.len(),
                base == base_vertex,
                base + 1 + segments <= MAX_INDEXED_VERTICES,
                start == old_indices,
                self.vertex_seq() == old(self).vertex_seq().push(center) + rim@,
                self.index_seq() == start + fan_indices(base, segments as int).subrange(
                    0,
                    3 * i,
                ),
        {
            let next = ((i + 1) % segments) as u16;
            let ghost before = self.index_seq();
            self.indices.push(base_vertex);
            self.indices.push(base_vertex + 1 + i as u16);
            self.indices.push(base_vertex + 1 + next);
            proof {
                let f = fan_indices(base, segments as int);
                assert((3 * i) / 3 == i && (3 * i) % 3 == 0);
                assert((3 * i + 1) / 3 == i && (3 * i + 1) % 3 == 1);
                assert((3 * i + 2) / 3 == i && (3 * i + 2) % 3 == 2);
                assert(f.subrange(0, 3 * i + 3) =~= f.subrange(0, 3 * i).push(f[3 * i]).push(
                    f[3 * i + 1],
                ).push(f[3 * i + 2]));
            }
        }
        assert(fan_indices(base, segments as int).subrange(0, 3 * segments) =~= fan_indices(
            base,
            segments as int,
        ));
        assert forall|k: int| 0 <= k < self.index_seq().len() implies #[trigger] self.index_seq()[k]
            < self.vertex_seq().len() by {
            if k >= old_indices.len() {
                let j = k - old_indices.len();
                assert(self.index_seq()[k] == fan_index(base, segments as int, j));
            }
        }
    }

    /// Empties the batch.
    pub fn clear(&mut self)
        ensures
            final(self).wf(),
            final(self).vertex_seq() == Seq::<V>::empty(),
            final(self).index_seq() == Seq::<u16>::empty(),
    {
        self.vertices.clear();
        self.indices.clear();
    }
}

} // verus!
