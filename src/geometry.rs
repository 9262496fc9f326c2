//! The polygon-row mesh: one triangle fan per polygon, each padded to the
//! same number of vertices so that polygon `i` starts at vertex
//! `i * VERTICES_PER_POLYGON`.

use vstd::prelude::*;

use crate::color::{hsl_channels, hsl_to_rgb, Ratio, Rgb};

verus! {

/// The most rim divisions a polygon is drawn with.
pub const SEGMENTS: u64 = 30;

/// Sides of the first polygon of a row.
pub const MIN_POLYGON_SIDES: u64 = 3;

/// Vertices per polygon: the centre, `SEGMENTS` rim points and the closing point.
pub const VERTICES_PER_POLYGON: u64 = SEGMENTS + 2;

/// Where a vertex lies: the centre `(0, 0, 0)`, or on the rim, radius 0.12,
/// at the angle `2 * pi * step / divisions`.
#[derive(Clone, Copy, Debug, PartialEq, Eq, Structural)]
pub enum MeshPoint {
    Center,
    Rim { step: u32, divisions: u32 },
}

/// A vertex colour: RGB plus an alpha fraction.
#[derive(Clone, Copy, Debug, PartialEq, Eq, Structural)]
pub struct Rgba {
    pub rgb: Rgb,
    pub alpha: Ratio,
}

/// Four parallel per-vertex sequences, ready to be uploaded as attributes.
pub struct PolygonMesh {
    pub positions: Vec<MeshPoint>,
    pub colors: Vec<Rgba>,
    pub instance_indices: Vec<u32>,
    pub side_counts: Vec<u64>,
}

/// Side count of polygon `i`.
pub open spec fn polygon_sides(i: int) -> int {
    MIN_POLYGON_SIDES + i
}

/// Rim divisions actually drawn for a polygon of `sides` sides.
pub open spec fn drawn_sides(sides: int) -> int {
    if sides < SEGMENTS {
        sides
    } else {
        SEGMENTS as int
    }
}

/// The `k`-th rim point of a fan with `n` divisions.
pub open spec fn rim_point(n: int, k: int) -> MeshPoint {
    MeshPoint::Rim { step: (k % n) as u32, divisions: n as u32 }
}

/// Vertex `slot` of the fan of a polygon with `sides` sides: the centre, then
/// `n + 1` rim points closing the loop, then copies of the last rim point.
pub open spec fn polygon_point(sides: int, slot: int) -> MeshPoint {
    let n = drawn_sides(sides);
    if slot == 0 {
        MeshPoint::Center
    } else if slot <= n + 1 {
        rim_point(n, slot - 1)
    } else {
        rim_point(n, n)
    }
}

/// The whole fan of a polygon with `sides` sides.
pub open spec fn polygon_points(sides: int) -> Seq<MeshPoint> {
    Seq::new(VERTICES_PER_POLYGON as nat, |slot: int| polygon_point(sides, slot))
}

pub open spec fn polygon_saturation() -> Ratio {
    Ratio { num: 9, den: 10 }
}

pub open spec fn polygon_lightness() -> Ratio {
    Ratio { num: 6, den: 10 }
}

/// The colour of polygon `i` of `count`: hue `i / count` on the rainbow, opaque.
pub open spec fn is_polygon_color(c: Rgba, i: int, count: int) -> bool {
    &&& c.rgb.channels() == hsl_channels(
        Ratio { num: i as u32, den: count as u32 },
        polygon_saturation(),
        polygon_lightness(),
    )
    &&& c.alpha == (Ratio { num: 1, den: 1 })
}

/// The polygon that vertex `v` belongs to.
pub open spec fn polygon_of(v: int) -> int {
    v / VERTICES_PER_POLYGON as int
}

/// The place of vertex `v` within its polygon's fan.
pub open spec fn slot_of(v: int) -> int {
    v % VERTICES_PER_POLYGON as int
}

impl PolygonMesh {
    /// The mesh is the row of `count` polygons, vertex by vertex.
    pub open spec fn is_row(&self, count: int) -> bool {
        let n = count * VERTICES_PER_POLYGON;
        &&& self.positions@.len() == n
        &&& self.colors@.len() == n
        &&& self.instance_indices@.len() == n
        &&& self.side_counts@.len() == n
        &&& forall|v: int|
            0 <= v < n ==> #[trigger] self.positions@[v] == polygon_point(
                polygon_sides(polygon_of(v)),
                slot_of(v),
            )
        &&& forall|v: int| 0 <= v < n ==> is_polygon_color(#[trigger] self.colors@[v], polygon_of(v), count)
        &&& forall|v: int| 0 <= v < n ==> #[trigger] self.instance_indices@[v] == polygon_of(v)
        &&& forall|v: int| 0 <= v < n ==> #[trigger] self.side_counts@[v] == polygon_sides(polygon_of(v))
    }

    /// Number of vertices in the mesh.
    pub fn vertex_count(&self) -> (r: usize)
        ensures
            r == self.positions@.len(),
    {
        self.positions.len()
    }
}

proof fn lemma_vertex_place(i: int, j: int)
    requires
        0 <= i,
        0 <= j < VERTICES_PER_POLYGON,
    ensures
        polygon_of(i * VERTICES_PER_POLYGON + j) == i,
        slot_of(i * VERTICES_PER_POLYGON + j) == j,
{
    vstd::arithmetic::div_mod::lemma_fundamental_div_mod_converse(
        i * 32 + j,
        32,
        i,
        j,
    );
}

/// Appends the fan of a polygon with `sides` sides.
fn add_polygon_vertices(vertices: &mut Vec<MeshPoint>, sides: u64)
    requires
        sides >= MIN_POLYGON_SIDES,
    ensures
        final(vertices)@ == old(vertices)@ + polygon_points(sides as int),
{
    let ghost start = vertices@;
    vertices.push(MeshPoint::Center);
    let actual_sides: u64 = if sides < SEGMENTS {
        sides
    } else {
        SEGMENTS
    };
    for k in 0..actual_sides + 1
        invariant
            actual_sides == drawn_sides(sides as int),
            3 <= actual_sides <= SEGMENTS,
            vertices@.len() == start.len() + 1 + k,
            forall|j: int| 0 <= j < start.len() ==> vertices@[j] == start[j],
            forall|j: int|
                0 <= j < 1 + k ==> vertices@[start.len() + j] == polygon_point(sides as int, j),
    {
        vertices.push(MeshPoint::Rim { step: (k % actual_sides) as u32, divisions: actual_sides as u32 });
    }
    let last = vertices[vertices.len() - 1];
    assert(vertices@[start.len() + actual_sides + 1] == polygon_point(
        sides as int,
        actual_sides + 1,
    ));
    for k in actual_sides + 1..SEGMENTS + 1
        invariant
            actual_sides == drawn_sides(sides as int),
            3 <= actual_sides <= SEGMENTS,
            last == rim_point(actual_sides as int, actual_sides as int),
            vertices@.len() == start.len() + 1 + k,
            forall|j: int| 0 <= j < start.len() ==> vertices@[j] == start[j],
            forall|j: int|
                0 <= j < 1 + k ==> vertices@[start.len() + j] == polygon_point(sides as int, j),
    {
        vertices.push(last);
    }
    assert(vertices@ =~= start + polygon_points(sides as int));
}

/// Builds the row of `count` polygons: polygon `i` has `3 + i` sides, a fan of
/// `VERTICES_PER_POLYGON` vertices and the rainbow colour of hue `i / count`.
pub fn generate(count: u32) -> (mesh: PolygonMesh)
    requires
        count * VERTICES_PER_POLYGON <= usize::MAX,
    ensures
        mesh.is_row(count as int),
        mesh.positions@.len() == count * VERTICES_PER_POLYGON,
        mesh.colors@.len() == count * VERTICES_PER_POLYGON,
        mesh.instance_indices@.len() == count * VERTICES_PER_POLYGON,
        mesh.side_counts@.len() == count * VERTICES_PER_POLYGON,
        forall|i: int|
            0 <= i < count ==> #[trigger] mesh.positions@[i * VERTICES_PER_POLYGON]
                == MeshPoint::Center,
        forall|i: int|
            0 <= i < count ==> #[trigger] mesh.side_counts@[i * VERTICES_PER_POLYGON]
                == MIN_POLYGON_SIDES + i,
{
    let mut positions: Vec<MeshPoint> = Vec::new();
    let mut colors: Vec<Rgba> = Vec::new();
    let mut instance_indices: Vec<u32> = Vec::new();
    let mut side_counts: Vec<u64> = Vec::new();
    for i in 0..count
        invariant
            count * VERTICES_PER_POLYGON <= usize::MAX,
            positions@.len() == i * VERTICES_PER_POLYGON,
            colors@.len() == i * VERTICES_PER_POLYGON,
            instance_indices@.len() == i * VERTICES_PER_POLYGON,
            side_counts@.len() == i * VERTICES_PER_POLYGON,
            forall|v: int|
                0 <= v < i * VERTICES_PER_POLYGON ==> #[trigger] positions@[v] == polygon_point(
                    polygon_sides(polygon_of(v)),
                    slot_of(v),
                ),
            forall|v: int|
                0 <= v < i * VERTICES_PER_POLYGON ==> is_polygon_color(
                    #[trigger] colors@[v],
                    polygon_of(v),
                    count as int,
                ),
            forall|v: int|
                0 <= v < i * VERTICES_PER_POLYGON ==> #[trigger] instance_indices@[v] == polygon_of(
                    v,
                ),
            forall|v: int|
                0 <= v < i * VERTICES_PER_POLYGON ==> #[trigger] side_counts@[v] == polygon_sides(
                    polygon_of(v),
                ),
    {
        let sides: u64 = MIN_POLYGON_SIDES + i as u64;
        let ghost before = positions@;
        let ghost base = i * VERTICES_PER_POLYGON;
        add_polygon_vertices(&mut positions, sides);
        proof {
            vstd::arithmetic::mul::lemma_mul_is_distributive_add_other_way(
                VERTICES_PER_POLYGON as int,
                i as int,
                1,
            );
        }
        assert forall|v: int| 0 <= v < (i + 1) * VERTICES_PER_POLYGON implies #[trigger] positions@[v]
            == polygon_point(polygon_sides(polygon_of(v)), slot_of(v)) by {
            if v >= base {
                lemma_vertex_place(i as int, v - base);
            } else {
                assert(positions@[v] == before[v]);
            }
        }
        let rgb = hsl_to_rgb(
            Ratio { num: i, den: count },
            Ratio { num: 9, den: 10 },
            Ratio { num: 6, den: 10 },
        );
        let color = Rgba { rgb, alpha: Ratio { num: 1, den: 1 } };
        for j in 0..VERTICES_PER_POLYGON
            invariant
                count * VERTICES_PER_POLYGON <= usize::MAX,
                i < count,
                base == i * VERTICES_PER_POLYGON,
                sides == polygon_sides(i as int),
                is_polygon_color(color, i as int, count as int),
                colors@.len() == base + j,
                instance_indices@.len() == base + j,
                side_counts@.len() == base + j,
                forall|v: int|
                    0 <= v < base + j ==> is_polygon_color(
                        #[trigger] colors@[v],
                        polygon_of(v),
                        count as int,
                    ),
                forall|v: int| 0 <= v < base + j ==> #[trigger] instance_indices@[v] == polygon_of(v),
                forall|v: int|
                    0 <= v < base + j ==> #[trigger] side_counts@[v] == polygon_sides(polygon_of(v)),
        {
            proof {
                lemma_vertex_place(i as int, j as int);
            }
            colors.push(color);
            instance_indices.push(i);
            side_counts.push(sides);
        }
    }
    let mesh = PolygonMesh { positions, colors, instance_indices, side_counts };
    assert forall|i: int| 0 <= i < count implies #[trigger] mesh.positions@[i * VERTICES_PER_POLYGON]
        == MeshPoint::Center && mesh.side_counts@[i * VERTICES_PER_POLYGON] == MIN_POLYGON_SIDES
        + i by {
        lemma_vertex_place(i, 0);
        vstd::arithmetic::mul::lemma_mul_is_distributive_add_other_way(
            VERTICES_PER_POLYGON as int,
            i,
            1,
        );
    }
    mesh
}

} // verus!
