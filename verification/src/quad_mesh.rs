//! A flat square in the plane `y = 0`, centred at the origin, as two
//! triangles ready for a renderer.

use crate::scalar::Scalar;
use vstd::prelude::*;

verus! {

/// A point or a direction in space.
#[derive(Clone, Copy, Debug, PartialEq, Eq, Structural)]
pub struct Point3 {
    pub x: Scalar,
    pub y: Scalar,
    pub z: Scalar,
}

/// A texture coordinate.
#[derive(Clone, Copy, Debug, PartialEq, Eq, Structural)]
pub struct Point2 {
    pub u: Scalar,
    pub v: Scalar,
}

/// The geometry of one quad: four corners with their texture coordinates and
/// normals, index for index, and the corner indices of its triangles, three
/// for each.
#[derive(Clone, Debug, PartialEq, Eq)]
pub struct QuadGeometry {
    pub vertices: Vec<Point3>,
    pub uvs: Vec<Point2>,
    pub normals: Vec<Point3>,
    pub indices: Vec<u32>,
}

/// What a [`QuadGeometry`] holds, as sequences.
pub ghost struct QuadGeometryView {
    pub vertices: Seq<Point3>,
    pub uvs: Seq<Point2>,
    pub normals: Seq<Point3>,
    pub indices: Seq<u32>,
}

impl View for QuadGeometry {
    type V = QuadGeometryView;

    open spec fn view(&self) -> QuadGeometryView {
        QuadGeometryView {
            vertices: self.vertices@,
            uvs: self.uvs@,
            normals: self.normals@,
            indices: self.indices@,
        }
    }
}

/// The direction straight up: `(0, 1, 0)`.
pub open spec fn up() -> Point3 {
    Point3 { x: Scalar::zero_spec(), y: Scalar::one_spec(), z: Scalar::zero_spec() }
}

/// The corners of the square that reaches `half` from the origin along `x`
/// and `z`: bottom left, bottom right, top right, top left.
pub open spec fn quad_vertices(half: Scalar) -> Seq<Point3> {
    let zero = Scalar::zero_spec();
    seq![
        Point3 { x: half.neg_spec(), y: zero, z: half.neg_spec() },
        Point3 { x: half, y: zero, z: half.neg_spec() },
        Point3 { x: half, y: zero, z: half },
        Point3 { x: half.neg_spec(), y: zero, z: half },
    ]
}

/// The texture coordinates of the four corners: the unit square, in the
/// order of the corners.
pub open spec fn quad_uvs() -> Seq<Point2> {
    let zero = Scalar::zero_spec();
    let one = Scalar::one_spec();
    seq![
        Point2 { u: zero, v: zero },
        Point2 { u: one, v: zero },
        Point2 { u: one, v: one },
        Point2 { u: zero, v: one },
    ]
}

/// One upward normal for each corner.
pub open spec fn quad_normals() -> Seq<Point3> {
    seq![up(), up(), up(), up()]
}

/// The two triangles of a quad: corners 0, 1, 2 and corners 0, 2, 3.
pub open spec fn quad_indices() -> Seq<u32> {
    seq![0u32, 1u32, 2u32, 0u32, 2u32, 3u32]
}

/// The quad with sides of length `side_length`.
pub open spec fn quad_geometry(side_length: Scalar) -> QuadGeometryView {
    QuadGeometryView {
        vertices: quad_vertices(side_length.half_spec()),
        uvs: quad_uvs(),
        normals: quad_normals(),
        indices: quad_indices(),
    }
}

/// The area of the triangle `a`, `b`, `c` as seen in the plane of `x` and
/// `z`: positive where the three corners run counter-clockwise, negative
/// where they run clockwise.
pub open spec fn signed_area_xz(a: Point3, b: Point3, c: Point3) -> real {
    ((b.x.value() - a.x.value()) * (c.z.value() - a.z.value()) - (c.x.value() - a.x.value()) * (
    b.z.value() - a.z.value())) / 2real
}

/// The signed area of triangle number `t` of a geometry.
pub open spec fn triangle_area(g: QuadGeometryView, t: int) -> real {
    signed_area_xz(
        g.vertices[g.indices[3 * t] as int],
        g.vertices[g.indices[3 * t + 1] as int],
        g.vertices[g.indices[3 * t + 2] as int],
    )
}

impl QuadGeometryView {
    /// The shape that every quad has: four corners, one texture coordinate
    /// and one normal for each, and six indices that each name a corner.
    pub open spec fn well_formed(self) -> bool {
        &&& self.vertices.len() == 4
        &&& self.uvs.len() == 4
        &&& self.normals.len() == 4
        &&& self.indices.len() == 6
        &&& forall|i: int| 0 <= i < self.indices.len() ==> #[trigger] self.indices[i] < 4
    }

    /// Every corner lies in the plane `y = 0`, at distance `half` from the
    /// origin along both `x` and `z`.
    pub open spec fn centered(self, half: real) -> bool {
        forall|i: int|
            0 <= i < self.vertices.len() ==> {
                let p = #[trigger] self.vertices[i];
                &&& p.y.value() == 0real
                &&& (p.x.value() == half || p.x.value() == -half)
                &&& (p.z.value() == half || p.z.value() == -half)
            }
    }

    /// Every triangle runs counter-clockwise in the plane of `x` and `z`.
    pub open spec fn counter_clockwise(self) -> bool {
        forall|t: int|
            0 <= t && 3 * t + 2 < self.indices.len() ==> #[trigger] triangle_area(self, t) > 0real
    }
}

/// Builds the quad with sides of length `side_length`, flat in the plane
/// `y = 0` and centred at the origin.
///
/// A zero or negative length is no error: the quad is then a single point, or
/// the mirror image of the quad of the positive length.
pub fn create_quad_mesh(side_length: Scalar) -> (mesh: QuadGeometry)
    requires
        side_length.halvable(),
    ensures
        mesh@ == quad_geometry(side_length),
        mesh@.well_formed(),
        mesh@.centered(side_length.value() / 2real),
        forall|i: int| 0 <= i < 4 ==> mesh.normals@[i] == up(),
        mesh.uvs@ == quad_uvs(),
        mesh.indices@ == quad_indices(),
        side_length.value() > 0real ==> mesh@.counter_clockwise(),
{
    let half = side_length.half();
    let low = half.neg();
    let zero = Scalar::zero();
    let one = Scalar::one();

    let mut vertices: Vec<Point3> = Vec::new();
    vertices.push(Point3 { x: low, y: zero, z: low });
    vertices.push(Point3 { x: half, y: zero, z: low });
    vertices.push(Point3 { x: half, y: zero, z: half });
    vertices.push(Point3 { x: low, y: zero, z: half });

    let mut uvs: Vec<Point2> = Vec::new();
    uvs.push(Point2 { u: zero, v: zero });
    uvs.push(Point2 { u: one, v: zero });
    uvs.push(Point2 { u: one, v: one });
    uvs.push(Point2 { u: zero, v: one });

    let mut normals: Vec<Point3> = Vec::new();
    while normals.len() < vertices.len()
        invariant
            vertices.len() == 4,
            normals.len() <= 4,
            zero == Scalar::zero_spec(),
            one == Scalar::one_spec(),
            forall|i: int| 0 <= i < normals.len() ==> normals@[i] == up(),
        decreases 4 - normals.len(),
    {
        normals.push(Point3 { x: zero, y: one, z: zero });
    }

    let mut indices: Vec<u32> = Vec::new();
    indices.push(0);
    indices.push(1);
    indices.push(2);
    indices.push(0);
    indices.push(2);
    indices.push(3);

    let mesh = QuadGeometry { vertices, uvs, normals, indices };
    proof {
        assert(mesh@.vertices =~= quad_vertices(side_length.half_spec()));
        assert(mesh@.uvs =~= quad_uvs());
        assert(mesh@.normals =~= quad_normals());
        assert(mesh@.indices =~= quad_indices());
        lemma_quad_is_centered(side_length);
        if side_length.value() > 0real {
            lemma_quad_winds_counter_clockwise(side_length);
        }
    }
    mesh
}

/// The corners of the quad of `side_length` lie in the plane `y = 0`, each
/// at half the side length from the origin along `x` and along `z`.
pub proof fn lemma_quad_is_centered(side_length: Scalar)
    requires
        side_length.halvable(),
    ensures
        quad_geometry(side_length).well_formed(),
        quad_geometry(side_length).centered(side_length.value() / 2real),
{
    let half = side_length.half_spec();
    side_length.lemma_half_value();
    half.lemma_neg_value();
}

/// For a positive side length both triangles of the quad run
/// counter-clockwise in the plane of `x` and `z`: their signed areas are
/// positive.
pub proof fn lemma_quad_winds_counter_clockwise(side_length: Scalar)
    requires
        side_length.halvable(),
        side_length.value() > 0real,
    ensures
        quad_geometry(side_length).counter_clockwise(),
{
    let g = quad_geometry(side_length);
    let half = side_length.half_spec();
    let h = half.value();
    side_length.lemma_half_value();
    half.lemma_neg_value();
    assert(h > 0real);
    assert((h + h) * (h + h) > 0real) by (nonlinear_arith)
        requires
            h > 0real,
    ;
    assert((h + h) * 0real == 0real) by (nonlinear_arith);
    assert(0real * (h + h) == 0real) by (nonlinear_arith);
    assert forall|t: int| 0 <= t && 3 * t + 2 < g.indices.len() implies #[trigger] triangle_area(
        g,
        t,
    ) > 0real by {
        assert(t == 0 || t == 1);
        if t == 0 {
            assert(triangle_area(g, 0) == ((h - (-h)) * (h - (-h)) - (h - (-h)) * ((-h) - (-h)))
                / 2real);
        } else {
            assert(triangle_area(g, 1) == ((h - (-h)) * (h - (-h)) - ((-h) - (-h)) * (h - (-h)))
                / 2real);
        }
    }
}

} // verus!
