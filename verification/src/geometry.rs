use vstd::prelude::*;

verus! {

/// A vertex position of the unit quad, in half units: `(x, y)` stands for the
/// point `(x / 2, y / 2)` of the quad's own coordinate space.
#[derive(Clone, Copy, Debug, PartialEq, Eq, Structural)]
pub struct QuadCorner {
    pub x: i8,
    pub y: i8,
}

/// The four corners of the unit square centered at the origin, counter-clockwise
/// from the bottom-left: (-1/2, -1/2), (1/2, -1/2), (1/2, 1/2), (-1/2, 1/2).
pub open spec fn quad_corners() -> Seq<QuadCorner> {
    seq![
        QuadCorner { x: -1i8, y: -1i8 },
        QuadCorner { x: 1i8, y: -1i8 },
        QuadCorner { x: 1i8, y: 1i8 },
        QuadCorner { x: -1i8, y: 1i8 },
    ]
}

/// The index list of the quad: two triangles sharing the diagonal 0-2.
pub open spec fn quad_index_list() -> Seq<u16> {
    seq![0u16, 1, 2, 2, 3, 0]
}

/// Twice the signed area of triangle `a b c`; positive when the corners run
/// counter-clockwise.
pub open spec fn twice_signed_area(a: QuadCorner, b: QuadCorner, c: QuadCorner) -> int {
    (b.x - a.x) * (c.y - a.y) - (b.y - a.y) * (c.x - a.x)
}

/// Triangle `t` of a mesh given by its corners and index list.
pub open spec fn triangle_area2(corners: Seq<QuadCorner>, indices: Seq<u16>, t: int) -> int {
    twice_signed_area(
        corners[indices[3 * t] as int],
        corners[indices[3 * t + 1] as int],
        corners[indices[3 * t + 2] as int],
    )
}

/// The mesh every widget is drawn with: the corners of the unit square
/// centered at the origin (in half units) and the index list of its two
/// triangles.
pub fn quad_vertices() -> (mesh: (Vec<QuadCorner>, Vec<u16>))
    ensures
        mesh.0@ == quad_corners(),
        mesh.1@ == quad_index_list(),
{
    let v = vec![
        QuadCorner { x: -1, y: -1 },
        QuadCorner { x: 1, y: -1 },
        QuadCorner { x: 1, y: 1 },
        QuadCorner { x: -1, y: 1 },
    ];
    let i: Vec<u16> = vec![0, 1, 2, 2, 3, 0];
    (v, i)
}

/// Every index of the quad's index list names one of its four corners.
pub proof fn lemma_quad_indices_in_range()
    ensures
        quad_index_list().len() % 3 == 0,
        forall|k: int| 0 <= k < quad_index_list().len() ==> #[trigger] quad_index_list()[k] < quad_corners().len(),
{
}

/// Both triangles of the quad wind counter-clockwise, so with a
/// counter-clockwise front face and back-face culling neither is culled.
pub proof fn lemma_quad_front_facing()
    ensures
        forall|t: int| 0 <= t < 2 ==> #[trigger] triangle_area2(quad_corners(), quad_index_list(), t) > 0,
{
    lemma_quad_triangle_areas();
}

proof fn lemma_area2_of(a: QuadCorner, b: QuadCorner, c: QuadCorner)
    ensures
        twice_signed_area(a, b, c) == (b.x - a.x) * (c.y - a.y) - (b.y - a.y) * (c.x - a.x),
        a == (QuadCorner { x: -1i8, y: -1i8 }) && b == (QuadCorner { x: 1i8, y: -1i8 })
            && c == (QuadCorner { x: 1i8, y: 1i8 }) ==> twice_signed_area(a, b, c) == 4,
        a == (QuadCorner { x: 1i8, y: 1i8 }) && b == (QuadCorner { x: -1i8, y: 1i8 })
            && c == (QuadCorner { x: -1i8, y: -1i8 }) ==> twice_signed_area(a, b, c) == 4,
{
    let (ax, ay, bx, by, cx, cy) = (a.x as int, a.y as int, b.x as int, b.y as int, c.x as int, c.y as int);
    if ax == -1 && ay == -1 && bx == 1 && by == -1 && cx == 1 && cy == 1 {
        assert((bx - ax) * (cy - ay) - (by - ay) * (cx - ax) == 4) by (nonlinear_arith)
            requires ax == -1 && ay == -1 && bx == 1 && by == -1 && cx == 1 && cy == 1;
    }
    if ax == 1 && ay == 1 && bx == -1 && by == 1 && cx == -1 && cy == -1 {
        assert((bx - ax) * (cy - ay) - (by - ay) * (cx - ax) == 4) by (nonlinear_arith)
            requires ax == 1 && ay == 1 && bx == -1 && by == 1 && cx == -1 && cy == -1;
    }
}

proof fn lemma_quad_triangle_areas()
    ensures
        triangle_area2(quad_corners(), quad_index_list(), 0) == 4,
        triangle_area2(quad_corners(), quad_index_list(), 1) == 4,
{
    let c = quad_corners();
    let ix = quad_index_list();
    assert(ix[0] == 0 && ix[1] == 1 && ix[2] == 2 && ix[3] == 2 && ix[4] == 3 && ix[5] == 0);
    assert(c[0] == QuadCorner { x: -1i8, y: -1i8 });
    assert(c[1] == QuadCorner { x: 1i8, y: -1i8 });
    assert(c[2] == QuadCorner { x: 1i8, y: 1i8 });
    assert(c[3] == QuadCorner { x: -1i8, y: 1i8 });
    lemma_area2_of(c[0], c[1], c[2]);
    lemma_area2_of(c[2], c[3], c[0]);
}

/// The two triangles together cover exactly the unit square: their areas
/// add up to the square's area (1, that is 4 in half units squared, twice of
/// which is 8), and the square is centered on the origin with side 1.
pub proof fn lemma_quad_covers_unit_square()
    ensures
        triangle_area2(quad_corners(), quad_index_list(), 0)
            + triangle_area2(quad_corners(), quad_index_list(), 1) == 8,
        quad_corners()[0].x + quad_corners()[1].x + quad_corners()[2].x + quad_corners()[3].x == 0,
        quad_corners()[0].y + quad_corners()[1].y + quad_corners()[2].y + quad_corners()[3].y == 0,
        quad_corners()[1].x - quad_corners()[0].x == 2,
        quad_corners()[2].y - quad_corners()[1].y == 2,
{
    lemma_quad_triangle_areas();
}

} // verus!
