use vstd::prelude::*;

verus! {

/// One corner of the unit quad: its position in tile-local pixels (y grows
/// downward) and its texture coordinate. Texture coordinates are 0 or 1 on each
/// axis; `v` counts from the first uploaded row, which is the bottom of the texture.
#[derive(Clone, Copy, Debug, PartialEq, Eq, Structural)]
pub struct Vertex {
    pub x: u32,
    pub y: u32,
    pub u: u32,
    pub v: u32,
}

impl Vertex {
    pub fn new(x_pos: u32, y_pos: u32, tex_pos_x: u32, tex_pos_y: u32) -> (r: Self)
        ensures
            r == (Vertex { x: x_pos, y: y_pos, u: tex_pos_x, v: tex_pos_y }),
    {
        Vertex { x: x_pos, y: y_pos, u: tex_pos_x, v: tex_pos_y }
    }
}

/// The texture coordinate that the vertex stage gives to the vertex with this
/// index: it goes by the index modulo 4 alone.
pub open spec fn uv_of_index(id: nat) -> (u32, u32) {
    if id % 4 == 0 {
        (0, 1)
    } else if id % 4 == 1 {
        (1, 1)
    } else if id % 4 == 2 {
        (0, 0)
    } else {
        (1, 0)
    }
}

/// The unit quad of side `s`: top-left, top-right, bottom-left, bottom-right.
pub open spec fn unit_quad_spec(s: u32) -> Seq<Vertex> {
    seq![
        Vertex { x: 0, y: 0, u: uv_of_index(0).0, v: uv_of_index(0).1 },
        Vertex { x: s, y: 0, u: uv_of_index(1).0, v: uv_of_index(1).1 },
        Vertex { x: 0, y: s, u: uv_of_index(2).0, v: uv_of_index(2).1 },
        Vertex { x: s, y: s, u: uv_of_index(3).0, v: uv_of_index(3).1 },
    ]
}

/// The two triangles of the quad, as indices into its vertices.
pub open spec fn quad_indices_spec() -> Seq<u16> {
    seq![0, 1, 2, 1, 3, 2]
}

/// Twice the signed area of the triangle `a b c`; its sign is the winding.
pub open spec fn winding(a: Vertex, b: Vertex, c: Vertex) -> int {
    (b.x - a.x) * (c.y - a.y) - (b.y - a.y) * (c.x - a.x)
}

/// The winding of the `t`-th triangle of the quad of side `s`.
pub open spec fn triangle_winding(s: u32, t: int) -> int {
    let q = unit_quad_spec(s);
    let idx = quad_indices_spec();
    winding(q[idx[3 * t] as int], q[idx[3 * t + 1] as int], q[idx[3 * t + 2] as int])
}

/// The texture coordinate the vertex stage assigns to vertex number `id`.
pub fn uv_for_vertex(id: u32) -> (r: (u32, u32))
    ensures
        r == uv_of_index(id as nat),
{
    let k = id % 4;
    if k == 0 {
        (0, 1)
    } else if k == 1 {
        (1, 1)
    } else if k == 2 {
        (0, 0)
    } else {
        (1, 0)
    }
}

/// The shared mesh: four corners of a `tile_size` square in tile-local pixels.
pub fn unit_quad(tile_size: u32) -> (r: Vec<Vertex>)
    ensures
        r@ == unit_quad_spec(tile_size),
{
    let mut quad: Vec<Vertex> = Vec::new();
    let corners: [(u32, u32); 4] = [(0, 0), (tile_size, 0), (0, tile_size), (tile_size, tile_size)];
    let mut i: usize = 0;
    while i < 4
        invariant
            0 <= i <= 4,
            corners@ == seq![(0u32, 0u32), (tile_size, 0u32), (0u32, tile_size), (tile_size, tile_size)],
            quad@ == unit_quad_spec(tile_size).subrange(0, i as int),
        decreases 4 - i,
    {
        let (x, y) = corners[i];
        let (u, v) = uv_for_vertex(i as u32);
        quad.push(Vertex::new(x, y, u, v));
        i = i + 1;
    }
    assert(quad@ =~= unit_quad_spec(tile_size));
    quad
}

/// The index list of the quad's two triangles.
pub fn quad_indices() -> (r: Vec<u16>)
    ensures
        r@ == quad_indices_spec(),
{
    let r: Vec<u16> = vec![0, 1, 2, 1, 3, 2];
    assert(r@ =~= quad_indices_spec());
    r
}

/// The quad has four vertices and six indices; its indices name exactly its
/// four vertices; and both of its triangles wind the same way (clockwise on
/// screen, where y grows downward).
pub proof fn lemma_unit_quad_invariants(s: u32)
    requires
        s > 0,
    ensures
        unit_quad_spec(s).len() == 4,
        quad_indices_spec().len() == 6,
        quad_indices_spec().to_set() == set![0u16, 1, 2, 3],
        triangle_winding(s, 0) > 0,
        triangle_winding(s, 1) > 0,
        triangle_winding(s, 0) == triangle_winding(s, 1),
{
    let idx = quad_indices_spec();
    assert(idx.to_set() =~= set![0u16, 1, 2, 3]) by {
        assert forall|e: u16| idx.to_set().contains(e) <==> set![0u16, 1, 2, 3].contains(e) by {
            if set![0u16, 1, 2, 3].contains(e) {
                if e == 0 { assert(idx[0] == e); }
                if e == 1 { assert(idx[1] == e); }
                if e == 2 { assert(idx[2] == e); }
                if e == 3 { assert(idx[4] == e); }
            }
        }
    }
    let q = unit_quad_spec(s);
    let si = s as int;
    assert(idx[0] == 0 && idx[1] == 1 && idx[2] == 2 && idx[3] == 1 && idx[4] == 3 && idx[5] == 2);
    assert(q[0].x == 0 && q[0].y == 0 && q[1].x == s && q[1].y == 0);
    assert(q[2].x == 0 && q[2].y == s && q[3].x == s && q[3].y == s);
    assert((si - 0) * (si - 0) - (0 - 0) * (0 - 0) == si * si) by (nonlinear_arith);
    assert((si - si) * (si - 0) - (si - 0) * (0 - si) == si * si) by (nonlinear_arith);
    assert(winding(q[0], q[1], q[2]) == si * si);
    assert(winding(q[1], q[3], q[2]) == si * si);
    assert(triangle_winding(s, 0) == si * si);
    assert(triangle_winding(s, 1) == si * si);
    assert(si * si > 0) by (nonlinear_arith)
        requires
            si > 0,
    ;
}

} // verus!
