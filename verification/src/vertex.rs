//! Cube and wireframe geometry on an integer grid.
//!
//! A vertex position is held as grid coordinates: with subdivision count `n`,
//! coordinate `c` on an axis stands for the cube-space position `c/n - 1/2`,
//! so `0` and `n` are the two faces.  The geometry is exact and
//! deterministic in this form; scaling to floating point happens outside the
//! library.

use vstd::prelude::*;

verus! {

/// Bytes from one vertex to the next in the GPU vertex buffer.
pub const VERTEX_STRIDE: u32 = 24;

/// Byte offset of the position attribute inside a vertex.
pub const VERTEX_POSITION_OFFSET: u32 = 0;

/// Byte offset of the color attribute inside a vertex.
pub const VERTEX_COLOR_OFFSET: u32 = 12;

/// A vertex position as grid coordinates: each axis in `0..=n` for
/// subdivision count `n`, standing for `coordinate/n - 1/2` in cube space.
#[derive(Clone, Copy, Debug, PartialEq, Eq, Structural)]
pub struct GridVertex {
    /// Grid coordinate along the first axis.
    pub x: u32,
    /// Grid coordinate along the second axis.
    pub y: u32,
    /// Grid coordinate along the third axis.
    pub z: u32,
}

/// Shorthand for a grid vertex.
pub open spec fn gv(x: u32, y: u32, z: u32) -> GridVertex {
    GridVertex { x, y, z }
}

/// The eight cube corners on the unit grid (`n = 1`), in buffer order:
/// the four corners of the far face counterclockwise, then the near face.
pub open spec fn spec_cube_corners() -> Seq<GridVertex> {
    seq![
        gv(0, 0, 1),
        gv(1, 0, 1),
        gv(1, 1, 1),
        gv(0, 1, 1),
        gv(0, 0, 0),
        gv(1, 0, 0),
        gv(1, 1, 0),
        gv(0, 1, 0),
    ]
}

/// Builds the eight cube corners, in buffer order.
pub fn cube_corners() -> (r: Vec<GridVertex>)
    ensures
        r@ == spec_cube_corners(),
        r@.len() == 8,
{
    let mut v: Vec<GridVertex> = Vec::new();
    v.push(GridVertex { x: 0, y: 0, z: 1 });
    v.push(GridVertex { x: 1, y: 0, z: 1 });
    v.push(GridVertex { x: 1, y: 1, z: 1 });
    v.push(GridVertex { x: 0, y: 1, z: 1 });
    v.push(GridVertex { x: 0, y: 0, z: 0 });
    v.push(GridVertex { x: 1, y: 0, z: 0 });
    v.push(GridVertex { x: 1, y: 1, z: 0 });
    v.push(GridVertex { x: 0, y: 1, z: 0 });
    proof {
        assert(v@ =~= spec_cube_corners());
    }
    v
}

/// The 36 corner indices of the solid cube: 12 triangles, two per face.
pub open spec fn spec_cube_indices() -> Seq<u16> {
    seq![
        0u16, 1, 2, 2, 3, 0,
        4, 6, 5, 4, 7, 6,
        0, 7, 4, 0, 3, 7,
        1, 5, 6, 6, 2, 1,
        3, 2, 6, 6, 7, 3,
        0, 5, 1, 5, 0, 4,
    ]
}

/// Builds the cube's index list: 36 entries, each a valid corner index.
pub fn cube_indices() -> (r: Vec<u16>)
    ensures
        r@ == spec_cube_indices(),
        r@.len() == 36,
        forall|i: int| 0 <= i < r@.len() ==> r@[i] < 8,
{
    let data: [u16; 36] = [
        0, 1, 2, 2, 3, 0,
        4, 6, 5, 4, 7, 6,
        0, 7, 4, 0, 3, 7,
        1, 5, 6, 6, 2, 1,
        3, 2, 6, 6, 7, 3,
        0, 5, 1, 5, 0, 4,
    ];
    let mut v: Vec<u16> = Vec::new();
    let mut i: usize = 0;
    while i < 36
        invariant
            i <= 36,
            v@.len() == i,
            forall|j: int| 0 <= j < i ==> v@[j] == data@[j],
            forall|j: int| 0 <= j < i ==> v@[j] < 8,
            data@ =~= spec_cube_indices(),
        decreases 36 - i,
    {
        let e = data[i];
        assert(data@[i as int] < 8);
        v.push(e);
        i += 1;
    }
    proof {
        assert(v@ =~= spec_cube_indices());
    }
    v
}

/// Every solid-cube index points at one of the eight corners.
pub proof fn lemma_cube_indices_in_bounds()
    ensures
        forall|i: int| 0 <= i < spec_cube_indices().len() ==> spec_cube_indices()[i] < 8,
{
}

/// The 24 grid-line vertices added for interior step `i` of subdivision
/// count `n`: line endpoints across the faces in all three axis pairings,
/// in generation order.
pub open spec fn spec_grid_slice(n: u32, i: u32) -> Seq<GridVertex> {
    seq![
        gv(0, i, 0),
        gv(n, i, 0),
        gv(0, i, n),
        gv(n, i, n),
        gv(i, 0, 0),
        gv(i, n, 0),
        gv(i, 0, n),
        gv(i, n, n),
        gv(0, 0, i),
        gv(n, 0, i),
        gv(0, n, i),
        gv(n, n, i),
        gv(i, 0, 0),
        gv(i, 0, n),
        gv(i, n, 0),
        gv(i, n, n),
        gv(0, 0, i),
        gv(0, n, i),
        gv(n, 0, i),
        gv(n, n, i),
        gv(0, i, 0),
        gv(0, i, n),
        gv(n, i, 0),
        gv(n, i, n),
    ]
}

/// The grid-line vertices of all interior steps below `k`: the slices for
/// `i` in `1..k`, concatenated in step order.
pub open spec fn spec_grid_prefix(n: u32, k: int) -> Seq<GridVertex>
    decreases k,
{
    if k <= 1 {
        Seq::empty()
    } else {
        spec_grid_prefix(n, k - 1) + spec_grid_slice(n, (k - 1) as u32)
    }
}

/// The 24 endpoints of the twelve fixed cube edges, in generation order.
pub open spec fn spec_cube_edge_vertices(n: u32) -> Seq<GridVertex> {
    seq![
        gv(0, 0, 0),
        gv(n, 0, 0),
        gv(0, n, 0),
        gv(n, n, 0),
        gv(0, 0, n),
        gv(n, 0, n),
        gv(0, n, n),
        gv(n, n, n),
        gv(0, 0, 0),
        gv(0, n, 0),
        gv(n, 0, 0),
        gv(n, n, 0),
        gv(0, 0, n),
        gv(0, n, n),
        gv(n, 0, n),
        gv(n, n, n),
        gv(0, 0, 0),
        gv(0, 0, n),
        gv(n, 0, 0),
        gv(n, 0, n),
        gv(0, n, 0),
        gv(0, n, n),
        gv(n, n, 0),
        gv(n, n, n),
    ]
}

/// The whole wireframe vertex list for subdivision count `n`: the interior
/// grid lines, then the twelve cube edges.
pub open spec fn spec_wireframe_vertices(n: u32) -> Seq<GridVertex> {
    spec_grid_prefix(n, n as int) + spec_cube_edge_vertices(n)
}

/// The grid prefix for bound `k` holds `24 * (k - 1)` vertices.
pub proof fn lemma_grid_prefix_len(n: u32, k: int)
    requires
        1 <= k,
    ensures
        spec_grid_prefix(n, k).len() == 24 * (k - 1),
    decreases k,
{
    if k > 1 {
        lemma_grid_prefix_len(n, k - 1);
    }
}

/// The wireframe generator's count law: for subdivision count `n` there are
/// exactly `24 * (n - 1) + 24` vertices — 24 grid-line endpoints per
/// interior step across the three axis pairings, plus the twelve cube
/// edges' two endpoints each.
pub proof fn lemma_wireframe_vertex_count(n: u32)
    requires
        n >= 1,
    ensures
        spec_wireframe_vertices(n).len() == 24 * (n - 1) + 24,
{
    lemma_grid_prefix_len(n, n as int);
}

/// The generator is restartable and deterministic: its contract pins every
/// run on subdivision count `n` to the one sequence
/// `spec_wireframe_vertices(n)`, so any two runs agree element for element.
pub proof fn lemma_wireframe_deterministic(
    first: Seq<GridVertex>,
    second: Seq<GridVertex>,
    n: u32,
)
    requires
        first == spec_wireframe_vertices(n),
        second == spec_wireframe_vertices(n),
    ensures
        first == second,
{
}

/// Vertex `v` lies on the grid of subdivision count `n`.
pub open spec fn spec_on_grid(v: GridVertex, n: u32) -> bool {
    v.x <= n && v.y <= n && v.z <= n
}

proof fn lemma_slice_on_grid(n: u32, i: u32)
    requires
        1 <= i < n,
    ensures
        forall|j: int|
            0 <= j < spec_grid_slice(n, i).len() ==> spec_on_grid(
                #[trigger] spec_grid_slice(n, i)[j],
                n,
            ),
{
}

proof fn lemma_prefix_on_grid(n: u32, k: int)
    requires
        1 <= k <= n,
    ensures
        forall|j: int|
            0 <= j < spec_grid_prefix(n, k).len() ==> spec_on_grid(
                #[trigger] spec_grid_prefix(n, k)[j],
                n,
            ),
    decreases k,
{
    if k > 1 {
        lemma_prefix_on_grid(n, k - 1);
        lemma_slice_on_grid(n, (k - 1) as u32);
        assert forall|j: int| 0 <= j < spec_grid_prefix(n, k).len() implies spec_on_grid(
            #[trigger] spec_grid_prefix(n, k)[j],
            n,
        ) by {
            if j < spec_grid_prefix(n, k - 1).len() {
                assert(spec_grid_prefix(n, k)[j] == spec_grid_prefix(n, k - 1)[j]);
            } else {
                let off = j - spec_grid_prefix(n, k - 1).len();
                assert(spec_grid_prefix(n, k)[j] == spec_grid_slice(n, (k - 1) as u32)[off]);
            }
        }
    }
}

/// Every wireframe vertex lies on the grid: each coordinate is at most the
/// subdivision count, so scaling by it lands every position on the unit
/// cube centered at the origin.
pub proof fn lemma_wireframe_on_grid(n: u32)
    requires
        n >= 1,
    ensures
        forall|j: int|
            0 <= j < spec_wireframe_vertices(n).len() ==> spec_on_grid(
                #[trigger] spec_wireframe_vertices(n)[j],
                n,
            ),
{
    lemma_prefix_on_grid(n, n as int);
    assert forall|j: int| 0 <= j < spec_wireframe_vertices(n).len() implies spec_on_grid(
        #[trigger] spec_wireframe_vertices(n)[j],
        n,
    ) by {
        let prefix = spec_grid_prefix(n, n as int);
        if j < prefix.len() {
            assert(spec_wireframe_vertices(n)[j] == prefix[j]);
        } else {
            let off = j - prefix.len();
            assert(spec_wireframe_vertices(n)[j] == spec_cube_edge_vertices(n)[off]);
        }
    }
}

/// Generates the wireframe vertex list for `divisions` subdivisions: for
/// each interior step, grid-line endpoints on every face in all three axis
/// pairings; then the twelve fixed cube edges.  The result is pinned to one
/// sequence, so the generator is deterministic: the same count always
/// yields the same vertices.
pub fn generate_wireframe_vertices(divisions: u32) -> (r: Vec<GridVertex>)
    requires
        divisions >= 1,
    ensures
        r@ == spec_wireframe_vertices(divisions),
        r@.len() == 24 * (divisions - 1) + 24,
{
    let n = divisions;
    let mut vertices: Vec<GridVertex> = Vec::new();
    let mut i: u32 = 1;
    while i < n
        invariant
            1 <= i <= n,
            vertices@ == spec_grid_prefix(n, i as int),
        decreases n - i,
    {
        vertices.push(GridVertex { x: 0, y: i, z: 0 });
        vertices.push(GridVertex { x: n, y: i, z: 0 });
        vertices.push(GridVertex { x: 0, y: i, z: n });
        vertices.push(GridVertex { x: n, y: i, z: n });
        vertices.push(GridVertex { x: i, y: 0, z: 0 });
        vertices.push(GridVertex { x: i, y: n, z: 0 });
        vertices.push(GridVertex { x: i, y: 0, z: n });
        vertices.push(GridVertex { x: i, y: n, z: n });

        vertices.push(GridVertex { x: 0, y: 0, z: i });
        vertices.push(GridVertex { x: n, y: 0, z: i });
        vertices.push(GridVertex { x: 0, y: n, z: i });
        vertices.push(GridVertex { x: n, y: n, z: i });
        vertices.push(GridVertex { x: i, y: 0, z: 0 });
        vertices.push(GridVertex { x: i, y: 0, z: n });
        vertices.push(GridVertex { x: i, y: n, z: 0 });
        vertices.push(GridVertex { x: i, y: n, z: n });

        vertices.push(GridVertex { x: 0, y: 0, z: i });
        vertices.push(GridVertex { x: 0, y: n, z: i });
        vertices.push(GridVertex { x: n, y: 0, z: i });
        vertices.push(GridVertex { x: n, y: n, z: i });
        vertices.push(GridVertex { x: 0, y: i, z: 0 });
        vertices.push(GridVertex { x: 0, y: i, z: n });
        vertices.push(GridVertex { x: n, y: i, z: 0 });
        vertices.push(GridVertex { x: n, y: i, z: n });

        proof {
            assert(vertices@ =~= spec_grid_prefix(n, i as int) + spec_grid_slice(n, i));
            assert(vertices@ =~= spec_grid_prefix(n, i as int + 1));
        }
        i += 1;
    }

    vertices.push(GridVertex { x: 0, y: 0, z: 0 });
    vertices.push(GridVertex { x: n, y: 0, z: 0 });
    vertices.push(GridVertex { x: 0, y: n, z: 0 });
    vertices.push(GridVertex { x: n, y: n, z: 0 });
    vertices.push(GridVertex { x: 0, y: 0, z: n });
    vertices.push(GridVertex { x: n, y: 0, z: n });
    vertices.push(GridVertex { x: 0, y: n, z: n });
    vertices.push(GridVertex { x: n, y: n, z: n });
    vertices.push(GridVertex { x: 0, y: 0, z: 0 });
    vertices.push(GridVertex { x: 0, y: n, z: 0 });
    vertices.push(GridVertex { x: n, y: 0, z: 0 });
    vertices.push(GridVertex { x: n, y: n, z: 0 });
    vertices.push(GridVertex { x: 0, y: 0, z: n });
    vertices.push(GridVertex { x: 0, y: n, z: n });
    vertices.push(GridVertex { x: n, y: 0, z: n });
    vertices.push(GridVertex { x: n, y: n, z: n });
    vertices.push(GridVertex { x: 0, y: 0, z: 0 });
    vertices.push(GridVertex { x: 0, y: 0, z: n });
    vertices.push(GridVertex { x: n, y: 0, z: 0 });
    vertices.push(GridVertex { x: n, y: 0, z: n });
    vertices.push(GridVertex { x: 0, y: n, z: 0 });
    vertices.push(GridVertex { x: 0, y: n, z: n });
    vertices.push(GridVertex { x: n, y: n, z: 0 });
    vertices.push(GridVertex { x: n, y: n, z: n });

    proof {
        assert(vertices@ =~= spec_wireframe_vertices(n));
        lemma_wireframe_vertex_count(n);
    }
    vertices
}

/// How vertex data is laid out in the GPU buffer.
#[derive(Clone, Copy, Debug, PartialEq, Eq, Structural)]
pub struct VertexBindingDescription {
    /// Binding slot number.
    pub binding: u32,
    /// Bytes from one vertex to the next.
    pub stride: u32,
}

/// One vertex attribute: where shaders find it and where it sits in the
/// stride.
#[derive(Clone, Copy, Debug, PartialEq, Eq, Structural)]
pub struct VertexAttributeDescription {
    /// Binding slot number.
    pub binding: u32,
    /// Shader input location.
    pub location: u32,
    /// Byte offset inside the vertex.
    pub offset: u32,
}

/// The single vertex binding: slot zero, one position + one color per
/// vertex.
pub fn get_binding_description() -> (r: VertexBindingDescription)
    ensures
        r == (VertexBindingDescription { binding: 0u32, stride: VERTEX_STRIDE }),
{
    VertexBindingDescription { binding: 0, stride: VERTEX_STRIDE }
}

/// The two vertex attributes: position at location zero, color at location
/// one, both in binding zero.
pub fn get_attribute_descriptions() -> (r: Vec<VertexAttributeDescription>)
    ensures
        r@.len() == 2,
        r@[0] == (VertexAttributeDescription {
            binding: 0u32,
            location: 0u32,
            offset: VERTEX_POSITION_OFFSET,
        }),
        r@[1] == (VertexAttributeDescription {
            binding: 0u32,
            location: 1u32,
            offset: VERTEX_COLOR_OFFSET,
        }),
{
    let mut v: Vec<VertexAttributeDescription> = Vec::new();
    v.push(VertexAttributeDescription { binding: 0, location: 0, offset: VERTEX_POSITION_OFFSET });
    v.push(VertexAttributeDescription { binding: 0, location: 1, offset: VERTEX_COLOR_OFFSET });
    v
}

} // verus!
