//! The framebuffer as a triangle mesh: one unit square per pixel that is
//! on, in integer screen coordinates.

use vstd::prelude::*;
use crate::machine::{ScreenPixels, PIXEL_AMOUNT, SCREEN_WIDTH};

verus! {

/// The cells whose pixel is on (equal to 1), in row-major order.
pub open spec fn lit_cells(pixels: Seq<u8>) -> Seq<int>
    decreases pixels.len(),
{
    if pixels.len() == 0 {
        Seq::empty()
    } else {
        let before = lit_cells(pixels.drop_last());
        if pixels.last() == 1 {
            before.push(pixels.len() - 1)
        } else {
            before
        }
    }
}

/// Coordinate number `k` of the square that covers `cell`. The corners
/// come clockwise from the top left one, each as column then row:
/// `x, y, x + 1, y, x + 1, y + 1, x, y + 1`.
pub open spec fn quad_coordinate(cell: int, k: int) -> u8 {
    let x = cell % 64;
    let y = cell / 64;
    if k == 0 || k == 6 {
        x as u8
    } else if k == 2 || k == 4 {
        (x + 1) as u8
    } else if k == 1 || k == 3 {
        y as u8
    } else {
        (y + 1) as u8
    }
}

/// Vertex index number `k` of square number `quad`: the two triangles
/// `0 1 2` and `2 3 0` over the square's four corners.
pub open spec fn quad_index(quad: int, k: int) -> u32 {
    let corner: int = if k == 0 || k == 5 {
        0
    } else if k == 1 {
        1
    } else if k == 2 || k == 3 {
        2
    } else {
        3
    };
    (4 * quad + corner) as u32
}

/// The vertex coordinates of the squares over `cells`, eight per square.
pub open spec fn mesh_vertices(cells: Seq<int>) -> Seq<u8> {
    Seq::new(8 * cells.len(), |j: int| quad_coordinate(cells[j / 8], j % 8))
}

/// The vertex indices of `quads` squares, six per square.
pub open spec fn mesh_indices(quads: nat) -> Seq<u32> {
    Seq::new(6 * quads, |j: int| quad_index(j / 6, j % 6))
}

/// The listed cells are exactly those whose pixel is on, each once and in
/// ascending order.
pub proof fn lemma_lit_cells(pixels: Seq<u8>)
    ensures
        lit_cells(pixels).len() <= pixels.len(),
        forall|k: int|
            0 <= k < lit_cells(pixels).len() ==> 0 <= #[trigger] lit_cells(pixels)[k]
                < pixels.len() && pixels[lit_cells(pixels)[k]] == 1,
        forall|j: int, k: int|
            0 <= j < k < lit_cells(pixels).len() ==> #[trigger] lit_cells(pixels)[j]
                < #[trigger] lit_cells(pixels)[k],
        forall|cell: int|
            0 <= cell < pixels.len() && #[trigger] pixels[cell] == 1 ==> lit_cells(pixels).contains(
                cell,
            ),
    decreases pixels.len(),
{
    if pixels.len() > 0 {
        let before = pixels.drop_last();
        lemma_lit_cells(before);
        let cells = lit_cells(pixels);
        assert forall|cell: int| 0 <= cell < pixels.len() && #[trigger] pixels[cell] == 1 implies cells.contains(
            cell,
        ) by {
            if cell < before.len() {
                assert(before[cell] == 1);
                let k = choose|k: int| 0 <= k < lit_cells(before).len() && lit_cells(before)[k] == cell;
                assert(cells[k] == cell);
            } else {
                assert(cells[cells.len() - 1] == cell);
            }
        }
    }
}

/// A triangle mesh in integer coordinates.
pub struct QuadMesh {
    /// Column and row of each vertex, four vertices per square.
    pub vertices: Vec<u8>,
    /// Three vertex numbers per triangle, two triangles per square.
    pub indices: Vec<u32>,
}

/// Builds the mesh that covers every pixel that is on with a unit square.
pub fn quad_mesh(pixels: &ScreenPixels) -> (mesh: QuadMesh)
    ensures
        mesh.vertices@ == mesh_vertices(lit_cells(pixels@)),
        mesh.indices@ == mesh_indices(lit_cells(pixels@).len()),
{
    let mut vertices: Vec<u8> = Vec::new();
    let mut indices: Vec<u32> = Vec::new();
    let mut next_index: u32 = 0;
    let mut cell: usize = 0;
    while cell < PIXEL_AMOUNT
        invariant
            cell <= PIXEL_AMOUNT,
            lit_cells(pixels@.take(cell as int)).len() <= cell,
            next_index == 4 * lit_cells(pixels@.take(cell as int)).len(),
            vertices@ == mesh_vertices(lit_cells(pixels@.take(cell as int))),
            indices@ == mesh_indices(lit_cells(pixels@.take(cell as int)).len()),
        decreases PIXEL_AMOUNT - cell,
    {
        proof {
            assert(pixels@.take(cell + 1).drop_last() =~= pixels@.take(cell as int));
        }
        if pixels[cell] == 1 {
            let x = (cell % SCREEN_WIDTH) as u8;
            let y = (cell / SCREEN_WIDTH) as u8;
            vertices.push(x);
            vertices.push(y);
            vertices.push(x + 1);
            vertices.push(y);
            vertices.push(x + 1);
            vertices.push(y + 1);
            vertices.push(x);
            vertices.push(y + 1);
            indices.push(next_index);
            indices.push(next_index + 1);
            indices.push(next_index + 2);
            indices.push(next_index + 2);
            indices.push(next_index + 3);
            indices.push(next_index);
            next_index += 4;
        }
        cell += 1;
    }
    proof {
        assert(pixels@.take(PIXEL_AMOUNT as int) =~= pixels@);
    }
    QuadMesh { vertices, indices }
}

} // verus!
