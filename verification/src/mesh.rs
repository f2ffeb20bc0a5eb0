use vstd::prelude::*;
use vstd::assert_seqs_equal;

verus! {

/// A mesh vertex, stored over exact integers: positions in half-units
/// (a coordinate of 1 stands for one half of a model unit), normals and
/// texture coordinates in whole units. The shell halves the positions
/// when it lays the data out in the GPU's floating-point vertex format.
#[derive(Clone, Copy, Debug, PartialEq, Eq, Structural)]
pub struct Vertex {
    pub px: i32,
    pub py: i32,
    pub pz: i32,
    pub nx: i32,
    pub ny: i32,
    pub nz: i32,
    pub tu: i32,
    pub tv: i32,
}

/// The 24 vertices of the unit cube, four per face, in the order the
/// renderer uploads them: front, back, top, bottom, right, left.
pub open spec fn cube_vertices() -> Seq<Vertex> {
    seq![
        // Front face (+z)
        Vertex { px: -1i32, py: -1i32, pz: 1, nx: 0, ny: 0, nz: 1, tu: 0, tv: 0 },
        Vertex { px: 1, py: -1i32, pz: 1, nx: 0, ny: 0, nz: 1, tu: 1, tv: 0 },
        Vertex { px: 1, py: 1, pz: 1, nx: 0, ny: 0, nz: 1, tu: 1, tv: 1 },
        Vertex { px: -1i32, py: 1, pz: 1, nx: 0, ny: 0, nz: 1, tu: 0, tv: 1 },
        // Back face (-z)
        Vertex { px: -1i32, py: -1i32, pz: -1i32, nx: 0, ny: 0, nz: -1i32, tu: 1, tv: 0 },
        Vertex { px: -1i32, py: 1, pz: -1i32, nx: 0, ny: 0, nz: -1i32, tu: 1, tv: 1 },
        Vertex { px: 1, py: 1, pz: -1i32, nx: 0, ny: 0, nz: -1i32, tu: 0, tv: 1 },
        Vertex { px: 1, py: -1i32, pz: -1i32, nx: 0, ny: 0, nz: -1i32, tu: 0, tv: 0 },
        // Top face (+y)
        Vertex { px: -1i32, py: 1, pz: -1i32, nx: 0, ny: 1, nz: 0, tu: 0, tv: 1 },
        Vertex { px: -1i32, py: 1, pz: 1, nx: 0, ny: 1, nz: 0, tu: 0, tv: 0 },
        Vertex { px: 1, py: 1, pz: 1, nx: 0, ny: 1, nz: 0, tu: 1, tv: 0 },
        Vertex { px: 1, py: 1, pz: -1i32, nx: 0, ny: 1, nz: 0, tu: 1, tv: 1 },
        // Bottom face (-y)
        Vertex { px: -1i32, py: -1i32, pz: -1i32, nx: 0, ny: -1i32, nz: 0, tu: 1, tv: 1 },
        Vertex { px: 1, py: -1i32, pz: -1i32, nx: 0, ny: -1i32, nz: 0, tu: 0, tv: 1 },
        Vertex { px: 1, py: -1i32, pz: 1, nx: 0, ny: -1i32, nz: 0, tu: 0, tv: 0 },
        Vertex { px: -1i32, py: -1i32, pz: 1, nx: 0, ny: -1i32, nz: 0, tu: 1, tv: 0 },
        // Right face (+x)
        Vertex { px: 1, py: -1i32, pz: -1i32, nx: 1, ny: 0, nz: 0, tu: 1, tv: 0 },
        Vertex { px: 1, py: 1, pz: -1i32, nx: 1, ny: 0, nz: 0, tu: 1, tv: 1 },
        Vertex { px: 1, py: 1, pz: 1, nx: 1, ny: 0, nz: 0, tu: 0, tv: 1 },
        Vertex { px: 1, py: -1i32, pz: 1, nx: 1, ny: 0, nz: 0, tu: 0, tv: 0 },
        // Left face (-x)
        Vertex { px: -1i32, py: -1i32, pz: -1i32, nx: -1i32, ny: 0, nz: 0, tu: 0, tv: 0 },
        Vertex { px: -1i32, py: -1i32, pz: 1, nx: -1i32, ny: 0, nz: 0, tu: 1, tv: 0 },
        Vertex { px: -1i32, py: 1, pz: 1, nx: -1i32, ny: 0, nz: 0, tu: 1, tv: 1 },
        Vertex { px: -1i32, py: 1, pz: -1i32, nx: -1i32, ny: 0, nz: 0, tu: 0, tv: 1 },
    ]
}

/// The 36 indices of the cube: two counter-clockwise triangles per face.
pub open spec fn cube_indices() -> Seq<u32> {
    seq![
        0u32, 1, 2, 2, 3, 0,
        4, 5, 6, 6, 7, 4,
        8, 9, 10, 10, 11, 8,
        12, 13, 14, 14, 15, 12,
        16, 17, 18, 18, 19, 16,
        20, 21, 22, 22, 23, 20,
    ]
}

/// Builds the static cube mesh: exactly the 24 vertices of
/// `cube_vertices` and the 36 indices of `cube_indices`.
pub fn create_cube() -> (r: (Vec<Vertex>, Vec<u32>))
    ensures
        r.0@ == cube_vertices(),
        r.1@ == cube_indices(),
{
    let mut vertices: Vec<Vertex> = Vec::new();
    // Front face (+z)
    vertices.push(Vertex { px: -1, py: -1, pz: 1, nx: 0, ny: 0, nz: 1, tu: 0, tv: 0 });
    vertices.push(Vertex { px: 1, py: -1, pz: 1, nx: 0, ny: 0, nz: 1, tu: 1, tv: 0 });
    vertices.push(Vertex { px: 1, py: 1, pz: 1, nx: 0, ny: 0, nz: 1, tu: 1, tv: 1 });
    vertices.push(Vertex { px: -1, py: 1, pz: 1, nx: 0, ny: 0, nz: 1, tu: 0, tv: 1 });
    // Back face (-z)
    vertices.push(Vertex { px: -1, py: -1, pz: -1, nx: 0, ny: 0, nz: -1, tu: 1, tv: 0 });
    vertices.push(Vertex { px: -1, py: 1, pz: -1, nx: 0, ny: 0, nz: -1, tu: 1, tv: 1 });
    vertices.push(Vertex { px: 1, py: 1, pz: -1, nx: 0, ny: 0, nz: -1, tu: 0, tv: 1 });
    vertices.push(Vertex { px: 1, py: -1, pz: -1, nx: 0, ny: 0, nz: -1, tu: 0, tv: 0 });
    // Top face (+y)
    vertices.push(Vertex { px: -1, py: 1, pz: -1, nx: 0, ny: 1, nz: 0, tu: 0, tv: 1 });
    vertices.push(Vertex { px: -1, py: 1, pz: 1, nx: 0, ny: 1, nz: 0, tu: 0, tv: 0 });
    vertices.push(Vertex { px: 1, py: 1, pz: 1, nx: 0, ny: 1, nz: 0, tu: 1, tv: 0 });
    vertices.push(Vertex { px: 1, py: 1, pz: -1, nx: 0, ny: 1, nz: 0, tu: 1, tv: 1 });
    // Bottom face (-y)
    vertices.push(Vertex { px: -1, py: -1, pz: -1, nx: 0, ny: -1, nz: 0, tu: 1, tv: 1 });
    vertices.push(Vertex { px: 1, py: -1, pz: -1, nx: 0, ny: -1, nz: 0, tu: 0, tv: 1 });
    vertices.push(Vertex { px: 1, py: -1, pz: 1, nx: 0, ny: -1, nz: 0, tu: 0, tv: 0 });
    vertices.push(Vertex { px: -1, py: -1, pz: 1, nx: 0, ny: -1, nz: 0, tu: 1, tv: 0 });
    // Right face (+x)
    vertices.push(Vertex { px: 1, py: -1, pz: -1, nx: 1, ny: 0, nz: 0, tu: 1, tv: 0 });
    vertices.push(Vertex { px: 1, py: 1, pz: -1, nx: 1, ny: 0, nz: 0, tu: 1, tv: 1 });
    vertices.push(Vertex { px: 1, py: 1, pz: 1, nx: 1, ny: 0, nz: 0, tu: 0, tv: 1 });
    vertices.push(Vertex { px: 1, py: -1, pz: 1, nx: 1, ny: 0, nz: 0, tu: 0, tv: 0 });
    // Left face (-x)
    vertices.push(Vertex { px: -1, py: -1, pz: -1, nx: -1, ny: 0, nz: 0, tu: 0, tv: 0 });
    vertices.push(Vertex { px: -1, py: -1, pz: 1, nx: -1, ny: 0, nz: 0, tu: 1, tv: 0 });
    vertices.push(Vertex { px: -1, py: 1, pz: 1, nx: -1, ny: 0, nz: 0, tu: 1, tv: 1 });
    vertices.push(Vertex { px: -1, py: 1, pz: -1, nx: -1, ny: 0, nz: 0, tu: 0, tv: 1 });

    let mut indices: Vec<u32> = Vec::new();
    let mut f: u32 = 0;
    while f < 6
        invariant
            0 <= f <= 6,
            indices@.len() == 6 * f,
            forall|j: int| 0 <= j < indices@.len() ==> indices@[j] == cube_indices()[j],
        decreases 6 - f,
    {
        let base = 4 * f;
        indices.push(base);
        indices.push(base + 1);
        indices.push(base + 2);
        indices.push(base + 2);
        indices.push(base + 3);
        indices.push(base);
        f += 1;
    }

    proof {
        assert_seqs_equal!(vertices@, cube_vertices());
        assert_seqs_equal!(indices@, cube_indices());
    }
    (vertices, indices)
}

} // verus!
