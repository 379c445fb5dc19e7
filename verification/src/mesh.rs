use vstd::prelude::*;
use vstd::arithmetic::div_mod::{lemma_div_is_ordered, lemma_fundamental_div_mod_converse};
use crate::TerrainError;
use crate::field::{FieldModel, HeightField};

verus! {

/// The mathematical content of one vertex position. The horizontal
/// coordinates are stored doubled, so the half-unit offsets of a grid
/// centered on the origin stay exact integers: the world-space position is
/// (x2 / 2, sample * height_scale, z2 / 2), where sample is the IEEE-754
/// double whose bit pattern is height_bits.
pub ghost struct VertexModel {
    pub x2: int,
    pub height_bits: u64,
    pub z2: int,
}

/// The mathematical content of one texture coordinate: the numerators of the
/// exact rationals (u_num / (width - 1), v_num / (height - 1)).
pub ghost struct UvModel {
    pub u_num: int,
    pub v_num: int,
}

/// The mathematical content of a terrain mesh.
#[verifier::ext_equal]
pub ghost struct MeshModel {
    pub width: int,
    pub height: int,
    pub height_scale: u32,
    pub normals_requested: bool,
    pub vertices: Seq<VertexModel>,
    pub uvs: Seq<UvModel>,
    pub indices: Seq<int>,
}

/// One vertex position in parametric form; see VertexModel for its meaning.
#[derive(Clone, Copy, Debug, PartialEq)]
pub struct Vertex {
    pub x2: i64,
    pub height_bits: u64,
    pub z2: i64,
}

impl View for Vertex {
    type V = VertexModel;

    open spec fn view(&self) -> VertexModel {
        VertexModel { x2: self.x2 as int, height_bits: self.height_bits, z2: self.z2 as int }
    }
}

/// One texture coordinate, as the numerators of the exact rationals
/// (u_num / (width - 1), v_num / (height - 1)).
#[derive(Clone, Copy, Debug, PartialEq)]
pub struct Uv {
    pub u_num: usize,
    pub v_num: usize,
}

impl View for Uv {
    type V = UvModel;

    open spec fn view(&self) -> UvModel {
        UvModel { u_num: self.u_num as int, v_num: self.v_num as int }
    }
}

/// The renderable output: vertex positions, triangle indices and texture
/// coordinates, all row-major over the grid, plus the vertical scale factor
/// as the bit pattern of an IEEE-754 single. Heights are carried unscaled in
/// each vertex; a rendering adapter realizes the float buffers by multiplying
/// each sample by the scale, and derives the smooth per-vertex normals from
/// the triangle geometry when normals_requested asks for them (normals are
/// floating-point data, so they live with the adapter).
#[derive(Clone, Debug, PartialEq)]
pub struct TerrainMesh {
    pub width: usize,
    pub height: usize,
    pub height_scale: u32,
    pub normals_requested: bool,
    pub vertices: Vec<Vertex>,
    pub indices: Vec<u32>,
    pub uvs: Vec<Uv>,
}

impl View for TerrainMesh {
    type V = MeshModel;

    open spec fn view(&self) -> MeshModel {
        MeshModel {
            width: self.width as int,
            height: self.height as int,
            height_scale: self.height_scale,
            normals_requested: self.normals_requested,
            vertices: self.vertices@.map_values(|v: Vertex| v@),
            uvs: self.uvs@.map_values(|u: Uv| u@),
            indices: self.indices@.map_values(|k: u32| k as int),
        }
    }
}

impl TerrainMesh {
    /// The three vertex indices of triangle t, in winding order: triangle t
    /// covers positions 3t, 3t + 1 and 3t + 2 of the index list.
    pub fn triangle(&self, t: usize) -> (r: (u32, u32, u32))
        requires
            3 * t + 2 < self@.indices.len(),
        ensures
            r.0 == self@.indices[3 * t],
            r.1 == self@.indices[3 * t + 1],
            r.2 == self@.indices[3 * t + 2],
    {
        let n: usize = self.indices.len();
        proof {
            assert(3 * t + 2 < n);
        }
        (self.indices[3 * t], self.indices[3 * t + 1], self.indices[3 * t + 2])
    }
}

/// The vertex that row-major position i of a width x height grid carries:
/// the grid is centered at the origin of the horizontal plane, columns grow
/// toward +x, rows grow toward -z, and the vertical value is the field's
/// sample at that cell.
pub open spec fn vertex_model(f: FieldModel, i: int) -> VertexModel {
    VertexModel {
        x2: 2 * (i % f.width) - (f.width - 1),
        height_bits: f.samples[i],
        z2: (f.height - 1) - 2 * (i / f.width),
    }
}

/// The texture coordinate of row-major vertex i: column over width - 1,
/// row over height - 1, mapping the grid onto the unit square.
pub open spec fn uv_model(width: int, i: int) -> UvModel {
    UvModel { u_num: i % width, v_num: i / width }
}

/// The top-left vertex of cell c, cells being counted row-major over the
/// (width - 1) x (height - 1) interior grid.
pub open spec fn cell_corner(width: int, c: int) -> int {
    (c / (width - 1)) * width + c % (width - 1)
}

/// Index j of the triangle list. Each cell contributes six indices forming
/// two triangles over its quad: (top-left, bottom-right, bottom-left) then
/// (bottom-right, top-left, top-right), which fixes the outward winding.
pub open spec fn index_value(width: int, j: int) -> int {
    let vi = cell_corner(width, j / 6);
    let s = j % 6;
    if s == 0 {
        vi
    } else if s == 1 {
        vi + width + 1
    } else if s == 2 {
        vi + width
    } else if s == 3 {
        vi + width + 1
    } else if s == 4 {
        vi
    } else {
        vi + 1
    }
}

/// The mesh that synthesis yields for a given field, scale and normal choice.
pub open spec fn mesh_model(f: FieldModel, height_scale: u32, normals_requested: bool) -> MeshModel {
    MeshModel {
        width: f.width,
        height: f.height,
        height_scale: height_scale,
        normals_requested: normals_requested,
        vertices: Seq::new((f.width * f.height) as nat, |i: int| vertex_model(f, i)),
        uvs: Seq::new((f.width * f.height) as nat, |i: int| uv_model(f.width, i)),
        indices: Seq::new(
            (6 * (f.width - 1) * (f.height - 1)) as nat,
            |j: int| index_value(f.width, j),
        ),
    }
}

/// Builds the triangulated mesh of a height field: one vertex and one
/// texture coordinate per grid cell, row-major, and six indices (two
/// triangles) per interior cell. Succeeds exactly when both sides are at
/// least 2; otherwise reports InvalidDimensions. The result is a function of
/// the field, the scale and the normal choice alone.
pub fn synthesize(field: &HeightField, height_scale: u32, with_normals: bool) -> (r: Result<
    TerrainMesh,
    TerrainError,
>)
    requires
        field.wf(),
    ensures
        r is Ok <==> (field.width >= 2 && field.height >= 2),
        r matches Ok(m) ==> m@ == mesh_model(field@, height_scale, with_normals),
        r matches Err(e) ==> e == TerrainError::InvalidDimensions,
{
    if field.width < 2 || field.height < 2 {
        return Err(TerrainError::InvalidDimensions);
    }
    let w = field.width;
    let h = field.height;
    proof {
        assert(w * h < 0x4000_0000) by (nonlinear_arith)
            requires
                2 <= w <= crate::field::MAX_RESOLUTION,
                2 <= h <= crate::field::MAX_RESOLUTION,
        ;
    }
    let n: usize = w * h;

    let mut vertices: Vec<Vertex> = Vec::new();
    let mut uvs: Vec<Uv> = Vec::new();
    let mut i: usize = 0;
    while i < n
        invariant
            field.wf(),
            w == field.width,
            h == field.height,
            2 <= w,
            2 <= h,
            n == w * h,
            n < 0x4000_0000,
            i <= n,
            vertices@.len() == i,
            uvs@.len() == i,
            forall|k: int| 0 <= k < i ==> (#[trigger] vertices@[k])@ == vertex_model(field@, k),
            forall|k: int| 0 <= k < i ==> (#[trigger] uvs@[k])@ == uv_model(field@.width, k),
        decreases n - i,
    {
        let x: usize = i % w;
        let y: usize = i / w;
        proof {
            assert((h - 1) * (w as int) + (w - 1) == w * h - 1) by (nonlinear_arith);
            lemma_fundamental_div_mod_converse(w * h - 1, w as int, h - 1, w - 1);
            lemma_div_is_ordered(i as int, w * h - 1, w as int);
        }
        let vx: i64 = 2 * (x as i64) - (w as i64 - 1);
        let vz: i64 = (h as i64 - 1) - 2 * (y as i64);
        let hb: u64 = field.samples[i];
        vertices.push(Vertex { x2: vx, height_bits: hb, z2: vz });
        uvs.push(Uv { u_num: x, v_num: y });
        i = i + 1;
    }

    let mut indices: Vec<u32> = Vec::new();
    let mut cy: usize = 0;
    while cy < h - 1
        invariant
            field.wf(),
            w == field.width,
            h == field.height,
            2 <= w,
            2 <= h,
            n == w * h,
            n < 0x4000_0000,
            cy <= h - 1,
            indices@.len() == 6 * ((cy as int) * (w - 1)),
            forall|j: int|
                0 <= j < indices@.len() ==> (#[trigger] indices@[j]) as int == index_value(
                    w as int,
                    j,
                ),
        decreases h - 1 - cy,
    {
        let mut cx: usize = 0;
        while cx < w - 1
            invariant
                field.wf(),
                w == field.width,
                h == field.height,
                2 <= w,
                2 <= h,
                n == w * h,
                n < 0x4000_0000,
                cy < h - 1,
                cx <= w - 1,
                indices@.len() == 6 * ((cy as int) * (w - 1) + cx as int),
                forall|j: int|
                    0 <= j < indices@.len() ==> (#[trigger] indices@[j]) as int == index_value(
                        w as int,
                        j,
                    ),
            decreases w - 1 - cx,
        {
            proof {
                assert((cy as int) * (w as int) + cx + w + 1 < w * h && (cy as int) * (w - 1)
                    + cx < (w - 1) * (h - 1)) by (nonlinear_arith)
                    requires
                        0 <= cy < h - 1,
                        0 <= cx < w - 1,
                        2 <= w,
                        2 <= h,
                ;
            }
            let vi: usize = cy * w + cx;
            let ghost wi: int = w as int;
            let ghost c: int = (cy as int) * (wi - 1) + (cx as int);
            let ghost len0: int = indices@.len() as int;
            indices.push(vi as u32);
            indices.push((vi + w + 1) as u32);
            indices.push((vi + w) as u32);
            indices.push((vi + w + 1) as u32);
            indices.push(vi as u32);
            indices.push((vi + 1) as u32);
            proof {
                lemma_fundamental_div_mod_converse(c, wi - 1, cy as int, cx as int);
                assert(cell_corner(wi, c) == vi as int);
                lemma_fundamental_div_mod_converse(6 * c + 0, 6, c, 0);
                lemma_fundamental_div_mod_converse(6 * c + 1, 6, c, 1);
                lemma_fundamental_div_mod_converse(6 * c + 2, 6, c, 2);
                lemma_fundamental_div_mod_converse(6 * c + 3, 6, c, 3);
                lemma_fundamental_div_mod_converse(6 * c + 4, 6, c, 4);
                lemma_fundamental_div_mod_converse(6 * c + 5, 6, c, 5);
                assert(len0 == 6 * c);
                assert forall|j: int| len0 <= j < len0 + 6 implies (#[trigger] indices@[j])
                    as int == index_value(wi, j) by {
                    if j == len0 + 0 {
                        assert(index_value(wi, j) == cell_corner(wi, c));
                    } else if j == len0 + 1 {
                        assert(index_value(wi, j) == cell_corner(wi, c) + wi + 1);
                    } else if j == len0 + 2 {
                        assert(index_value(wi, j) == cell_corner(wi, c) + wi);
                    } else if j == len0 + 3 {
                        assert(index_value(wi, j) == cell_corner(wi, c) + wi + 1);
                    } else if j == len0 + 4 {
                        assert(index_value(wi, j) == cell_corner(wi, c));
                    } else {
                        assert(index_value(wi, j) == cell_corner(wi, c) + 1);
                    }
                }
            }
            cx = cx + 1;
        }
        proof {
            assert(6 * ((cy as int) * ((w as int) - 1) + ((w as int) - 1)) == 6 * (((cy as int)
                + 1) * ((w as int) - 1))) by (nonlinear_arith);
        }
        cy = cy + 1;
    }

    let mesh = TerrainMesh {
        width: w,
        height: h,
        height_scale,
        normals_requested: with_normals,
        vertices,
        indices,
        uvs,
    };
    proof {
        let fm = field@;
        let mm = mesh_model(fm, height_scale, with_normals);
        assert(6 * ((h - 1) * (fm.width - 1)) == 6 * (fm.width - 1) * (fm.height - 1))
            by (nonlinear_arith)
            requires
                fm.width == w as int,
                fm.height == h as int,
        ;
        assert forall|k: int| 0 <= k < mesh@.vertices.len() implies mesh@.vertices[k]
            == mm.vertices[k] by {
            assert(mesh@.vertices[k] == vertices@[k]@);
        }
        assert forall|k: int| 0 <= k < mesh@.uvs.len() implies mesh@.uvs[k] == mm.uvs[k] by {
            assert(mesh@.uvs[k] == uvs@[k]@);
        }
        assert forall|k: int| 0 <= k < mesh@.indices.len() implies mesh@.indices[k]
            == mm.indices[k] by {
            assert(mesh@.indices[k] == indices@[k] as int);
        }
        assert(mesh@.vertices =~= mm.vertices);
        assert(mesh@.uvs =~= mm.uvs);
        assert(mesh@.indices =~= mm.indices);
        assert(mesh@ =~= mm);
    }
    Ok(mesh)
}

} // verus!
