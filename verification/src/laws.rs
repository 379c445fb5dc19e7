use vstd::prelude::*;
use vstd::arithmetic::div_mod::{
    lemma_div_is_ordered, lemma_div_pos_is_pos, lemma_fundamental_div_mod_converse,
    lemma_mod_pos_bound,
};
use crate::field::{field_model, Domain, FieldModel, NoiseKind};
use crate::mesh::{cell_corner, index_value, mesh_model, MeshModel, UvModel};

verus! {

/// Buffer lengths: a width x height field yields width * height vertices,
/// as many texture coordinates, and 6 * (width - 1) * (height - 1) indices.
pub proof fn lemma_buffer_lengths(f: FieldModel, height_scale: u32, normals_requested: bool)
    requires
        2 <= f.width,
        2 <= f.height,
    ensures
        mesh_model(f, height_scale, normals_requested).vertices.len() == f.width * f.height,
        mesh_model(f, height_scale, normals_requested).uvs.len() == f.width * f.height,
        mesh_model(f, height_scale, normals_requested).indices.len() == 6 * (f.width - 1) * (
        f.height - 1),
{
    assert(f.width * f.height >= 0 && 6 * (f.width - 1) * (f.height - 1) >= 0)
        by (nonlinear_arith)
        requires
            2 <= f.width,
            2 <= f.height,
    ;
}

/// Bounds of one entry of the triangle list: for a grid of the given width
/// and height, index j of the list names a vertex of the grid.
pub proof fn lemma_index_value_in_range(width: int, height: int, j: int)
    requires
        2 <= width,
        2 <= height,
        0 <= j < 6 * (width - 1) * (height - 1),
    ensures
        0 <= index_value(width, j) < width * height,
{
    let cells = (width - 1) * (height - 1);
    let c = j / 6;
    let s = j % 6;
    lemma_div_pos_is_pos(j, 6);
    lemma_mod_pos_bound(j, 6);
    assert(6 * cells == 6 * (width - 1) * (height - 1) && 6 * cells - 1 == (cells - 1) * 6 + 5)
        by (nonlinear_arith)
        requires
            cells == (width - 1) * (height - 1),
    ;
    lemma_fundamental_div_mod_converse(6 * cells - 1, 6, cells - 1, 5);
    lemma_div_is_ordered(j, 6 * cells - 1, 6);
    assert(0 <= c <= cells - 1);
    let cy = c / (width - 1);
    let cx = c % (width - 1);
    lemma_div_pos_is_pos(c, width - 1);
    lemma_mod_pos_bound(c, width - 1);
    assert(cells - 1 == (height - 2) * (width - 1) + (width - 2)) by (nonlinear_arith)
        requires
            cells == (width - 1) * (height - 1),
    ;
    lemma_fundamental_div_mod_converse(cells - 1, width - 1, height - 2, width - 2);
    lemma_div_is_ordered(c, cells - 1, width - 1);
    assert(0 <= cy <= height - 2 && 0 <= cx <= width - 2);
    assert(0 <= cy * width + cx && cy * width + cx + width + 1 < width * height)
        by (nonlinear_arith)
        requires
            0 <= cy <= height - 2,
            0 <= cx <= width - 2,
            2 <= width,
            2 <= height,
    ;
    assert(cell_corner(width, c) == cy * width + cx);
}

/// Every index of the mesh's triangle list is in range: it names one of the
/// mesh's vertices.
pub proof fn lemma_indices_in_range(f: FieldModel, height_scale: u32, normals_requested: bool)
    requires
        2 <= f.width,
        2 <= f.height,
    ensures
        forall|j: int|
            0 <= j < mesh_model(f, height_scale, normals_requested).indices.len() ==> 0 <= #[trigger] mesh_model(
                f,
                height_scale,
                normals_requested,
            ).indices[j] < f.width * f.height,
{
    let m = mesh_model(f, height_scale, normals_requested);
    lemma_buffer_lengths(f, height_scale, normals_requested);
    assert forall|j: int| 0 <= j < m.indices.len() implies 0 <= #[trigger] m.indices[j] < f.width
        * f.height by {
        lemma_index_value_in_range(f.width, f.height, j);
    }
}

/// Row-major layout: the vertex of grid cell (x, y) sits at position
/// y * width + x and carries the exact rational texture coordinate
/// (x / (width - 1), y / (height - 1)).
pub proof fn lemma_uv_row_major(
    f: FieldModel,
    height_scale: u32,
    normals_requested: bool,
    x: int,
    y: int,
)
    requires
        2 <= f.width,
        2 <= f.height,
        0 <= x < f.width,
        0 <= y < f.height,
    ensures
        0 <= y * f.width + x < mesh_model(f, height_scale, normals_requested).uvs.len(),
        mesh_model(f, height_scale, normals_requested).uvs[y * f.width + x] == (UvModel {
            u_num: x,
            v_num: y,
        }),
{
    lemma_buffer_lengths(f, height_scale, normals_requested);
    assert(0 <= y * f.width + x < f.width * f.height) by (nonlinear_arith)
        requires
            0 <= x < f.width,
            0 <= y < f.height,
    ;
    lemma_fundamental_div_mod_converse(y * f.width + x, f.width, y, x);
}

/// The four grid corners carry the exact rationals (0, 0), (1, 0), (0, 1)
/// and (1, 1): their numerators are 0 or the matching denominator,
/// width - 1 or height - 1.
pub proof fn lemma_uv_corners(f: FieldModel, height_scale: u32, normals_requested: bool)
    requires
        2 <= f.width,
        2 <= f.height,
    ensures
        mesh_model(f, height_scale, normals_requested).uvs[0] == (UvModel { u_num: 0, v_num: 0 }),
        mesh_model(f, height_scale, normals_requested).uvs[f.width - 1] == (UvModel {
            u_num: f.width - 1,
            v_num: 0,
        }),
        mesh_model(f, height_scale, normals_requested).uvs[(f.height - 1) * f.width] == (UvModel {
            u_num: 0,
            v_num: f.height - 1,
        }),
        mesh_model(f, height_scale, normals_requested).uvs[f.width * f.height - 1] == (UvModel {
            u_num: f.width - 1,
            v_num: f.height - 1,
        }),
{
    lemma_uv_row_major(f, height_scale, normals_requested, 0, 0);
    lemma_uv_row_major(f, height_scale, normals_requested, f.width - 1, 0);
    lemma_uv_row_major(f, height_scale, normals_requested, 0, f.height - 1);
    lemma_uv_row_major(f, height_scale, normals_requested, f.width - 1, f.height - 1);
    assert((f.height - 1) * f.width + (f.width - 1) == f.width * f.height - 1)
        by (nonlinear_arith);
}

/// Determinism: generation is a function of the noise kind, the seed, the
/// resolution and the domain, and synthesis a function of the field, the
/// scale and the normal choice, so two runs of the pipeline over identical
/// inputs yield identical vertex, index and texture-coordinate buffers.
pub proof fn lemma_pipeline_deterministic(
    kind: NoiseKind,
    seed: u32,
    width: int,
    height: int,
    domain: Domain,
    height_scale: u32,
    normals_requested: bool,
    m1: MeshModel,
    m2: MeshModel,
)
    requires
        m1 == mesh_model(
            field_model(kind, seed, width, height, domain),
            height_scale,
            normals_requested,
        ),
        m2 == mesh_model(
            field_model(kind, seed, width, height, domain),
            height_scale,
            normals_requested,
        ),
    ensures
        m1 == m2,
        m1.vertices == m2.vertices,
        m1.indices == m2.indices,
        m1.uvs == m2.uvs,
{
}

/// Each consecutive index triple names three distinct vertices: the two
/// triangles of a cell never collapse an edge to a point.
pub proof fn lemma_triangle_vertices_distinct(
    f: FieldModel,
    height_scale: u32,
    normals_requested: bool,
    t: int,
)
    requires
        2 <= f.width,
        2 <= f.height,
        0 <= t,
        3 * t + 2 < mesh_model(f, height_scale, normals_requested).indices.len(),
    ensures
        mesh_model(f, height_scale, normals_requested).indices[3 * t] != mesh_model(
            f,
            height_scale,
            normals_requested,
        ).indices[3 * t + 1],
        mesh_model(f, height_scale, normals_requested).indices[3 * t] != mesh_model(
            f,
            height_scale,
            normals_requested,
        ).indices[3 * t + 2],
        mesh_model(f, height_scale, normals_requested).indices[3 * t + 1] != mesh_model(
            f,
            height_scale,
            normals_requested,
        ).indices[3 * t + 2],
{
    lemma_buffer_lengths(f, height_scale, normals_requested);
    let w = f.width;
    let c = t / 2;
    let p = t % 2;
    lemma_div_pos_is_pos(t, 2);
    lemma_mod_pos_bound(t, 2);
    assert(t == 2 * c + p);
    assert(3 * t == 6 * c + 3 * p);
    lemma_fundamental_div_mod_converse(6 * c + 3 * p + 0, 6, c, 3 * p + 0);
    lemma_fundamental_div_mod_converse(6 * c + 3 * p + 1, 6, c, 3 * p + 1);
    lemma_fundamental_div_mod_converse(6 * c + 3 * p + 2, 6, c, 3 * p + 2);
    if p == 0 {
        assert(index_value(w, 3 * t) == cell_corner(w, c));
        assert(index_value(w, 3 * t + 1) == cell_corner(w, c) + w + 1);
        assert(index_value(w, 3 * t + 2) == cell_corner(w, c) + w);
    } else {
        assert(index_value(w, 3 * t) == cell_corner(w, c) + w + 1);
        assert(index_value(w, 3 * t + 1) == cell_corner(w, c));
        assert(index_value(w, 3 * t + 2) == cell_corner(w, c) + 1);
    }
}

} // verus!
