use terrain_mesh::field::{generate, Domain, HeightField, NoiseKind};
use terrain_mesh::mesh::{synthesize, TerrainMesh};
use terrain_mesh::TerrainError;

fn unit_domain() -> Domain {
    Domain { x_min: -5, x_max: 5, y_min: -5, y_max: 5 }
}

fn flat_field(width: usize, height: usize, value: f64) -> HeightField {
    HeightField::new(width, height, vec![value.to_bits(); width * height])
}

fn mesh_of(width: usize, height: usize) -> TerrainMesh {
    let field = generate(NoiseKind::SingleOctave, 0, width, height, &unit_domain()).unwrap();
    synthesize(&field, 1.0f32.to_bits(), true).unwrap()
}

#[test]
fn two_by_two_buffers() {
    let mesh = mesh_of(2, 2);
    assert_eq!(mesh.vertices.len(), 4);
    assert_eq!(mesh.indices.len(), 6);
    assert_eq!(mesh.uvs.len(), 4);
    let uvs: Vec<(usize, usize)> = mesh.uvs.iter().map(|u| (u.u_num, u.v_num)).collect();
    assert_eq!(uvs, vec![(0, 0), (1, 0), (0, 1), (1, 1)]);
    // Denominators are width - 1 == height - 1 == 1, so the corner UVs are
    // exactly (0,0), (1,0), (0,1), (1,1) as floats too.
    let floats: Vec<(f64, f64)> =
        uvs.iter().map(|&(u, v)| (u as f64 / 1.0, v as f64 / 1.0)).collect();
    assert_eq!(floats, vec![(0.0, 0.0), (1.0, 0.0), (0.0, 1.0), (1.0, 1.0)]);
}

#[test]
fn two_by_two_triangle_layout() {
    let mesh = mesh_of(2, 2);
    assert_eq!(mesh.indices, vec![0, 3, 2, 3, 0, 1]);
}

#[test]
fn three_by_three_triangle_layout() {
    let mesh = mesh_of(3, 3);
    let expected: Vec<u32> = vec![
        0, 4, 3, 4, 0, 1, // cell (0, 0)
        1, 5, 4, 5, 1, 2, // cell (1, 0)
        3, 7, 6, 7, 3, 4, // cell (0, 1)
        4, 8, 7, 8, 4, 5, // cell (1, 1)
    ];
    assert_eq!(mesh.indices, expected);
}

#[test]
fn triangle_accessor_matches_index_list() {
    let mesh = mesh_of(3, 3);
    assert_eq!(mesh.triangle(0), (0, 4, 3));
    assert_eq!(mesh.triangle(1), (4, 0, 1));
    assert_eq!(mesh.triangle(7), (8, 4, 5));
    for t in 0..mesh.indices.len() / 3 {
        let (a, b, c) = mesh.triangle(t);
        assert_eq!(a, mesh.indices[3 * t]);
        assert_eq!(b, mesh.indices[3 * t + 1]);
        assert_eq!(c, mesh.indices[3 * t + 2]);
    }
}

#[test]
fn buffer_lengths_various_sizes() {
    for &(w, h) in &[(2usize, 3usize), (3, 2), (4, 7), (9, 5)] {
        let mesh = mesh_of(w, h);
        assert_eq!(mesh.vertices.len(), w * h);
        assert_eq!(mesh.uvs.len(), w * h);
        assert_eq!(mesh.indices.len(), 6 * (w - 1) * (h - 1));
    }
}

#[test]
fn indices_stay_in_range() {
    let mesh = mesh_of(6, 5);
    for &k in &mesh.indices {
        assert!((k as usize) < mesh.vertices.len());
    }
}

#[test]
fn triangles_use_distinct_vertices() {
    let mesh = mesh_of(5, 4);
    for tri in mesh.indices.chunks(3) {
        assert_ne!(tri[0], tri[1]);
        assert_ne!(tri[0], tri[2]);
        assert_ne!(tri[1], tri[2]);
    }
}

#[test]
fn uvs_are_row_major_rationals() {
    let w = 4usize;
    let h = 3usize;
    let mesh = mesh_of(w, h);
    for y in 0..h {
        for x in 0..w {
            let uv = &mesh.uvs[y * w + x];
            assert_eq!(uv.u_num, x);
            assert_eq!(uv.v_num, y);
            let u = uv.u_num as f64 / (w - 1) as f64;
            let v = uv.v_num as f64 / (h - 1) as f64;
            assert_eq!(u, x as f64 / 3.0);
            assert_eq!(v, y as f64 / 2.0);
        }
    }
    // Corners map to the unit square's corners exactly.
    assert_eq!(mesh.uvs[0].u_num as f64 / 3.0, 0.0);
    assert_eq!(mesh.uvs[w - 1].u_num as f64 / 3.0, 1.0);
    assert_eq!(mesh.uvs[(h - 1) * w].v_num as f64 / 2.0, 1.0);
    assert_eq!(mesh.uvs[w * h - 1].u_num as f64 / 3.0, 1.0);
}

#[test]
fn vertex_positions_are_centered_grid() {
    let mesh = mesh_of(3, 2);
    // Doubled x coordinates per column: the grid is centered, so the world
    // x positions are -1, 0, 1 and the world z positions 0.5, -0.5.
    let x2: Vec<i64> = mesh.vertices.iter().map(|v| v.x2).collect();
    assert_eq!(x2, vec![-2, 0, 2, -2, 0, 2]);
    let z2: Vec<i64> = mesh.vertices.iter().map(|v| v.z2).collect();
    assert_eq!(z2, vec![1, 1, 1, -1, -1, -1]);
    let world_x: Vec<f32> = x2.iter().map(|&d| d as f32 / 2.0).collect();
    assert_eq!(world_x, vec![-1.0, 0.0, 1.0, -1.0, 0.0, 1.0]);
}

#[test]
fn flat_field_keeps_height_everywhere() {
    let field = flat_field(4, 4, 0.7);
    let mesh = synthesize(&field, 1.0f32.to_bits(), true).unwrap();
    for v in &mesh.vertices {
        assert_eq!(v.height_bits, 0.7f64.to_bits());
        assert_eq!(f64::from_bits(v.height_bits), 0.7);
    }
    assert_eq!(f32::from_bits(mesh.height_scale), 1.0);
    assert!(mesh.normals_requested);
}

#[test]
fn large_grid_has_expected_index_count() {
    let domain = Domain { x_min: 0, x_max: 5, y_min: 0, y_max: 5 };
    let field = generate(NoiseKind::SingleOctave, 0, 25, 25, &domain).unwrap();
    let mesh = synthesize(&field, 1.0f32.to_bits(), false).unwrap();
    assert_eq!(mesh.vertices.len(), 625);
    assert_eq!(mesh.indices.len(), 6 * 24 * 24);
    assert_eq!(mesh.indices.len(), 3456);
    assert!(!mesh.normals_requested);
}

#[test]
fn degenerate_dimensions_are_rejected() {
    let domain = unit_domain();
    assert_eq!(
        generate(NoiseKind::SingleOctave, 0, 1, 8, &domain).unwrap_err(),
        TerrainError::InvalidDimensions
    );
    assert_eq!(
        generate(NoiseKind::Fractal, 0, 8, 1, &domain).unwrap_err(),
        TerrainError::InvalidDimensions
    );
    let skinny = HeightField::new(1, 5, vec![0u64; 5]);
    assert_eq!(
        synthesize(&skinny, 1.0f32.to_bits(), true).unwrap_err(),
        TerrainError::InvalidDimensions
    );
}

#[test]
fn pipeline_is_deterministic() {
    for &kind in &[NoiseKind::SingleOctave, NoiseKind::Fractal] {
        let domain = Domain { x_min: 0, x_max: 5, y_min: 0, y_max: 5 };
        let f1 = generate(kind, 42, 9, 7, &domain).unwrap();
        let f2 = generate(kind, 42, 9, 7, &domain).unwrap();
        assert_eq!(f1, f2);
        let m1 = synthesize(&f1, 50.5f32.to_bits(), true).unwrap();
        let m2 = synthesize(&f2, 50.5f32.to_bits(), true).unwrap();
        assert_eq!(m1, m2);
    }
}

#[test]
fn noise_kinds_differ() {
    let domain = Domain { x_min: 0, x_max: 5, y_min: 0, y_max: 5 };
    let single = generate(NoiseKind::SingleOctave, 0, 4, 4, &domain).unwrap();
    let fractal = generate(NoiseKind::Fractal, 0, 4, 4, &domain).unwrap();
    assert_ne!(single.samples, fractal.samples);
    for &bits in &single.samples {
        assert!(f64::from_bits(bits).is_finite());
    }
    for &bits in &fractal.samples {
        assert!(f64::from_bits(bits).is_finite());
    }
}

#[test]
fn height_field_samples_row_major() {
    let field = HeightField::new(3, 2, vec![10, 11, 12, 13, 14, 15]);
    assert_eq!(field.sample(0, 0), 10);
    assert_eq!(field.sample(2, 0), 12);
    assert_eq!(field.sample(0, 1), 13);
    assert_eq!(field.sample(2, 1), 15);
}

#[test]
fn height_scale_is_recorded() {
    let field = flat_field(2, 2, 0.25);
    let mesh = synthesize(&field, 50.5f32.to_bits(), false).unwrap();
    assert_eq!(f32::from_bits(mesh.height_scale), 50.5);
    assert!(!mesh.normals_requested);
    // The realized vertical coordinate is the sample scaled once.
    let y = f64::from_bits(mesh.vertices[0].height_bits) * f32::from_bits(mesh.height_scale) as f64;
    assert_eq!(y as f32, 0.25f32 * 50.5);
}
