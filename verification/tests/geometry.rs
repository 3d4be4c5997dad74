//! Tests of the geometry providers: the parametric box and the mesh
//! ingested from STL bytes.

use webgl_render::convert::Mat4;
use webgl_render::mesh::{Cube, GeometryLoadError, Mesh, WebGlTriangles};

fn unit_cube() -> Cube {
    Cube::new(
        (-0.5f32).to_bits(),
        (-0.5f32).to_bits(),
        (-0.5f32).to_bits(),
        0.5f32.to_bits(),
        0.5f32.to_bits(),
        0.5f32.to_bits(),
        Mat4::identity(),
    )
}

#[test]
fn box_emits_eight_unique_corners() {
    let c = unit_cube();
    let verts = c.to_gl_triangles_vertices();
    assert_eq!(verts.len(), 24);
    let mut points: Vec<(u32, u32, u32)> = Vec::new();
    for p in 0..8 {
        points.push((verts[3 * p], verts[3 * p + 1], verts[3 * p + 2]));
    }
    for i in 0..8 {
        for j in 0..8 {
            if i != j {
                assert_ne!(points[i], points[j]);
            }
        }
    }
}

#[test]
fn box_emits_twelve_triangles_over_its_corners() {
    let c = unit_cube();
    let idx = c.to_gl_triangles_indices();
    assert_eq!(idx.len(), 36);
    for &i in idx.iter() {
        assert!(i < 8);
    }
}

#[test]
fn unit_box_index_buffer_shape() {
    // The concrete shaded-mode scenario: index buffer length 36 and the
    // highest referenced vertex index 7.
    let c = unit_cube();
    let idx = c.to_gl_triangles_indices();
    assert_eq!(idx.len(), 36);
    assert_eq!(idx.iter().copied().max(), Some(7));
}

#[test]
fn box_model_transform_flattens_identity() {
    let c = unit_cube();
    let m = c.to_model_view_mat4();
    assert_eq!(m.len(), 16);
    assert_eq!(m[0], 1.0f32.to_bits());
    assert_eq!(m[5], 1.0f32.to_bits());
    assert_eq!(m[1], 0.0f32.to_bits());
}

fn binary_stl(triangles: &[[f32; 9]]) -> Vec<u8> {
    let mut bytes = vec![0u8; 80];
    bytes.extend_from_slice(&(triangles.len() as u32).to_le_bytes());
    for t in triangles {
        for f in [0.0f32, 0.0, 1.0] {
            bytes.extend_from_slice(&f.to_le_bytes());
        }
        for f in t.iter() {
            bytes.extend_from_slice(&f.to_le_bytes());
        }
        bytes.extend_from_slice(&0u16.to_le_bytes());
    }
    bytes
}

#[test]
fn mesh_from_empty_buffers_is_a_valid_empty_drawable() {
    let m = Mesh::from_buffers(Vec::new(), Vec::new(), Mat4::identity());
    let m = m.expect("empty buffers form a valid zero-length mesh");
    assert_eq!(m.to_gl_triangles_vertices(), Vec::<u32>::new());
    assert_eq!(m.to_gl_triangles_indices(), Vec::<u32>::new());
}

#[test]
fn mesh_from_zero_triangle_stl_is_a_valid_empty_drawable() {
    let bytes = binary_stl(&[]);
    let m = Mesh::from_stl(&bytes, Mat4::identity());
    let m = m.expect("a zero-triangle document yields a valid empty mesh");
    assert_eq!(m.to_gl_triangles_vertices(), Vec::<u32>::new());
    assert_eq!(m.to_gl_triangles_indices(), Vec::<u32>::new());
}

#[test]
fn mesh_from_one_triangle_stl_has_exact_buffers() {
    let bytes = binary_stl(&[[0.0, 0.0, 0.0, 1.0, 0.0, 0.0, 0.0, 1.0, 0.0]]);
    let m = Mesh::from_stl(&bytes, Mat4::identity()).expect("well-formed document");
    let verts = m.to_gl_triangles_vertices();
    let expected: Vec<u32> = [0.0f32, 0.0, 0.0, 1.0, 0.0, 0.0, 0.0, 1.0, 0.0]
        .iter()
        .map(|f| f.to_bits())
        .collect();
    assert_eq!(verts, expected);
    assert_eq!(m.to_gl_triangles_indices(), vec![0u32, 1, 2]);
}

#[test]
fn mesh_from_stl_deduplicates_shared_vertices() {
    // Two triangles sharing an edge: the reader's vertex table keeps each
    // distinct corner once, so four vertices carry six index entries.
    let bytes = binary_stl(&[
        [0.0, 0.0, 0.0, 1.0, 0.0, 0.0, 0.0, 1.0, 0.0],
        [1.0, 0.0, 0.0, 1.0, 1.0, 0.0, 0.0, 1.0, 0.0],
    ]);
    let m = Mesh::from_stl(&bytes, Mat4::identity()).expect("well-formed document");
    assert_eq!(m.to_gl_triangles_vertices().len(), 12);
    assert_eq!(m.to_gl_triangles_indices(), vec![0u32, 1, 2, 1, 3, 2]);
}

#[test]
fn mesh_from_ascii_stl_matches_binary() {
    let ascii = b"solid tri\n\
        facet normal 0 0 1\n\
            outer loop\n\
                vertex 0 0 0\n\
                vertex 1 0 0\n\
                vertex 0 1 0\n\
            endloop\n\
        endfacet\n\
        endsolid tri"
        .to_vec();
    let binary = binary_stl(&[[0.0, 0.0, 0.0, 1.0, 0.0, 0.0, 0.0, 1.0, 0.0]]);
    let ma = Mesh::from_stl(&ascii, Mat4::identity()).expect("well-formed ascii");
    let mb = Mesh::from_stl(&binary, Mat4::identity()).expect("well-formed binary");
    assert_eq!(ma.to_gl_triangles_vertices(), mb.to_gl_triangles_vertices());
    assert_eq!(ma.to_gl_triangles_indices(), mb.to_gl_triangles_indices());
}

#[test]
fn mesh_from_malformed_stl_fails_with_parse_error() {
    let garbage = b"solid broken\nfacet normal not numbers".to_vec();
    let r = Mesh::from_stl(&garbage, Mat4::identity());
    assert_eq!(r.err(), Some(GeometryLoadError::ParseFailed));

    let truncated = vec![1u8, 2, 3];
    let r = Mesh::from_stl(&truncated, Mat4::identity());
    assert_eq!(r.err(), Some(GeometryLoadError::ParseFailed));
}

#[test]
fn mesh_from_buffers_rejects_out_of_range_index() {
    let vertices: Vec<u32> = [0.0f32, 0.0, 0.0].iter().map(|f| f.to_bits()).collect();
    let r = Mesh::from_buffers(vertices, vec![0usize, 0, 5], Mat4::identity());
    assert_eq!(r.err(), Some(GeometryLoadError::InvalidGeometry));
}

#[test]
fn mesh_from_buffers_rejects_ragged_shapes() {
    // A vertex buffer that is not a whole number of points.
    let r = Mesh::from_buffers(vec![0u32, 0], Vec::new(), Mat4::identity());
    assert_eq!(r.err(), Some(GeometryLoadError::InvalidGeometry));
    // A face buffer that is not a whole number of triangles.
    let vertices: Vec<u32> = [0.0f32, 0.0, 0.0].iter().map(|f| f.to_bits()).collect();
    let r = Mesh::from_buffers(vertices, vec![0usize, 0], Mat4::identity());
    assert_eq!(r.err(), Some(GeometryLoadError::InvalidGeometry));
}
