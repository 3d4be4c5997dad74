//! Geometry providers: the `WebGlTriangles` capability contract, the
//! parametric box, and the triangle mesh ingested from an STL byte source.

use vstd::prelude::*;
use crate::convert::{Mat4, mat4_wf, flat_of, flatten};

verus! {

/// A well-shaped geometry buffer pair: tightly packed vertex coordinates,
/// three per vertex with no padding, and triangle indices, three per
/// triangle, every index naming one of the vertices.
pub open spec fn geometry_wf(verts: Seq<u32>, idxs: Seq<u32>) -> bool {
    &&& verts.len() % 3 == 0
    &&& idxs.len() % 3 == 0
    &&& forall|i: int| 0 <= i < idxs.len() ==> (#[trigger] idxs[i]) < verts.len() / 3
}

/// The capability contract of every geometry kind: a flat vertex position
/// buffer, a triangle index buffer, and the current model transform, each
/// in the exact shape a geometry upload expects.
pub trait WebGlTriangles {
    /// The vertex coordinate buffer: three bit-pattern scalars per vertex.
    spec fn gl_vertices(&self) -> Seq<u32>;

    /// The triangle index buffer: three entries per triangle, each an index
    /// into the vertex buffer.
    spec fn gl_indices(&self) -> Seq<u32>;

    /// The model transform, column by column.
    spec fn gl_model(&self) -> Seq<Seq<u32>>;

    /// Produces the vertex buffer for upload.
    fn to_gl_triangles_vertices(&self) -> (r: Vec<u32>)
        ensures
            r@ == self.gl_vertices();

    /// Produces the index buffer for upload. Geometry under this contract
    /// is valid by construction — the buffers are well shaped and every
    /// index stays below the vertex count — so malformed geometry can
    /// never reach a draw call.
    fn to_gl_triangles_indices(&self) -> (r: Vec<u32>)
        ensures
            r@ == self.gl_indices(),
            geometry_wf(self.gl_vertices(), self.gl_indices());

    /// Produces the current model transform, flattened column-major.
    fn to_model_view_mat4(&self) -> (r: Vec<u32>)
        ensures
            r@ == flat_of(self.gl_model()),
            mat4_wf(self.gl_model()),
            r@.len() == 16;
}

/// The eight corners of a box in their fixed enumeration order: the x-low
/// corners first, within them y-low before y-high, and z varying fastest.
pub open spec fn cube_vertices(
    xmin: u32,
    ymin: u32,
    zmin: u32,
    xmax: u32,
    ymax: u32,
    zmax: u32,
) -> Seq<u32> {
    seq![
        xmin, ymin, zmin,
        xmin, ymin, zmax,
        xmin, ymax, zmin,
        xmin, ymax, zmax,
        xmax, ymin, zmin,
        xmax, ymin, zmax,
        xmax, ymax, zmin,
        xmax, ymax, zmax,
    ]
}

/// The twelve triangles of a box, two per face, as indices into the fixed
/// corner enumeration.
pub open spec fn cube_indices() -> Seq<u32> {
    seq![
        1u32, 3, 7, 1, 5, 7,
        0, 2, 6, 0, 4, 6,
        2, 3, 7, 2, 6, 7,
        0, 1, 5, 0, 4, 5,
        4, 5, 7, 4, 6, 7,
        0, 1, 3, 0, 2, 3,
    ]
}

/// Corner `i` of the box as a coordinate triple, by the enumeration order
/// of `cube_vertices`: bit 2 of `i` picks the x bound, bit 1 the y bound,
/// bit 0 the z bound.
pub open spec fn cube_point(
    xmin: u32,
    ymin: u32,
    zmin: u32,
    xmax: u32,
    ymax: u32,
    zmax: u32,
    i: int,
) -> (u32, u32, u32) {
    (
        if i < 4 {
            xmin
        } else {
            xmax
        },
        if i % 4 < 2 {
            ymin
        } else {
            ymax
        },
        if i % 2 == 0 {
            zmin
        } else {
            zmax
        },
    )
}

/// An axis-aligned box given by six scalar bounds, emitting its 8 corner
/// vertices and 12 triangles by a fixed pattern. Degenerate bounds (a
/// minimum at or above its maximum) are accepted and produce a flat or
/// inverted box.
pub struct Cube {
    xmin: u32,
    xmax: u32,
    ymin: u32,
    ymax: u32,
    zmin: u32,
    zmax: u32,
    model_view: Mat4,
}

impl Cube {
    /// Builds a box from its six bounds and a model transform.
    pub fn new(
        xmin: u32,
        ymin: u32,
        zmin: u32,
        xmax: u32,
        ymax: u32,
        zmax: u32,
        model_view: Mat4,
    ) -> (c: Cube)
        ensures
            c.gl_vertices() == cube_vertices(xmin, ymin, zmin, xmax, ymax, zmax),
            c.gl_indices() == cube_indices(),
            c.gl_model() == model_view@,
    {
        Cube { xmin, xmax, ymin, ymax, zmin, zmax, model_view }
    }

    /// Replaces the model transform wholesale; the geometry is untouched.
    pub fn set_model_view(&mut self, m: Mat4)
        ensures
            final(self).gl_model() == m@,
            final(self).gl_vertices() == old(self).gl_vertices(),
            final(self).gl_indices() == old(self).gl_indices(),
    {
        self.model_view = m;
    }
}

impl WebGlTriangles for Cube {
    closed spec fn gl_vertices(&self) -> Seq<u32> {
        cube_vertices(self.xmin, self.ymin, self.zmin, self.xmax, self.ymax, self.zmax)
    }

    closed spec fn gl_indices(&self) -> Seq<u32> {
        cube_indices()
    }

    closed spec fn gl_model(&self) -> Seq<Seq<u32>> {
        self.model_view@
    }

    fn to_gl_triangles_vertices(&self) -> (r: Vec<u32>) {
        let r: Vec<u32> = vec![
            self.xmin, self.ymin, self.zmin,
            self.xmin, self.ymin, self.zmax,
            self.xmin, self.ymax, self.zmin,
            self.xmin, self.ymax, self.zmax,
            self.xmax, self.ymin, self.zmin,
            self.xmax, self.ymin, self.zmax,
            self.xmax, self.ymax, self.zmin,
            self.xmax, self.ymax, self.zmax,
        ];
        proof {
            assert(r@ =~= self.gl_vertices());
        }
        r
    }

    fn to_gl_triangles_indices(&self) -> (r: Vec<u32>) {
        let r: Vec<u32> = vec![
            1, 3, 7, 1, 5, 7,
            0, 2, 6, 0, 4, 6,
            2, 3, 7, 2, 6, 7,
            0, 1, 5, 0, 4, 5,
            4, 5, 7, 4, 6, 7,
            0, 1, 3, 0, 2, 3,
        ];
        proof {
            assert(r@ =~= self.gl_indices());
            assert(self.gl_vertices().len() == 24);
            assert(forall|i: int| 0 <= i < 36 ==> (#[trigger] cube_indices()[i]) < 8);
        }
        r
    }

    fn to_model_view_mat4(&self) -> (r: Vec<u32>) {
        proof {
            use_type_invariant(&self.model_view);
        }
        flatten(&self.model_view)
    }
}

/// A box whose bounds differ on each axis has eight pairwise distinct
/// corners, and its index buffer holds exactly 36 entries (12 triangles),
/// every one below 8. The corner triples are those of `cube_point`.
pub proof fn lemma_box_geometry(
    xmin: u32,
    ymin: u32,
    zmin: u32,
    xmax: u32,
    ymax: u32,
    zmax: u32,
)
    requires
        xmin != xmax,
        ymin != ymax,
        zmin != zmax,
    ensures
        cube_vertices(xmin, ymin, zmin, xmax, ymax, zmax).len() == 24,
        cube_indices().len() == 36,
        forall|i: int| 0 <= i < 36 ==> (#[trigger] cube_indices()[i]) < 8,
        forall|i: int|
            0 <= i < 8 ==> (#[trigger] cube_vertices(xmin, ymin, zmin, xmax, ymax, zmax)[3 * i])
                == cube_point(xmin, ymin, zmin, xmax, ymax, zmax, i).0
                && cube_vertices(xmin, ymin, zmin, xmax, ymax, zmax)[3 * i + 1]
                == cube_point(xmin, ymin, zmin, xmax, ymax, zmax, i).1
                && cube_vertices(xmin, ymin, zmin, xmax, ymax, zmax)[3 * i + 2]
                == cube_point(xmin, ymin, zmin, xmax, ymax, zmax, i).2,
        forall|i: int, j: int|
            0 <= i < 8 && 0 <= j < 8 && i != j ==> cube_point(
                xmin, ymin, zmin, xmax, ymax, zmax, i,
            ) != cube_point(xmin, ymin, zmin, xmax, ymax, zmax, j),
{
    let vs = cube_vertices(xmin, ymin, zmin, xmax, ymax, zmax);
    assert forall|i: int|
        0 <= i < 8 implies (#[trigger] vs[3 * i]) == cube_point(
        xmin, ymin, zmin, xmax, ymax, zmax, i,
    ).0 && vs[3 * i + 1] == cube_point(xmin, ymin, zmin, xmax, ymax, zmax, i).1 && vs[3 * i + 2]
        == cube_point(xmin, ymin, zmin, xmax, ymax, zmax, i).2 by {
        assert(0 <= i <= 7);
    }
}

/// Why a mesh could not be built from its source.
#[derive(Clone, Copy, Debug, PartialEq, Eq, Structural)]
pub enum GeometryLoadError {
    /// The byte source was not a well-formed STL document.
    ParseFailed,
    /// A face named a vertex the buffer does not carry, or an index did not
    /// fit the 32-bit index buffer.
    InvalidGeometry,
}

/// The vertex and face buffers that a successful STL parse of the given
/// bytes yields: vertex coordinates as bit patterns, three per vertex and
/// deduplicated by the reader, and face indices, three per face. `None`
/// when the bytes are not a well-formed STL document. The outcome depends
/// on the bytes alone.
pub uninterp spec fn stl_parse_of(data: Seq<u8>) -> Option<(Seq<u32>, Seq<usize>)>;

/// Relies on stl_io::read_stl: parses ASCII or binary STL bytes into an
/// indexed mesh whose faces hold three indices each, every index below the
/// vertex count by construction of the reader's vertex table, and whose
/// vertices hold three coordinates each; returns an error exactly when the
/// bytes are malformed. The coordinates come back as their bit patterns.
#[verifier::external_body]
fn read_stl_buffers(data: &Vec<u8>) -> (r: Option<(Vec<u32>, Vec<usize>)>)
    ensures
        r is Some <==> stl_parse_of(data@) is Some,
        r matches Some(b) ==> stl_parse_of(data@) == Some((b.0@, b.1@)),
        r matches Some(b) ==> b.0@.len() % 3 == 0 && b.1@.len() % 3 == 0 && forall|i: int|
            0 <= i < b.1@.len() ==> (#[trigger] b.1@[i]) < b.0@.len() / 3,
{
    let mut cursor = std::io::Cursor::new(data.as_slice());
    match stl_io::read_stl(&mut cursor) {
        Ok(m) => {
            let vertices: Vec<u32> = m.vertices.iter().flat_map(
                |v| [v.0[0].to_bits(), v.0[1].to_bits(), v.0[2].to_bits()],
            ).collect();
            let faces: Vec<usize> = m.faces.iter().flat_map(|f| f.vertices).collect();
            Some((vertices, faces))
        },
        Err(_) => None,
    }
}

/// When a vertex/face buffer pair can become a mesh: the shapes are right
/// and every face index both names an existing vertex and fits a 32-bit
/// index buffer entry.
pub open spec fn buffers_ok(verts: Seq<u32>, faces: Seq<usize>) -> bool {
    &&& verts.len() % 3 == 0
    &&& faces.len() % 3 == 0
    &&& forall|i: int|
        0 <= i < faces.len() ==> (#[trigger] faces[i]) < verts.len() / 3 && faces[i] <= u32::MAX
}

/// A triangulated surface: vertex and index buffers ingested from an
/// external triangle source, plus a model transform. Valid by
/// construction; a partially built mesh can never exist.
pub struct Mesh {
    vertices: Vec<u32>,
    triangles: Vec<u32>,
    model_view: Mat4,
}

impl Mesh {
    #[verifier::type_invariant]
    spec fn inv(&self) -> bool {
        geometry_wf(self.vertices@, self.triangles@) && self.model_view.wf()
    }

    /// Builds a mesh from an ingested vertex buffer and face index buffer.
    /// Succeeds exactly when the buffers are well shaped; the mesh then
    /// exposes them unchanged, with faces narrowed to 32-bit indices.
    pub fn from_buffers(vertices: Vec<u32>, faces: Vec<usize>, model_view: Mat4) -> (r: Result<
        Mesh,
        GeometryLoadError,
    >)
        ensures
            buffers_ok(vertices@, faces@) ==> (r matches Ok(m) && m.gl_vertices() == vertices@
                && m.gl_indices() == faces@.map_values(|f: usize| f as u32) && m.gl_model()
                == model_view@),
            !buffers_ok(vertices@, faces@) ==> r == Err::<Mesh, GeometryLoadError>(
                GeometryLoadError::InvalidGeometry,
            ),
    {
        if vertices.len() % 3 != 0 || faces.len() % 3 != 0 {
            return Err(GeometryLoadError::InvalidGeometry);
        }
        let vertex_count = vertices.len() / 3;
        let mut triangles: Vec<u32> = Vec::new();
        let mut i: usize = 0;
        while i < faces.len()
            invariant
                i <= faces@.len(),
                vertex_count == vertices@.len() / 3,
                vertices@.len() % 3 == 0,
                faces@.len() % 3 == 0,
                triangles@ == faces@.subrange(0, i as int).map_values(|f: usize| f as u32),
                forall|j: int|
                    0 <= j < i ==> (#[trigger] faces@[j]) < vertex_count && faces@[j] <= u32::MAX,
            decreases faces@.len() - i,
        {
            let f = faces[i];
            if f >= vertex_count || f > (u32::MAX as usize) {
                return Err(GeometryLoadError::InvalidGeometry);
            }
            triangles.push(f as u32);
            proof {
                assert(triangles@ =~= faces@.subrange(0, i as int + 1).map_values(
                    |f: usize| f as u32,
                ));
            }
            i += 1;
        }
        proof {
            use_type_invariant(&model_view);
            assert(faces@.subrange(0, faces@.len() as int) =~= faces@);
            assert(triangles@.len() == faces@.len());
        }
        Ok(Mesh { vertices, triangles, model_view })
    }

    /// Ingests a mesh from STL bytes: parses them through the external
    /// reader, then builds the mesh from the resulting buffers. Fails with
    /// `ParseFailed` exactly when the bytes are malformed, and with
    /// `InvalidGeometry` exactly when the parsed buffers cannot form a
    /// valid mesh.
    pub fn from_stl(data: &Vec<u8>, model_view: Mat4) -> (r: Result<Mesh, GeometryLoadError>)
        ensures
            stl_parse_of(data@) is None ==> r == Err::<Mesh, GeometryLoadError>(
                GeometryLoadError::ParseFailed,
            ),
            stl_parse_of(data@) matches Some(b) ==> {
                &&& buffers_ok(b.0, b.1) ==> (r matches Ok(m) && m.gl_vertices() == b.0
                    && m.gl_indices() == b.1.map_values(|f: usize| f as u32) && m.gl_model()
                    == model_view@)
                &&& !buffers_ok(b.0, b.1) ==> r == Err::<Mesh, GeometryLoadError>(
                    GeometryLoadError::InvalidGeometry,
                )
            },
    {
        match read_stl_buffers(data) {
            None => Err(GeometryLoadError::ParseFailed),
            Some((vertices, faces)) => Mesh::from_buffers(vertices, faces, model_view),
        }
    }

    /// Replaces the model transform wholesale; the geometry is untouched.
    pub fn set_model_view(&mut self, m: Mat4)
        ensures
            final(self).gl_model() == m@,
            final(self).gl_vertices() == old(self).gl_vertices(),
            final(self).gl_indices() == old(self).gl_indices(),
    {
        proof {
            use_type_invariant(&*self);
            use_type_invariant(&m);
        }
        self.model_view = m;
    }
}

impl WebGlTriangles for Mesh {
    closed spec fn gl_vertices(&self) -> Seq<u32> {
        self.vertices@
    }

    closed spec fn gl_indices(&self) -> Seq<u32> {
        self.triangles@
    }

    closed spec fn gl_model(&self) -> Seq<Seq<u32>> {
        self.model_view@
    }

    fn to_gl_triangles_vertices(&self) -> (r: Vec<u32>) {
        let r = self.vertices.clone();
        proof {
            assert(r@ =~= self.vertices@);
        }
        r
    }

    fn to_gl_triangles_indices(&self) -> (r: Vec<u32>) {
        proof {
            use_type_invariant(&*self);
        }
        let r = self.triangles.clone();
        proof {
            assert(r@ =~= self.triangles@);
        }
        r
    }

    fn to_model_view_mat4(&self) -> (r: Vec<u32>) {
        proof {
            use_type_invariant(&*self);
            use_type_invariant(&self.model_view);
        }
        flatten(&self.model_view)
    }
}

/// The closed set of geometry kinds the render context can register.
pub enum Drawable {
    /// A parametric axis-aligned box.
    Cube(Cube),
    /// A mesh ingested from an external triangle source.
    Mesh(Mesh),
}

impl Drawable {
    /// Replaces the model transform wholesale; the geometry is untouched.
    pub fn set_model_view(&mut self, m: Mat4)
        ensures
            final(self).gl_model() == m@,
            final(self).gl_vertices() == old(self).gl_vertices(),
            final(self).gl_indices() == old(self).gl_indices(),
    {
        match self {
            Drawable::Cube(c) => c.set_model_view(m),
            Drawable::Mesh(s) => s.set_model_view(m),
        }
    }
}

impl WebGlTriangles for Drawable {
    open spec fn gl_vertices(&self) -> Seq<u32> {
        match self {
            Drawable::Cube(c) => c.gl_vertices(),
            Drawable::Mesh(s) => s.gl_vertices(),
        }
    }

    open spec fn gl_indices(&self) -> Seq<u32> {
        match self {
            Drawable::Cube(c) => c.gl_indices(),
            Drawable::Mesh(s) => s.gl_indices(),
        }
    }

    open spec fn gl_model(&self) -> Seq<Seq<u32>> {
        match self {
            Drawable::Cube(c) => c.gl_model(),
            Drawable::Mesh(s) => s.gl_model(),
        }
    }

    fn to_gl_triangles_vertices(&self) -> (r: Vec<u32>) {
        match self {
            Drawable::Cube(c) => c.to_gl_triangles_vertices(),
            Drawable::Mesh(s) => s.to_gl_triangles_vertices(),
        }
    }

    fn to_gl_triangles_indices(&self) -> (r: Vec<u32>) {
        match self {
            Drawable::Cube(c) => c.to_gl_triangles_indices(),
            Drawable::Mesh(s) => s.to_gl_triangles_indices(),
        }
    }

    fn to_model_view_mat4(&self) -> (r: Vec<u32>) {
        match self {
            Drawable::Cube(c) => c.to_model_view_mat4(),
            Drawable::Mesh(s) => s.to_model_view_mat4(),
        }
    }
}

} // verus!
