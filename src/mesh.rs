use vstd::prelude::*;

verus! {

/// One face of a loaded mesh, as vertex indices into its object's vertex list.
/// Only triangles take part in rendering; points and lines are carried through
/// loading and ignored.
#[derive(Clone, Copy, Debug, PartialEq, Eq, Structural)]
pub enum Face {
    Point(usize),
    Line(usize, usize),
    Triangle(usize, usize, usize),
}

/// The three vertex indices of a triangle, in winding order.
#[derive(Clone, Copy, Debug, PartialEq, Eq, Structural)]
pub struct Triangle {
    pub a: usize,
    pub b: usize,
    pub c: usize,
}

/// Why a mesh could not be built.
#[derive(Clone, Copy, Debug, PartialEq, Eq, Structural)]
pub enum MeshError {
    /// The face at position `face` is a triangle naming the vertex `index`,
    /// which is not below the number of vertices.
    VertexOutOfRange { face: usize, index: usize },
}

impl Triangle {
    pub open spec fn in_range(self, n_vertices: nat) -> bool {
        &&& self.a < n_vertices
        &&& self.b < n_vertices
        &&& self.c < n_vertices
    }
}

/// The triangles among `faces`, in the order of the faces.
pub open spec fn triangles_of(faces: Seq<Face>) -> Seq<Triangle>
    decreases faces.len(),
{
    if faces.len() == 0 {
        Seq::empty()
    } else {
        let rest = triangles_of(faces.drop_last());
        match faces.last() {
            Face::Triangle(a, b, c) => rest.push(Triangle { a, b, c }),
            _ => rest,
        }
    }
}

/// A face names a vertex beyond the vertex list. Points and lines are never
/// rendered, so only triangles are held to the vertex count.
pub open spec fn face_out_of_range(f: Face, n_vertices: nat) -> bool {
    match f {
        Face::Triangle(a, b, c) => !(Triangle { a, b, c }).in_range(n_vertices),
        _ => false,
    }
}

/// The vertex index that puts a face out of range: the first of its three
/// corners that is not below the vertex count.
pub open spec fn offending_index(f: Face, n_vertices: nat) -> usize {
    match f {
        Face::Triangle(a, b, c) => if a >= n_vertices {
            a
        } else if b >= n_vertices {
            b
        } else {
            c
        },
        Face::Line(a, _) => a,
        Face::Point(a) => a,
    }
}

/// The triangles of one mesh object, each of whose corners is an index into
/// the object's vertex list of length `n_vertices`.
pub struct TriangleList {
    n_vertices: usize,
    triangles: Vec<Triangle>,
}

impl TriangleList {
    pub closed spec fn n_vertices(self) -> nat {
        self.n_vertices as nat
    }

    pub closed spec fn view(self) -> Seq<Triangle> {
        self.triangles@
    }

    pub open spec fn wf(self) -> bool {
        forall|i: int| 0 <= i < self@.len() ==> (#[trigger] self@[i]).in_range(self.n_vertices())
    }

    /// Collects the triangles among `faces` for an object of `n_vertices`
    /// vertices. Fails on the first triangle that names a vertex index not
    /// below `n_vertices`; a mesh that cannot be rendered is refused when it
    /// is built, not when a ray first meets it.
    pub fn from_faces(n_vertices: usize, faces: &Vec<Face>) -> (r: Result<TriangleList, MeshError>)
        ensures
            r is Ok <==> forall|j: int|
                0 <= j < faces@.len() ==> !face_out_of_range(#[trigger] faces@[j], n_vertices as nat),
            r matches Ok(list) ==> {
                &&& list.wf()
                &&& list.n_vertices() == n_vertices
                &&& list@ == triangles_of(faces@)
            },
            r matches Err(MeshError::VertexOutOfRange { face, index }) ==> {
                &&& face < faces@.len()
                &&& face_out_of_range(faces@[face as int], n_vertices as nat)
                &&& forall|j: int|
                    0 <= j < face ==> !face_out_of_range(#[trigger] faces@[j], n_vertices as nat)
                &&& index == offending_index(faces@[face as int], n_vertices as nat)
            },
    {
        let mut triangles: Vec<Triangle> = Vec::new();
        let mut i: usize = 0;
        while i < faces.len()
            invariant
                i <= faces@.len(),
                triangles@ == triangles_of(faces@.subrange(0, i as int)),
                forall|k: int|
                    0 <= k < triangles@.len() ==> (#[trigger] triangles@[k]).in_range(
                        n_vertices as nat,
                    ),
                forall|j: int|
                    0 <= j < i ==> !face_out_of_range(#[trigger] faces@[j], n_vertices as nat),
            decreases faces@.len() - i,
        {
            let f = faces[i];
            proof {
                assert(faces@.subrange(0, i + 1).drop_last() =~= faces@.subrange(0, i as int));
                assert(faces@.subrange(0, i + 1).last() == f);
            }
            match f {
                Face::Triangle(a, b, c) => {
                    if a >= n_vertices {
                        return Err(MeshError::VertexOutOfRange { face: i, index: a });
                    }
                    if b >= n_vertices {
                        return Err(MeshError::VertexOutOfRange { face: i, index: b });
                    }
                    if c >= n_vertices {
                        return Err(MeshError::VertexOutOfRange { face: i, index: c });
                    }
                    triangles.push(Triangle { a, b, c });
                },
                _ => {},
            }
            i = i + 1;
        }
        proof {
            assert(faces@.subrange(0, faces@.len() as int) =~= faces@);
        }
        Ok(TriangleList { n_vertices, triangles })
    }

    /// Number of vertices the triangles index into.
    pub fn vertex_count(&self) -> (n: usize)
        ensures
            n == self.n_vertices(),
    {
        self.n_vertices
    }

    /// Number of triangles.
    pub fn len(&self) -> (n: usize)
        ensures
            n == self@.len(),
    {
        self.triangles.len()
    }

    /// The triangle at position `i`.
    pub fn get(&self, i: usize) -> (t: Triangle)
        requires
            i < self@.len(),
        ensures
            t == self@[i as int],
            self.wf() ==> t.in_range(self.n_vertices()),
    {
        self.triangles[i]
    }
}

} // verus!
