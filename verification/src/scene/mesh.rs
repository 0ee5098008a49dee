use vstd::prelude::*;
use crate::renderer::material::{Material, MaterialView};
use crate::renderer::wgpu_handles::Buffer;
use crate::scene::object3d::{Object3D, Object3DObject, Object3DObjectView, Object3DView};
use crate::util::matrix_util::{identity, identity_matrix, ONE};

verus! {

/// Geometry with a material. The vertex array holds twelve words for each
/// vertex: position, normal and texture coordinates of four single-precision
/// numbers each, by their bit patterns. The index array holds the corners of
/// the triangles. The two device buffers are made once, from the arrays as
/// they are then; changed geometry is a new mesh.
#[derive(Debug)]
pub struct Mesh {
    pub vertex_array: Vec<u32>,
    pub index_array: Vec<u32>,
    pub material: Material,
    pub vertex_buffer: Option<Buffer>,
    pub index_buffer: Option<Buffer>,
}

/// A mesh as a value.
pub struct MeshView {
    pub vertex_array: Seq<u32>,
    pub index_array: Seq<u32>,
    pub material: MaterialView,
    pub vertex_buffer: Option<Buffer>,
    pub index_buffer: Option<Buffer>,
}

impl View for Mesh {
    type V = MeshView;

    open spec fn view(&self) -> MeshView {
        MeshView {
            vertex_array: self.vertex_array@,
            index_array: self.index_array@,
            material: self.material@,
            vertex_buffer: self.vertex_buffer,
            index_buffer: self.index_buffer,
        }
    }
}

impl Mesh {
    /// A childless node at the identity that carries a new mesh of the given
    /// arrays and material. Nothing of it is on the device yet.
    pub fn new_object_3d(
        name: Option<String>,
        vertex_array: Vec<u32>,
        index_array: Vec<u32>,
        material: Material,
    ) -> (node: Object3D)
        ensures
            node@ == (Object3DView {
                name: match name {
                    Some(n) => Some(n@),
                    None => None,
                },
                matrix: identity(),
                object: Object3DObjectView::Mesh(
                    MeshView {
                        vertex_array: vertex_array@,
                        index_array: index_array@,
                        material: material@,
                        vertex_buffer: None,
                        index_buffer: None,
                    },
                ),
                children: Seq::empty(),
                matrix_bind_group: None,
                matrix_buffer: None,
            }),
    {
        let mesh = Mesh { vertex_array, index_array, material, vertex_buffer: None, index_buffer: None };
        let node = Object3D {
            object: Object3DObject::Mesh(mesh),
            name,
            matrix: identity_matrix(),
            children: Vec::new(),
            matrix_bind_group: None,
            matrix_buffer: None,
        };
        assert(node@.children =~= Seq::empty());
        node
    }
}

/// One vertex as the vertex shader reads it: position, normal and texture
/// coordinates, four words each.
#[derive(Clone, Copy, Debug, PartialEq, Eq)]
pub struct VertexBufferObject {
    pub position: [u32; 4],
    pub normal: [u32; 4],
    pub uv: [u32; 4],
}

impl VertexBufferObject {
    /// The twelve words of the vertex.
    pub open spec fn words(self) -> Seq<u32> {
        self.position@ + self.normal@ + self.uv@
    }

    /// The vertex of a point, a direction and a pair of texture coordinates:
    /// the position gets the weight one, the normal the weight zero, and the
    /// texture coordinates are padded with zeros.
    pub fn new_from_slices(position: &[u32; 3], normal: &[u32; 3], uv: &[u32; 2]) -> (v: Self)
        ensures
            v.position@ == seq![position@[0], position@[1], position@[2], ONE],
            v.normal@ == seq![normal@[0], normal@[1], normal@[2], 0u32],
            v.uv@ == seq![uv@[0], uv@[1], 0u32, 0u32],
    {
        let v = VertexBufferObject {
            position: [position[0], position[1], position[2], ONE],
            normal: [normal[0], normal[1], normal[2], 0],
            uv: [uv[0], uv[1], 0, 0],
        };
        assert(v.position@ =~= seq![position@[0], position@[1], position@[2], ONE]);
        assert(v.normal@ =~= seq![normal@[0], normal@[1], normal@[2], 0u32]);
        assert(v.uv@ =~= seq![uv@[0], uv@[1], 0u32, 0u32]);
        v
    }
}

} // verus!
