use vstd::prelude::*;
use crate::renderer::draw_state::DrawState;
use crate::renderer::material::{material_written, Material, MaterialManager};
use crate::renderer::staging_belt_and_command_encoder::{
    transform_write, BufferWriteView, StagingBeltAndCommandEncoder, Uploads,
};
use crate::renderer::wgpu_handles::{
    filled_buffer, index_usage, single_binding, uniform_buffer, vertex_usage, BindGroup,
    BindGroupLabel, BindGroupLayout, Buffer, BufferLabel, BufferUsages, DeviceView, WgpuHandles,
};
use crate::scene::mesh::{Mesh, MeshView};
use crate::util::matrix_util::{identity, identity_matrix, MuckableMatrix};

verus! {

/// What a node carries.
#[derive(Debug)]
pub enum Object3DObject {
    Empty,
    Scene,
    Mesh(Mesh),
}

/// A node's payload as a value.
pub enum Object3DObjectView {
    Empty,
    Scene,
    Mesh(MeshView),
}

impl View for Object3DObject {
    type V = Object3DObjectView;

    open spec fn view(&self) -> Object3DObjectView {
        match self {
            Object3DObject::Empty => Object3DObjectView::Empty,
            Object3DObject::Scene => Object3DObjectView::Scene,
            Object3DObject::Mesh(mesh) => Object3DObjectView::Mesh(mesh@),
        }
    }
}

/// A node of the scene graph. It owns its children, so the graph is a tree.
/// Its matrix places it relative to its parent. Its buffer and bind group
/// carry its transform on the device; once made they stay, and only what the
/// buffer holds changes from frame to frame.
#[derive(Debug)]
pub struct Object3D {
    pub name: Option<String>,
    pub matrix: MuckableMatrix,
    pub object: Object3DObject,
    pub children: Vec<Object3D>,
    pub matrix_bind_group: Option<BindGroup>,
    pub matrix_buffer: Option<Buffer>,
}

/// A node and all below it as a value.
pub struct Object3DView {
    pub name: Option<Seq<char>>,
    pub matrix: MuckableMatrix,
    pub object: Object3DObjectView,
    pub children: Seq<Object3DView>,
    pub matrix_bind_group: Option<BindGroup>,
    pub matrix_buffer: Option<Buffer>,
}

/// The value of a node: its own fields, and the values of its children in
/// order.
pub open spec fn object_3d_view(node: Object3D) -> Object3DView
    decreases node,
{
    Object3DView {
        name: match node.name {
            Some(n) => Some(n@),
            None => None,
        },
        matrix: node.matrix,
        object: node.object@,
        children: Seq::new(
            node.children@.len(),
            |i: int|
                if 0 <= i < node.children@.len() {
                    object_3d_view(node.children@[i])
                } else {
                    arbitrary()
                },
        ),
        matrix_bind_group: node.matrix_bind_group,
        matrix_buffer: node.matrix_buffer,
    }
}

impl View for Object3D {
    type V = Object3DView;

    open spec fn view(&self) -> Object3DView {
        object_3d_view(*self)
    }
}

/// The value of a node has a child for each child of the node, and that
/// child is the child's value.
pub proof fn lemma_view_children(node: Object3D)
    ensures
        node@.children.len() == node.children@.len(),
        forall|j: int| 0 <= j < node.children@.len() ==> #[trigger] node@.children[j] == node.children@[j]@,
        node@.name == match node.name {
            Some(n) => Some(n@),
            None => None,
        },
        node@.matrix == node.matrix,
        node@.object == node.object@,
        node@.matrix_bind_group == node.matrix_bind_group,
        node@.matrix_buffer == node.matrix_buffer,
{
}

/// A node without name, payload or children, at the identity and with
/// nothing on the device.
pub open spec fn empty_node() -> Object3DView {
    Object3DView {
        name: None,
        matrix: identity(),
        object: Object3DObjectView::Empty,
        children: Seq::empty(),
        matrix_bind_group: None,
        matrix_buffer: None,
    }
}

impl Object3DView {
    /// A node can be drawn exactly when it carries a mesh.
    pub open spec fn is_drawable(self) -> bool {
        self.object is Mesh
    }
}

impl Object3D {
    /// The empty node.
    pub fn create_empty() -> (node: Self)
        ensures
            node@ == empty_node(),
    {
        let node = Self {
            name: None,
            matrix: identity_matrix(),
            object: Object3DObject::Empty,
            children: Vec::new(),
            matrix_bind_group: None,
            matrix_buffer: None,
        };
        assert(node@.children =~= Seq::empty());
        node
    }

    /// Whether the node can be drawn.
    pub fn is_drawable(&self) -> (r: bool)
        ensures
            r == self@.is_drawable(),
    {
        matches!(&self.object, Object3DObject::Mesh(_))
    }
}

} // verus!

verus! {

/// A mesh and the device after the mesh's geometry has been looked after. A
/// mesh that has its vertex buffer is left alone. One that has not gets two
/// new buffers: a vertex buffer filled with its vertex array, and after it
/// an index buffer filled with its index array.
pub open spec fn mesh_uploaded(mesh: MeshView, device: DeviceView) -> (MeshView, DeviceView) {
    if mesh.vertex_buffer is Some {
        (mesh, device)
    } else {
        (
            MeshView {
                vertex_buffer: Some(Buffer { id: device.buffers.len() as usize }),
                index_buffer: Some(Buffer { id: (device.buffers.len() + 1) as usize }),
                ..mesh
            },
            device.with_buffer(
                filled_buffer(BufferLabel::MeshVertexBuffer, vertex_usage(), mesh.vertex_array),
            ).with_buffer(
                filled_buffer(BufferLabel::MeshIndexBuffer, index_usage(), mesh.index_array),
            ),
        )
    }
}

/// A node and the device after the geometry of the node itself has been
/// looked after; its children are as they were.
pub open spec fn object_3d_single_written(node: Object3DView, device: DeviceView) -> (
    Object3DView,
    DeviceView,
) {
    match node.object {
        Object3DObjectView::Mesh(mesh) => (
            Object3DView { object: Object3DObjectView::Mesh(mesh_uploaded(mesh, device).0), ..node },
            mesh_uploaded(mesh, device).1,
        ),
        _ => (node, device),
    }
}

/// A tree and the device after the geometry pass: the node first, then its
/// children from first to last, each with all below it.
pub open spec fn object_3d_written(node: Object3DView, device: DeviceView) -> (
    Object3DView,
    DeviceView,
)
    decreases node, 1nat,
{
    let own = object_3d_single_written(node, device);
    let below = object_3d_children_written(node.children, own.1, node.children.len());
    (Object3DView { children: below.0, ..own.0 }, below.1)
}

/// The first `upto` of `children` and the device after the geometry pass
/// has gone through them in order.
pub open spec fn object_3d_children_written(
    children: Seq<Object3DView>,
    device: DeviceView,
    upto: nat,
) -> (Seq<Object3DView>, DeviceView)
    decreases children, 0nat, upto,
{
    if upto == 0 || upto > children.len() {
        (Seq::empty(), device)
    } else {
        let before = object_3d_children_written(children, device, (upto - 1) as nat);
        let child = object_3d_written(children[upto - 1], before.1);
        (before.0.push(child.0), child.1)
    }
}

/// Whether every mesh of the tree has its vertex buffer.
pub open spec fn geometry_present(node: Object3DView) -> bool
    decreases node,
{
    &&& node.object matches Object3DObjectView::Mesh(mesh) ==> mesh.vertex_buffer is Some
    &&& forall|i: int| 0 <= i < node.children.len() ==> geometry_present(#[trigger] node.children[i])
}

impl MaterialManager {
    /// Looks after the geometry of one node: a mesh without vertex buffer
    /// gets its buffers, anything else is left alone.
    pub fn write_object_3d_single(&self, object_3d: &mut Object3D, wgpu_handles: &mut WgpuHandles)
        ensures
            final(object_3d)@ == object_3d_single_written(
                old(object_3d)@,
                old(wgpu_handles).device@,
            ).0,
            final(wgpu_handles).device@ == object_3d_single_written(
                old(object_3d)@,
                old(wgpu_handles).device@,
            ).1,
            final(object_3d).children == old(object_3d).children,
    {
        match &mut object_3d.object {
            Object3DObject::Mesh(mesh) => {
                if mesh.vertex_buffer.is_some() {
                    return ;
                }
                let vertex_buffer = wgpu_handles.device.create_buffer_init(
                    BufferLabel::MeshVertexBuffer,
                    BufferUsages { vertex: true, index: false, uniform: false, copy_dst: true },
                    &mesh.vertex_array,
                );
                mesh.vertex_buffer = Some(vertex_buffer);
                let index_buffer = wgpu_handles.device.create_buffer_init(
                    BufferLabel::MeshIndexBuffer,
                    BufferUsages { vertex: false, index: true, uniform: false, copy_dst: true },
                    &mesh.index_array,
                );
                mesh.index_buffer = Some(index_buffer);
            },
            _ => {},
        }
        proof {
            lemma_view_children(*object_3d);
            lemma_view_children(*old(object_3d));
            assert(object_3d@.children =~= old(object_3d)@.children);
        }
    }

    /// The geometry pass: gives every mesh of the tree that has no vertex
    /// buffer its buffers, filled from the arrays as they are now. A mesh
    /// that has one is left alone, so running the pass again changes
    /// nothing.
    pub fn write_object_3d(&self, object_3d: &mut Object3D, wgpu_handles: &mut WgpuHandles)
        ensures
            final(object_3d)@ == object_3d_written(old(object_3d)@, old(wgpu_handles).device@).0,
            final(wgpu_handles).device@ == object_3d_written(
                old(object_3d)@,
                old(wgpu_handles).device@,
            ).1,
        decreases *old(object_3d),
    {
        self.write_object_3d_single(object_3d, wgpu_handles);
        let ghost before = old(object_3d)@;
        let ghost own = object_3d_single_written(before, old(wgpu_handles).device@);
        proof {
            lemma_view_children(*object_3d);
            lemma_view_children(*old(object_3d));
            assert(object_3d@.children == before.children);
        }
        let n: usize = object_3d.children.len();
        let mut i: usize = 0;
        while i < n
            invariant
                i <= n,
                n == object_3d.children@.len(),
                n == before.children.len(),
                before == old(object_3d)@,
                own == object_3d_single_written(before, old(wgpu_handles).device@),
                object_3d@.name == own.0.name,
                object_3d@.matrix == own.0.matrix,
                object_3d@.object == own.0.object,
                object_3d@.matrix_bind_group == own.0.matrix_bind_group,
                object_3d@.matrix_buffer == own.0.matrix_buffer,
                forall|j: int|
                    0 <= j < i ==> object_3d.children@[j]@ == #[trigger] object_3d_children_written(
                        before.children,
                        own.1,
                        i as nat,
                    ).0[j],
                object_3d_children_written(before.children, own.1, i as nat).0.len() == i,
                wgpu_handles.device@ == object_3d_children_written(before.children, own.1, i as nat).1,
                forall|j: int|
                    i <= j < n ==> object_3d.children@[j]@ == #[trigger] before.children[j],
                forall|j: int|
                    i <= j < n ==> decreases_to!(*old(object_3d) => #[trigger] object_3d.children@[j]),
            decreases n - i,
        {
            let ghost done = object_3d_children_written(before.children, own.1, i as nat);
            let ghost children_before = object_3d.children@;
            self.write_object_3d(&mut object_3d.children[i], wgpu_handles);
            proof {
                let next = object_3d_children_written(before.children, own.1, (i + 1) as nat);
                assert(next.0 == done.0.push(object_3d_written(before.children[i as int], done.1).0));
                assert(object_3d.children@ == children_before.update(i as int, object_3d.children@[i as int]));
                lemma_view_children(*object_3d);
            }
            i += 1;
        }
        proof {
            let below = object_3d_children_written(before.children, own.1, n as nat);
            lemma_view_children(*object_3d);
            assert(object_3d@.children =~= below.0);
        }
    }
}

} // verus!

verus! {

/// After the geometry pass every mesh of the tree has its vertex buffer.
pub proof fn lemma_written_geometry_present(node: Object3DView, device: DeviceView)
    ensures
        geometry_present(object_3d_written(node, device).0),
    decreases node, 1nat,
{
    let own = object_3d_single_written(node, device);
    lemma_written_children_geometry_present(node.children, own.1, node.children.len());
}

/// After the geometry pass has gone through the first `upto` children, there
/// are `upto` of them and every mesh below them has its vertex buffer.
pub proof fn lemma_written_children_geometry_present(
    children: Seq<Object3DView>,
    device: DeviceView,
    upto: nat,
)
    requires
        upto <= children.len(),
    ensures
        object_3d_children_written(children, device, upto).0.len() == upto,
        forall|j: int|
            0 <= j < upto ==> geometry_present(
                #[trigger] object_3d_children_written(children, device, upto).0[j],
            ),
    decreases children, 0nat, upto,
{
    if upto > 0 {
        let before = object_3d_children_written(children, device, (upto - 1) as nat);
        lemma_written_children_geometry_present(children, device, (upto - 1) as nat);
        lemma_written_geometry_present(children[upto - 1], before.1);
    }
}

/// Where every mesh has its vertex buffer, the geometry pass changes neither
/// the tree nor the device.
pub proof fn lemma_written_when_present(node: Object3DView, device: DeviceView)
    requires
        geometry_present(node),
    ensures
        object_3d_written(node, device) == (node, device),
    decreases node, 1nat,
{
    lemma_children_written_when_present(node.children, device, node.children.len());
    assert(node.children.take(node.children.len() as int) =~= node.children);
}

/// Where every mesh below the children has its vertex buffer, the geometry
/// pass leaves the children and the device as they are.
pub proof fn lemma_children_written_when_present(
    children: Seq<Object3DView>,
    device: DeviceView,
    upto: nat,
)
    requires
        upto <= children.len(),
        forall|i: int| 0 <= i < children.len() ==> geometry_present(#[trigger] children[i]),
    ensures
        object_3d_children_written(children, device, upto) == (children.take(upto as int), device),
    decreases children, 0nat, upto,
{
    if upto > 0 {
        lemma_children_written_when_present(children, device, (upto - 1) as nat);
        lemma_written_when_present(children[upto - 1], device);
        assert(children.take(upto as int) =~= children.take(upto - 1).push(children[upto - 1]));
    } else {
        assert(children.take(0) =~= Seq::<Object3DView>::empty());
    }
}

/// Geometry is uploaded once: a second geometry pass, whatever has been
/// asked of the device in between, leaves the tree as the first pass left
/// it, every buffer handle included, and asks nothing more of the device.
pub proof fn lemma_write_object_3d_idempotent(
    node: Object3DView,
    device: DeviceView,
    later: DeviceView,
)
    ensures
        object_3d_written(object_3d_written(node, device).0, later) == (
            object_3d_written(node, device).0,
            later,
        ),
{
    lemma_written_geometry_present(node, device);
    lemma_written_when_present(object_3d_written(node, device).0, later);
}

} // verus!

verus! {

/// A tree and the uploads after the transform pass has gone through the
/// tree under the cumulative transform `above`. The node's own cumulative
/// transform is its matrix times `above`, the matrix on the left. The node
/// makes sure of its buffer of 128 bytes and of its bind group onto that
/// buffer, writes the cumulative transform and its inverse to the buffer,
/// and hands the cumulative transform down to each child in turn.
pub open spec fn matrices_written(
    node: Object3DView,
    layout: BindGroupLayout,
    above: Seq<MuckableMatrix>,
    uploads: Uploads,
) -> (Object3DView, Uploads)
    decreases node, 1nat,
{
    let cumulative = above.push(node.matrix);
    let buffer = uploads.device.buffer_or_new(node.matrix_buffer);
    let with_buffer = uploads.device.ensuring_buffer(
        node.matrix_buffer,
        uniform_buffer(BufferLabel::MatrixBuffer, 128),
    );
    let group = with_buffer.bind_group_or_new(node.matrix_bind_group);
    let own = Uploads {
        device: with_buffer.ensuring_bind_group(
            node.matrix_bind_group,
            single_binding(BindGroupLabel::MatrixBindGroup, layout, buffer, Some(128u64)),
        ),
        writes: uploads.writes.push(transform_write(buffer, cumulative)),
    };
    let below = matrices_children_written(
        node.children,
        layout,
        cumulative,
        own,
        node.children.len(),
    );
    (
        Object3DView {
            matrix_buffer: Some(buffer),
            matrix_bind_group: Some(group),
            children: below.0,
            ..node
        },
        below.1,
    )
}

/// The first `upto` of `children` and the uploads after the transform pass
/// has gone through them in order, each under the transform `above`.
pub open spec fn matrices_children_written(
    children: Seq<Object3DView>,
    layout: BindGroupLayout,
    above: Seq<MuckableMatrix>,
    uploads: Uploads,
    upto: nat,
) -> (Seq<Object3DView>, Uploads)
    decreases children, 0nat, upto,
{
    if upto == 0 || upto > children.len() {
        (Seq::empty(), uploads)
    } else {
        let before = matrices_children_written(children, layout, above, uploads, (upto - 1) as nat);
        let child = matrices_written(children[upto - 1], layout, above, before.1);
        (before.0.push(child.0), child.1)
    }
}

impl Object3D {
    /// The transform pass, run every frame. For the node and then for each
    /// child, depth first: the cumulative transform is the node's matrix
    /// times the transform on top of the stack, the matrix on the left; the
    /// node's buffer and bind group are made if they are not there and kept
    /// if they are; the cumulative transform and its inverse are written to
    /// the buffer. The stack is left as it was found.
    pub fn write_matrices(
        &mut self,
        wgpu_handles: &mut WgpuHandles,
        material_manager: &MaterialManager,
        draw_state: &mut DrawState,
        staging_belt: &mut StagingBeltAndCommandEncoder,
    )
        requires
            old(draw_state)@.matrix_stack.len() > 0,
            material_manager.matrix_bind_group_layout is Some,
        ensures
            final(self)@ == matrices_written(
                old(self)@,
                material_manager.matrix_bind_group_layout->0,
                old(draw_state)@.matrix_stack.last(),
                Uploads { device: old(wgpu_handles).device@, writes: old(staging_belt)@.writes },
            ).0,
            (Uploads { device: final(wgpu_handles).device@, writes: final(staging_belt)@.writes })
                == matrices_written(
                old(self)@,
                material_manager.matrix_bind_group_layout->0,
                old(draw_state)@.matrix_stack.last(),
                Uploads { device: old(wgpu_handles).device@, writes: old(staging_belt)@.writes },
            ).1,
            final(draw_state)@ == old(draw_state)@,
            final(staging_belt)@.render_passes == old(staging_belt)@.render_passes,
        decreases *old(self),
    {
        let ghost before = old(self)@;
        let ghost layout = material_manager.matrix_bind_group_layout->0;
        let ghost above = old(draw_state)@.matrix_stack.last();
        let ghost uploads = Uploads {
            device: old(wgpu_handles).device@,
            writes: old(staging_belt)@.writes,
        };
        let ghost cumulative = above.push(before.matrix);
        proof {
            lemma_view_children(*self);
        }
        draw_state.push_matrix();
        draw_state.transform(&self.matrix);
        let matrix_buffer = wgpu_handles.device.buffer_or_create(
            &mut self.matrix_buffer,
            BufferLabel::MatrixBuffer,
            128,
        );
        wgpu_handles.device.bind_group_or_create(
            &mut self.matrix_bind_group,
            BindGroupLabel::MatrixBindGroup,
            material_manager.matrix_bind_group_layout.unwrap(),
            matrix_buffer,
            Some(128),
        );
        staging_belt.write_transform(&matrix_buffer, draw_state.get_matrix());
        let ghost own = Uploads { device: wgpu_handles.device@, writes: staging_belt@.writes };
        let ghost stack = draw_state@.matrix_stack;
        proof {
            assert(stack == old(draw_state)@.matrix_stack.push(cumulative));
        }
        let n: usize = self.children.len();
        let mut i: usize = 0;
        while i < n
            invariant
                i <= n,
                n == self.children@.len(),
                n == before.children.len(),
                before == old(self)@,
                material_manager.matrix_bind_group_layout == Some(layout),
                self.name == old(self).name,
                self.matrix == old(self).matrix,
                self.object == old(self).object,
                self.matrix_buffer == Some(uploads.device.buffer_or_new(before.matrix_buffer)),
                self.matrix_bind_group == Some(
                    uploads.device.ensuring_buffer(
                        before.matrix_buffer,
                        uniform_buffer(BufferLabel::MatrixBuffer, 128),
                    ).bind_group_or_new(before.matrix_bind_group),
                ),
                draw_state@.matrix_stack == stack,
                stack.len() > 0,
                stack.last() == cumulative,
                draw_state@.current_material == old(draw_state)@.current_material,
                staging_belt@.render_passes == old(staging_belt)@.render_passes,
                forall|j: int|
                    0 <= j < i ==> self.children@[j]@ == #[trigger] matrices_children_written(
                        before.children,
                        layout,
                        cumulative,
                        own,
                        i as nat,
                    ).0[j],
                matrices_children_written(before.children, layout, cumulative, own, i as nat).0.len()
                    == i,
                (Uploads { device: wgpu_handles.device@, writes: staging_belt@.writes })
                    == matrices_children_written(
                    before.children,
                    layout,
                    cumulative,
                    own,
                    i as nat,
                ).1,
                forall|j: int| i <= j < n ==> self.children@[j]@ == #[trigger] before.children[j],
                forall|j: int|
                    i <= j < n ==> decreases_to!(*old(self) => #[trigger] self.children@[j]),
            decreases n - i,
        {
            let ghost done = matrices_children_written(
                before.children,
                layout,
                cumulative,
                own,
                i as nat,
            );
            let ghost children_before = self.children@;
            self.children[i].write_matrices(wgpu_handles, material_manager, draw_state, staging_belt);
            proof {
                let next = matrices_children_written(
                    before.children,
                    layout,
                    cumulative,
                    own,
                    (i + 1) as nat,
                );
                assert(next.0 == done.0.push(
                    matrices_written(before.children[i as int], layout, cumulative, done.1).0,
                ));
                assert(self.children@ == children_before.update(i as int, self.children@[i as int]));
            }
            i += 1;
        }
        draw_state.pop_matrix();
        proof {
            let below = matrices_children_written(before.children, layout, cumulative, own, n as nat);
            lemma_view_children(*self);
            assert(self@.children =~= below.0);
            assert(draw_state@.matrix_stack =~= old(draw_state)@.matrix_stack);
        }
    }
}

} // verus!

verus! {

/// Whether no mesh of the tree has a textured material.
pub open spec fn textures_absent(node: Object3DView) -> bool
    decreases node,
{
    &&& node.object matches Object3DObjectView::Mesh(mesh) ==> mesh.material is PhongMaterial
    &&& forall|i: int| 0 <= i < node.children.len() ==> textures_absent(#[trigger] node.children[i])
}

/// A node and the uploads after the material of the node itself has been
/// written; its children are as they were.
pub open spec fn own_material_written(
    node: Object3DView,
    layout: BindGroupLayout,
    uploads: Uploads,
) -> (Object3DView, Uploads) {
    match node.object {
        Object3DObjectView::Mesh(mesh) => (
            Object3DView {
                object: Object3DObjectView::Mesh(
                    MeshView { material: material_written(mesh.material, layout, uploads).0, ..mesh },
                ),
                ..node
            },
            material_written(mesh.material, layout, uploads).1,
        ),
        _ => (node, uploads),
    }
}

/// A tree and the uploads after the material pass: the node's material
/// first, then the children from first to last, each with all below it.
pub open spec fn materials_written(
    node: Object3DView,
    layout: BindGroupLayout,
    uploads: Uploads,
) -> (Object3DView, Uploads)
    decreases node, 1nat,
{
    let own = own_material_written(node, layout, uploads);
    let below = materials_children_written(node.children, layout, own.1, node.children.len());
    (Object3DView { children: below.0, ..own.0 }, below.1)
}

/// The first `upto` of `children` and the uploads after the material pass
/// has gone through them in order.
pub open spec fn materials_children_written(
    children: Seq<Object3DView>,
    layout: BindGroupLayout,
    uploads: Uploads,
    upto: nat,
) -> (Seq<Object3DView>, Uploads)
    decreases children, 0nat, upto,
{
    if upto == 0 || upto > children.len() {
        (Seq::empty(), uploads)
    } else {
        let before = materials_children_written(children, layout, uploads, (upto - 1) as nat);
        let child = materials_written(children[upto - 1], layout, before.1);
        (before.0.push(child.0), child.1)
    }
}

impl Object3D {
    /// The material pass, run every frame: writes the material of every
    /// mesh of the tree, depth first, whether it has changed or not. No mesh
    /// of the tree is textured, and the catalog is filled.
    pub fn write_materials(
        &mut self,
        wgpu_handles: &mut WgpuHandles,
        material_manager: &MaterialManager,
        staging_belt: &mut StagingBeltAndCommandEncoder,
    )
        requires
            textures_absent(old(self)@),
            material_manager.material_bind_group_layouts@.len() > 0,
        ensures
            final(self)@ == materials_written(
                old(self)@,
                material_manager.material_bind_group_layouts@[0],
                Uploads { device: old(wgpu_handles).device@, writes: old(staging_belt)@.writes },
            ).0,
            (Uploads { device: final(wgpu_handles).device@, writes: final(staging_belt)@.writes })
                == materials_written(
                old(self)@,
                material_manager.material_bind_group_layouts@[0],
                Uploads { device: old(wgpu_handles).device@, writes: old(staging_belt)@.writes },
            ).1,
            final(staging_belt)@.render_passes == old(staging_belt)@.render_passes,
        decreases *old(self),
    {
        let ghost before = old(self)@;
        let ghost layout = material_manager.material_bind_group_layouts@[0];
        let ghost uploads = Uploads {
            device: old(wgpu_handles).device@,
            writes: old(staging_belt)@.writes,
        };
        proof {
            lemma_view_children(*self);
        }
        match &mut self.object {
            Object3DObject::Mesh(mesh) => {
                material_manager.write_material(&mut mesh.material, wgpu_handles, staging_belt);
            },
            _ => {},
        }
        let ghost own = own_material_written(before, layout, uploads);
        let n: usize = self.children.len();
        let mut i: usize = 0;
        while i < n
            invariant
                i <= n,
                n == self.children@.len(),
                n == before.children.len(),
                before == old(self)@,
                textures_absent(before),
                material_manager.material_bind_group_layouts@.len() > 0,
                material_manager.material_bind_group_layouts@[0] == layout,
                self.name == old(self).name,
                self.matrix == old(self).matrix,
                self.object@ == own.0.object,
                self.matrix_buffer == old(self).matrix_buffer,
                self.matrix_bind_group == old(self).matrix_bind_group,
                staging_belt@.render_passes == old(staging_belt)@.render_passes,
                forall|j: int|
                    0 <= j < i ==> self.children@[j]@ == #[trigger] materials_children_written(
                        before.children,
                        layout,
                        own.1,
                        i as nat,
                    ).0[j],
                materials_children_written(before.children, layout, own.1, i as nat).0.len() == i,
                (Uploads { device: wgpu_handles.device@, writes: staging_belt@.writes })
                    == materials_children_written(before.children, layout, own.1, i as nat).1,
                forall|j: int| i <= j < n ==> self.children@[j]@ == #[trigger] before.children[j],
                forall|j: int|
                    i <= j < n ==> decreases_to!(*old(self) => #[trigger] self.children@[j]),
            decreases n - i,
        {
            let ghost done = materials_children_written(before.children, layout, own.1, i as nat);
            let ghost children_before = self.children@;
            assert(textures_absent(before.children[i as int]));
            self.children[i].write_materials(wgpu_handles, material_manager, staging_belt);
            proof {
                let next = materials_children_written(
                    before.children,
                    layout,
                    own.1,
                    (i + 1) as nat,
                );
                assert(next.0 == done.0.push(
                    materials_written(before.children[i as int], layout, done.1).0,
                ));
                assert(self.children@ == children_before.update(i as int, self.children@[i as int]));
            }
            i += 1;
        }
        proof {
            let below = materials_children_written(before.children, layout, own.1, n as nat);
            lemma_view_children(*self);
            assert(self@.children =~= below.0);
        }
    }
}

} // verus!

verus! {

/// How far a tree has come on its way to being drawn. At every stage each
/// mesh is a Phong mesh without texture, has no more indices than one draw
/// call can count, and has its index buffer if it has its vertex buffer: the
/// two are made together. From the stage one on each mesh has its vertex and
/// index buffers, from the stage two on each node has the buffer and the
/// bind group of its transform, and from the stage three on each material
/// has its buffer and its bind group.
pub open spec fn prepared(node: Object3DView, stage: nat) -> bool
    decreases node,
{
    &&& node.object matches Object3DObjectView::Mesh(mesh) ==> {
        &&& mesh.material is PhongMaterial
        &&& mesh.index_array.len() <= u32::MAX
        &&& mesh.vertex_buffer is Some ==> mesh.index_buffer is Some
        &&& stage >= 1 ==> mesh.vertex_buffer is Some
        &&& stage >= 3 ==> mesh.material->PhongMaterial_0.buffer is Some
            && mesh.material->PhongMaterial_0.bind_group is Some
    }
    &&& stage >= 2 ==> node.matrix_buffer is Some && node.matrix_bind_group is Some
    &&& forall|i: int| 0 <= i < node.children.len() ==> prepared(#[trigger] node.children[i], stage)
}

/// Whether a tree can be rendered: it holds no textured mesh, no mesh with
/// more indices than one draw call can count, and no mesh with a vertex
/// buffer but without an index buffer.
pub open spec fn renderable(node: Object3DView) -> bool {
    prepared(node, 0)
}

/// A renderable tree has no textured mesh.
pub proof fn lemma_prepared_textures_absent(node: Object3DView, stage: nat)
    requires
        prepared(node, stage),
    ensures
        textures_absent(node),
    decreases node,
{
    assert forall|i: int| 0 <= i < node.children.len() implies textures_absent(
        #[trigger] node.children[i],
    ) by {
        lemma_prepared_textures_absent(node.children[i], stage);
    }
}

/// The geometry pass takes a renderable tree to the stage one.
pub proof fn lemma_written_prepared(node: Object3DView, device: DeviceView)
    requires
        prepared(node, 0),
    ensures
        prepared(object_3d_written(node, device).0, 1),
    decreases node, 1nat,
{
    let own = object_3d_single_written(node, device);
    lemma_written_children_prepared(node.children, own.1, node.children.len());
}

/// The geometry pass takes renderable children to the stage one.
pub proof fn lemma_written_children_prepared(
    children: Seq<Object3DView>,
    device: DeviceView,
    upto: nat,
)
    requires
        upto <= children.len(),
        forall|i: int| 0 <= i < children.len() ==> prepared(#[trigger] children[i], 0),
    ensures
        object_3d_children_written(children, device, upto).0.len() == upto,
        forall|j: int|
            0 <= j < upto ==> prepared(
                #[trigger] object_3d_children_written(children, device, upto).0[j],
                1,
            ),
    decreases children, 0nat, upto,
{
    if upto > 0 {
        let before = object_3d_children_written(children, device, (upto - 1) as nat);
        lemma_written_children_prepared(children, device, (upto - 1) as nat);
        lemma_written_prepared(children[upto - 1], before.1);
    }
}

/// The transform pass takes a tree of the stage one to the stage two.
pub proof fn lemma_matrices_written_prepared(
    node: Object3DView,
    layout: BindGroupLayout,
    above: Seq<MuckableMatrix>,
    uploads: Uploads,
)
    requires
        prepared(node, 1),
    ensures
        prepared(matrices_written(node, layout, above, uploads).0, 2),
    decreases node, 1nat,
{
    let cumulative = above.push(node.matrix);
    let buffer = uploads.device.buffer_or_new(node.matrix_buffer);
    let with_buffer = uploads.device.ensuring_buffer(
        node.matrix_buffer,
        uniform_buffer(BufferLabel::MatrixBuffer, 128),
    );
    let own = Uploads {
        device: with_buffer.ensuring_bind_group(
            node.matrix_bind_group,
            single_binding(BindGroupLabel::MatrixBindGroup, layout, buffer, Some(128u64)),
        ),
        writes: uploads.writes.push(transform_write(buffer, cumulative)),
    };
    lemma_matrices_children_written_prepared(
        node.children,
        layout,
        cumulative,
        own,
        node.children.len(),
    );
}

/// The transform pass takes children of the stage one to the stage two.
pub proof fn lemma_matrices_children_written_prepared(
    children: Seq<Object3DView>,
    layout: BindGroupLayout,
    above: Seq<MuckableMatrix>,
    uploads: Uploads,
    upto: nat,
)
    requires
        upto <= children.len(),
        forall|i: int| 0 <= i < children.len() ==> prepared(#[trigger] children[i], 1),
    ensures
        matrices_children_written(children, layout, above, uploads, upto).0.len() == upto,
        forall|j: int|
            0 <= j < upto ==> prepared(
                #[trigger] matrices_children_written(children, layout, above, uploads, upto).0[j],
                2,
            ),
    decreases children, 0nat, upto,
{
    if upto > 0 {
        let before = matrices_children_written(children, layout, above, uploads, (upto - 1) as nat);
        lemma_matrices_children_written_prepared(children, layout, above, uploads, (upto - 1) as nat);
        lemma_matrices_written_prepared(children[upto - 1], layout, above, before.1);
    }
}

/// The material pass takes a tree of the stage two to the stage three.
pub proof fn lemma_materials_written_prepared(
    node: Object3DView,
    layout: BindGroupLayout,
    uploads: Uploads,
)
    requires
        prepared(node, 2),
    ensures
        prepared(materials_written(node, layout, uploads).0, 3),
    decreases node, 1nat,
{
    let own = own_material_written(node, layout, uploads);
    lemma_materials_children_written_prepared(node.children, layout, own.1, node.children.len());
}

/// The material pass takes children of the stage two to the stage three.
pub proof fn lemma_materials_children_written_prepared(
    children: Seq<Object3DView>,
    layout: BindGroupLayout,
    uploads: Uploads,
    upto: nat,
)
    requires
        upto <= children.len(),
        forall|i: int| 0 <= i < children.len() ==> prepared(#[trigger] children[i], 2),
    ensures
        materials_children_written(children, layout, uploads, upto).0.len() == upto,
        forall|j: int|
            0 <= j < upto ==> prepared(
                #[trigger] materials_children_written(children, layout, uploads, upto).0[j],
                3,
            ),
    decreases children, 0nat, upto,
{
    if upto > 0 {
        let before = materials_children_written(children, layout, uploads, (upto - 1) as nat);
        lemma_materials_children_written_prepared(children, layout, uploads, (upto - 1) as nat);
        lemma_materials_written_prepared(children[upto - 1], layout, before.1);
    }
}

} // verus!

verus! {

/// The cumulative transforms of a tree under the transform `above`, node by
/// node in the order of the traversal: the node's own, which is its matrix
/// times `above` with the matrix on the left, then those of its children,
/// each under the node's own.
pub open spec fn cumulative_transforms(node: Object3DView, above: Seq<MuckableMatrix>) -> Seq<
    Seq<MuckableMatrix>,
>
    decreases node, 1nat,
{
    seq![above.push(node.matrix)] + children_cumulative_transforms(
        node.children,
        above.push(node.matrix),
        node.children.len(),
    )
}

/// The cumulative transforms of the first `upto` of `children` and of all
/// below them, each child under the transform `above`.
pub open spec fn children_cumulative_transforms(
    children: Seq<Object3DView>,
    above: Seq<MuckableMatrix>,
    upto: nat,
) -> Seq<Seq<MuckableMatrix>>
    decreases children, 0nat, upto,
{
    if upto == 0 || upto > children.len() {
        Seq::empty()
    } else {
        children_cumulative_transforms(children, above, (upto - 1) as nat) + cumulative_transforms(
            children[upto - 1],
            above,
        )
    }
}

/// The transforms that a run of writes carries, in order.
pub open spec fn transforms_of(writes: Seq<BufferWriteView>) -> Seq<Seq<MuckableMatrix>> {
    Seq::new(writes.len(), |i: int| writes[i].payload->MatrixAndInverse_0)
}

/// Whether every write of a run puts a transform with its inverse at the
/// start of its buffer.
pub open spec fn all_transforms(writes: Seq<BufferWriteView>) -> bool {
    forall|i: int|
        0 <= i < writes.len() ==> (#[trigger] writes[i]).payload is MatrixAndInverse
            && writes[i].offset == 0
}

/// The transform pass keeps the writes that were there and adds one for
/// each node, in the order of the traversal. Each puts a transform with its
/// inverse at the start of its buffer, and the transform is the node's
/// cumulative one: for a node with the matrix `l` whose parent's cumulative
/// transform is `p`, that is `l` times `p`, `l` on the left.
pub proof fn lemma_matrices_written_transforms(
    node: Object3DView,
    layout: BindGroupLayout,
    above: Seq<MuckableMatrix>,
    uploads: Uploads,
)
    ensures
        ({
            let after = matrices_written(node, layout, above, uploads).1.writes;
            let before = uploads.writes.len() as int;
            &&& after.len() >= before
            &&& after.take(before) == uploads.writes
            &&& all_transforms(after.skip(before))
            &&& transforms_of(after.skip(before)) == cumulative_transforms(node, above)
        }),
    decreases node, 1nat,
{
    let cumulative = above.push(node.matrix);
    let buffer = uploads.device.buffer_or_new(node.matrix_buffer);
    let with_buffer = uploads.device.ensuring_buffer(
        node.matrix_buffer,
        uniform_buffer(BufferLabel::MatrixBuffer, 128),
    );
    let own = Uploads {
        device: with_buffer.ensuring_bind_group(
            node.matrix_bind_group,
            single_binding(BindGroupLabel::MatrixBindGroup, layout, buffer, Some(128u64)),
        ),
        writes: uploads.writes.push(transform_write(buffer, cumulative)),
    };
    lemma_matrices_children_written_transforms(
        node.children,
        layout,
        cumulative,
        own,
        node.children.len(),
    );
    let after = matrices_written(node, layout, above, uploads).1.writes;
    let before = uploads.writes.len() as int;
    let below = children_cumulative_transforms(node.children, cumulative, node.children.len());
    assert(after.take(before) =~= own.writes.take(before));
    assert(own.writes.take(before) =~= uploads.writes);
    assert(after.skip(before)[0] == after.take(before + 1)[before]);
    assert(after.skip(before).skip(1) =~= after.skip(before + 1));
    assert forall|i: int| 0 <= i < after.skip(before).len() implies (#[trigger] after.skip(
        before,
    )[i]).payload is MatrixAndInverse && after.skip(before)[i].offset == 0 by {
        if i > 0 {
            assert(after.skip(before)[i] == after.skip(before + 1)[i - 1]);
        }
    }
    assert(transforms_of(after.skip(before)) =~= seq![cumulative] + below) by {
        assert forall|i: int| 0 <= i < after.skip(before).len() implies transforms_of(
            after.skip(before),
        )[i] == (seq![cumulative] + below)[i] by {
            if i > 0 {
                assert(after.skip(before)[i] == after.skip(before + 1)[i - 1]);
                assert(transforms_of(after.skip(before + 1))[i - 1] == below[i - 1]);
            }
        }
    }
}

/// The transform pass over the first `upto` children keeps the writes that
/// were there and adds one for each node below, in the order of the
/// traversal, each with the node's cumulative transform.
pub proof fn lemma_matrices_children_written_transforms(
    children: Seq<Object3DView>,
    layout: BindGroupLayout,
    above: Seq<MuckableMatrix>,
    uploads: Uploads,
    upto: nat,
)
    requires
        upto <= children.len(),
    ensures
        ({
            let after = matrices_children_written(children, layout, above, uploads, upto).1.writes;
            let before = uploads.writes.len() as int;
            &&& after.len() >= before
            &&& after.take(before) == uploads.writes
            &&& all_transforms(after.skip(before))
            &&& transforms_of(after.skip(before)) == children_cumulative_transforms(
                children,
                above,
                upto,
            )
        }),
    decreases children, 0nat, upto,
{
    let before = uploads.writes.len() as int;
    if upto == 0 {
        assert(uploads.writes.take(before) =~= uploads.writes);
        assert(transforms_of(uploads.writes.skip(before)) =~= Seq::<Seq<MuckableMatrix>>::empty());
    } else {
        let earlier = matrices_children_written(children, layout, above, uploads, (upto - 1) as nat);
        lemma_matrices_children_written_transforms(children, layout, above, uploads, (upto - 1) as nat);
        lemma_matrices_written_transforms(children[upto - 1], layout, above, earlier.1);
        let middle = earlier.1.writes;
        let after = matrices_children_written(children, layout, above, uploads, upto).1.writes;
        let between = middle.len() as int;
        assert(after.take(before) =~= after.take(between).take(before));
        assert forall|i: int| 0 <= i < after.skip(before).len() implies (#[trigger] after.skip(
            before,
        )[i]).payload is MatrixAndInverse && after.skip(before)[i].offset == 0 by {
            if i < between - before {
                assert(after.skip(before)[i] == after.take(between)[before + i]);
                assert(middle.skip(before)[i] == middle[before + i]);
            } else {
                assert(after.skip(before)[i] == after.skip(between)[i - (between - before)]);
            }
        }
        let expected = children_cumulative_transforms(children, above, (upto - 1) as nat)
            + cumulative_transforms(children[upto - 1], above);
        assert(transforms_of(after.skip(before)) =~= expected) by {
            assert forall|i: int| 0 <= i < after.skip(before).len() implies transforms_of(
                after.skip(before),
            )[i] == expected[i] by {
                if i < between - before {
                    assert(after.skip(before)[i] == after.take(between)[before + i]);
                    assert(middle.skip(before)[i] == middle[before + i]);
                    assert(transforms_of(middle.skip(before))[i] == expected[i]);
                } else {
                    assert(after.skip(before)[i] == after.skip(between)[i - (between - before)]);
                    assert(transforms_of(after.skip(between))[i - (between - before)]
                        == expected[i]);
                }
            }
        }
    }
}

} // verus!

verus! {

impl Object3D {
    /// Whether the tree can be rendered.
    pub fn is_renderable(&self) -> (r: bool)
        ensures
            r == renderable(self@),
        decreases *self,
    {
        proof {
            lemma_view_children(*self);
        }
        let own = match &self.object {
            Object3DObject::Mesh(mesh) => {
                let plain = match &mesh.material {
                    Material::PhongMaterial(_) => true,
                    Material::PhongMaterialWithTexture(_) => false,
                };
                plain && mesh.index_array.len() <= 0xffff_ffff && (mesh.vertex_buffer.is_none()
                    || mesh.index_buffer.is_some())
            },
            _ => true,
        };
        if !own {
            return false;
        }
        let mut i: usize = 0;
        while i < self.children.len()
            invariant
                i <= self.children@.len(),
                self@.children.len() == self.children@.len(),
                forall|j: int|
                    0 <= j < self.children@.len() ==> #[trigger] self@.children[j]
                        == self.children@[j]@,
                forall|j: int| 0 <= j < i ==> prepared(#[trigger] self@.children[j], 0),
            decreases self.children@.len() - i,
        {
            if !self.children[i].is_renderable() {
                assert(!prepared(self@.children[i as int], 0));
                return false;
            }
            i += 1;
        }
        true
    }
}

} // verus!

verus! {

impl Object3D {
    /// Whether no mesh of the tree has a textured material.
    pub fn has_no_textures(&self) -> (r: bool)
        ensures
            r == textures_absent(self@),
        decreases *self,
    {
        proof {
            lemma_view_children(*self);
        }
        let own = match &self.object {
            Object3DObject::Mesh(mesh) => match &mesh.material {
                Material::PhongMaterial(_) => true,
                Material::PhongMaterialWithTexture(_) => false,
            },
            _ => true,
        };
        if !own {
            return false;
        }
        let mut i: usize = 0;
        while i < self.children.len()
            invariant
                i <= self.children@.len(),
                self@.children.len() == self.children@.len(),
                forall|j: int|
                    0 <= j < self.children@.len() ==> #[trigger] self@.children[j]
                        == self.children@[j]@,
                forall|j: int| 0 <= j < i ==> textures_absent(#[trigger] self@.children[j]),
            decreases self.children@.len() - i,
        {
            if !self.children[i].has_no_textures() {
                assert(!textures_absent(self@.children[i as int]));
                return false;
            }
            i += 1;
        }
        true
    }
}

} // verus!

verus! {

/// A tree of the stage one or beyond has all its geometry.
pub proof fn lemma_prepared_geometry_present(node: Object3DView, stage: nat)
    requires
        stage >= 1,
        prepared(node, stage),
    ensures
        geometry_present(node),
    decreases node,
{
    assert forall|i: int| 0 <= i < node.children.len() implies geometry_present(
        #[trigger] node.children[i],
    ) by {
        lemma_prepared_geometry_present(node.children[i], stage);
    }
}

/// On a tree of the stage two or beyond the transform pass makes nothing:
/// every node keeps its buffer and its bind group, and nothing is asked of
/// the device. Only the writes are added.
pub proof fn lemma_matrices_written_reuses(
    node: Object3DView,
    layout: BindGroupLayout,
    above: Seq<MuckableMatrix>,
    uploads: Uploads,
    stage: nat,
)
    requires
        stage >= 2,
        prepared(node, stage),
    ensures
        matrices_written(node, layout, above, uploads).0 == node,
        matrices_written(node, layout, above, uploads).1.device == uploads.device,
    decreases node, 1nat,
{
    let cumulative = above.push(node.matrix);
    let own = Uploads {
        device: uploads.device,
        writes: uploads.writes.push(transform_write(node.matrix_buffer->0, cumulative)),
    };
    lemma_matrices_children_written_reuses(
        node.children,
        layout,
        cumulative,
        own,
        stage,
        node.children.len(),
    );
    assert(node.children.take(node.children.len() as int) =~= node.children);
}

/// On children of the stage two or beyond the transform pass makes nothing.
pub proof fn lemma_matrices_children_written_reuses(
    children: Seq<Object3DView>,
    layout: BindGroupLayout,
    above: Seq<MuckableMatrix>,
    uploads: Uploads,
    stage: nat,
    upto: nat,
)
    requires
        stage >= 2,
        upto <= children.len(),
        forall|i: int| 0 <= i < children.len() ==> prepared(#[trigger] children[i], stage),
    ensures
        matrices_children_written(children, layout, above, uploads, upto).0 == children.take(
            upto as int,
        ),
        matrices_children_written(children, layout, above, uploads, upto).1.device
            == uploads.device,
    decreases children, 0nat, upto,
{
    if upto > 0 {
        let before = matrices_children_written(children, layout, above, uploads, (upto - 1) as nat);
        lemma_matrices_children_written_reuses(
            children,
            layout,
            above,
            uploads,
            stage,
            (upto - 1) as nat,
        );
        lemma_matrices_written_reuses(children[upto - 1], layout, above, before.1, stage);
        assert(children.take(upto as int) =~= children.take(upto - 1).push(children[upto - 1]));
    } else {
        assert(children.take(0) =~= Seq::<Object3DView>::empty());
    }
}

/// On a tree of the stage three the material pass makes nothing: every
/// material keeps its buffer and its bind group, and nothing is asked of the
/// device. Only the writes are added.
pub proof fn lemma_materials_written_reuses(
    node: Object3DView,
    layout: BindGroupLayout,
    uploads: Uploads,
)
    requires
        prepared(node, 3),
    ensures
        materials_written(node, layout, uploads).0 == node,
        materials_written(node, layout, uploads).1.device == uploads.device,
    decreases node, 1nat,
{
    let own = own_material_written(node, layout, uploads);
    lemma_materials_children_written_reuses(node.children, layout, own.1, node.children.len());
    assert(node.children.take(node.children.len() as int) =~= node.children);
}

/// On children of the stage three the material pass makes nothing.
pub proof fn lemma_materials_children_written_reuses(
    children: Seq<Object3DView>,
    layout: BindGroupLayout,
    uploads: Uploads,
    upto: nat,
)
    requires
        upto <= children.len(),
        forall|i: int| 0 <= i < children.len() ==> prepared(#[trigger] children[i], 3),
    ensures
        materials_children_written(children, layout, uploads, upto).0 == children.take(
            upto as int,
        ),
        materials_children_written(children, layout, uploads, upto).1.device == uploads.device,
    decreases children, 0nat, upto,
{
    if upto > 0 {
        let before = materials_children_written(children, layout, uploads, (upto - 1) as nat);
        lemma_materials_children_written_reuses(children, layout, uploads, (upto - 1) as nat);
        lemma_materials_written_reuses(children[upto - 1], layout, before.1);
        assert(children.take(upto as int) =~= children.take(upto - 1).push(children[upto - 1]));
    } else {
        assert(children.take(0) =~= Seq::<Object3DView>::empty());
    }
}

} // verus!
