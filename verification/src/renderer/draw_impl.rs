use vstd::prelude::*;
use crate::renderer::bind_material::{bind_material_command, bindable};
use crate::renderer::draw_state::DrawState;
use crate::renderer::material::{Material, MaterialType};
use crate::renderer::staging_belt_and_command_encoder::{IndexFormat, RenderCommand, RenderPass};
use crate::scene::mesh::{Mesh, MeshView};
use crate::scene::object3d::{lemma_view_children, Object3D, Object3DObject, Object3DObjectView, Object3DView};

verus! {

/// Whether a mesh can take part in a pass of the shading model `filter`. A
/// mesh of another shading model always can: it is passed over. One of that
/// model must have been uploaded and written, and has no more indices than
/// one draw call can count.
pub open spec fn mesh_ready(mesh: MeshView, filter: MaterialType) -> bool {
    mesh.material.material_type() == filter ==> {
        &&& bindable(mesh.material)
        &&& mesh.vertex_buffer is Some
        &&& mesh.index_buffer is Some
        &&& mesh.index_array.len() <= u32::MAX
    }
}

/// Whether a tree can take part in a pass of the shading model `filter`:
/// every node that carries a mesh has its transform's bind group, and every
/// mesh is ready.
pub open spec fn ready_to_draw(node: Object3DView, filter: MaterialType) -> bool
    decreases node,
{
    &&& node.object matches Object3DObjectView::Mesh(mesh) ==> node.matrix_bind_group is Some
        && mesh_ready(mesh, filter)
    &&& forall|i: int|
        0 <= i < node.children.len() ==> ready_to_draw(#[trigger] node.children[i], filter)
}

/// The commands that draw a mesh in a pass of the shading model `filter`:
/// none if the mesh is of another model; else its material is bound, its
/// vertex buffer goes to the slot zero, its index buffer is bound, and one
/// call draws all its indices.
pub open spec fn mesh_commands(mesh: MeshView, filter: MaterialType) -> Seq<RenderCommand> {
    if mesh.material.material_type() == filter {
        seq![
            bind_material_command(mesh.material),
            RenderCommand::SetVertexBuffer { slot: 0, buffer: mesh.vertex_buffer->0 },
            RenderCommand::SetIndexBuffer { buffer: mesh.index_buffer->0, format: IndexFormat::Uint32 },
            RenderCommand::DrawIndexed { index_count: mesh.index_array.len() as u32 },
        ]
    } else {
        Seq::empty()
    }
}

/// The commands of a node itself: if it carries a mesh, its transform is
/// bound to the group zero and the mesh's commands follow.
pub open spec fn own_commands(node: Object3DView, filter: MaterialType) -> Seq<RenderCommand> {
    match node.object {
        Object3DObjectView::Mesh(mesh) => seq![
            RenderCommand::SetBindGroup { index: 0, bind_group: node.matrix_bind_group->0 },
        ] + mesh_commands(mesh, filter),
        _ => Seq::empty(),
    }
}

/// The commands that draw a tree in a pass of the shading model `filter`:
/// the node's own, then those of its children from first to last, each with
/// all below it.
pub open spec fn draw_commands(node: Object3DView, filter: MaterialType) -> Seq<RenderCommand>
    decreases node, 1nat,
{
    own_commands(node, filter) + children_commands(node.children, filter, node.children.len())
}

/// The commands that draw the first `upto` of `children`, in order.
pub open spec fn children_commands(
    children: Seq<Object3DView>,
    filter: MaterialType,
    upto: nat,
) -> Seq<RenderCommand>
    decreases children, 0nat, upto,
{
    if upto == 0 || upto > children.len() {
        Seq::empty()
    } else {
        children_commands(children, filter, (upto - 1) as nat) + draw_commands(
            children[upto - 1],
            filter,
        )
    }
}

impl RenderPass {
    /// Draws a mesh if it is of the shading model the draw state names, and
    /// passes it over if it is not.
    pub fn draw_mesh(&mut self, draw_state: &DrawState, mesh: &Mesh)
        requires
            mesh_ready(mesh@, draw_state@.current_material),
        ensures
            final(self)@.commands == old(self)@.commands + mesh_commands(
                mesh@,
                draw_state@.current_material,
            ),
            final(self)@.clear_color == old(self)@.clear_color,
    {
        if mesh.material.is_of_type(&draw_state.current_material) {
            self.bind_material(&mesh.material);
            self.set_vertex_buffer(0, &mesh.vertex_buffer.unwrap());
            self.set_index_buffer(&mesh.index_buffer.unwrap(), IndexFormat::Uint32);
            self.draw_indexed(mesh.index_array.len() as u32);
        }
        assert(self@.commands =~= old(self)@.commands + mesh_commands(
            mesh@,
            draw_state@.current_material,
        ));
    }

    /// Draws a tree, depth first. A node that carries a mesh binds its
    /// transform; the mesh is drawn if it is of the shading model the draw
    /// state names and passed over if not; the children follow whether or
    /// not the node drew.
    pub fn draw_object_3d(&mut self, draw_state: &mut DrawState, object3d: &Object3D)
        requires
            ready_to_draw(object3d@, old(draw_state)@.current_material),
        ensures
            final(self)@.commands == old(self)@.commands + draw_commands(
                object3d@,
                old(draw_state)@.current_material,
            ),
            final(self)@.clear_color == old(self)@.clear_color,
            *final(draw_state) == *old(draw_state),
        decreases *object3d,
    {
        let ghost filter = draw_state@.current_material;
        let ghost node = object3d@;
        proof {
            lemma_view_children(*object3d);
        }
        if object3d.is_drawable() {
            self.set_bind_group(0, &object3d.matrix_bind_group.unwrap());
        }
        match &object3d.object {
            Object3DObject::Empty => {},
            Object3DObject::Scene => {},
            Object3DObject::Mesh(mesh) => self.draw_mesh(draw_state, mesh),
        }
        assert(self@.commands =~= old(self)@.commands + own_commands(node, filter));
        let n: usize = object3d.children.len();
        let mut i: usize = 0;
        while i < n
            invariant
                i <= n,
                n == object3d.children@.len(),
                n == node.children.len(),
                node == object3d@,
                filter == draw_state@.current_material,
                *draw_state == *old(draw_state),
                ready_to_draw(node, filter),
                forall|j: int| 0 <= j < n ==> #[trigger] node.children[j] == object3d.children@[j]@,
                self@.clear_color == old(self)@.clear_color,
                self@.commands == old(self)@.commands + own_commands(node, filter)
                    + children_commands(node.children, filter, i as nat),
            decreases n - i,
        {
            assert(ready_to_draw(node.children[i as int], filter));
            self.draw_object_3d(draw_state, &object3d.children[i]);
            assert(self@.commands =~= old(self)@.commands + own_commands(node, filter)
                + children_commands(node.children, filter, (i + 1) as nat));
            i += 1;
        }
        assert(self@.commands =~= old(self)@.commands + draw_commands(node, filter));
    }
}

} // verus!

verus! {

/// The number of draw calls among some commands.
pub open spec fn draw_calls(commands: Seq<RenderCommand>) -> nat
    decreases commands.len(),
{
    if commands.len() == 0 {
        0
    } else {
        draw_calls(commands.drop_last()) + if commands.last() is DrawIndexed {
            1nat
        } else {
            0nat
        }
    }
}

/// The draw calls of two runs of commands, one after the other, are those
/// of the first and those of the second.
pub proof fn lemma_draw_calls_add(first: Seq<RenderCommand>, second: Seq<RenderCommand>)
    ensures
        draw_calls(first + second) == draw_calls(first) + draw_calls(second),
    decreases second.len(),
{
    if second.len() == 0 {
        assert(first + second =~= first);
    } else {
        lemma_draw_calls_add(first, second.drop_last());
        assert((first + second).drop_last() =~= first + second.drop_last());
    }
}

/// The number of meshes of the shading model `filter` in a tree.
pub open spec fn mesh_count(node: Object3DView, filter: MaterialType) -> nat
    decreases node, 1nat,
{
    let own: nat = match node.object {
        Object3DObjectView::Mesh(mesh) => if mesh.material.material_type() == filter {
            1
        } else {
            0
        },
        _ => 0,
    };
    own + children_mesh_count(node.children, filter, node.children.len())
}

/// The number of meshes of the shading model `filter` in and below the
/// first `upto` of `children`.
pub open spec fn children_mesh_count(
    children: Seq<Object3DView>,
    filter: MaterialType,
    upto: nat,
) -> nat
    decreases children, 0nat, upto,
{
    if upto == 0 || upto > children.len() {
        0
    } else {
        children_mesh_count(children, filter, (upto - 1) as nat) + mesh_count(
            children[upto - 1],
            filter,
        )
    }
}

/// A pass draws every mesh of its shading model once and no other mesh, at
/// whatever depth the meshes lie: the draw calls of a tree are as many as
/// its meshes of that model.
pub proof fn lemma_draws_every_matching_mesh(node: Object3DView, filter: MaterialType)
    ensures
        draw_calls(draw_commands(node, filter)) == mesh_count(node, filter),
    decreases node, 1nat,
{
    lemma_children_draw_every_matching_mesh(node.children, filter, node.children.len());
    lemma_draw_calls_add(
        own_commands(node, filter),
        children_commands(node.children, filter, node.children.len()),
    );
    lemma_node_draws_iff_matching(node, filter);
}

/// The draw calls of the first `upto` children are as many as the meshes of
/// the pass's shading model in and below them.
pub proof fn lemma_children_draw_every_matching_mesh(
    children: Seq<Object3DView>,
    filter: MaterialType,
    upto: nat,
)
    requires
        upto <= children.len(),
    ensures
        draw_calls(children_commands(children, filter, upto)) == children_mesh_count(
            children,
            filter,
            upto,
        ),
    decreases children, 0nat, upto,
{
    if upto > 0 {
        lemma_children_draw_every_matching_mesh(children, filter, (upto - 1) as nat);
        lemma_draws_every_matching_mesh(children[upto - 1], filter);
        lemma_draw_calls_add(
            children_commands(children, filter, (upto - 1) as nat),
            draw_commands(children[upto - 1], filter),
        );
    }
}

/// Whether no node of a tree carries a mesh.
pub open spec fn mesh_free(node: Object3DView) -> bool
    decreases node,
{
    &&& !(node.object is Mesh)
    &&& forall|i: int| 0 <= i < node.children.len() ==> mesh_free(#[trigger] node.children[i])
}

/// A tree without meshes has no mesh of any shading model.
pub proof fn lemma_mesh_free_count(node: Object3DView, filter: MaterialType)
    requires
        mesh_free(node),
    ensures
        mesh_count(node, filter) == 0,
    decreases node, 1nat,
{
    lemma_mesh_free_children_count(node.children, filter, node.children.len());
}

/// Children without meshes have no mesh of any shading model.
pub proof fn lemma_mesh_free_children_count(
    children: Seq<Object3DView>,
    filter: MaterialType,
    upto: nat,
)
    requires
        upto <= children.len(),
        forall|i: int| 0 <= i < children.len() ==> mesh_free(#[trigger] children[i]),
    ensures
        children_mesh_count(children, filter, upto) == 0,
    decreases children, 0nat, upto,
{
    if upto > 0 {
        lemma_mesh_free_children_count(children, filter, (upto - 1) as nat);
        lemma_mesh_free_count(children[upto - 1], filter);
    }
}

} // verus!

verus! {

impl Mesh {
    /// Whether the mesh can take part in a pass of the shading model
    /// `filter`.
    pub fn is_ready(&self, filter: &MaterialType) -> (r: bool)
        ensures
            r == mesh_ready(self@, *filter),
    {
        if !self.material.is_of_type(filter) {
            return true;
        }
        let bound = match &self.material {
            Material::PhongMaterial(material) => material.bind_group.is_some(),
            Material::PhongMaterialWithTexture(_) => false,
        };
        bound && self.vertex_buffer.is_some() && self.index_buffer.is_some()
            && self.index_array.len() <= 0xffff_ffff
    }
}

impl Object3D {
    /// Whether the tree can take part in a pass of the shading model
    /// `filter`.
    pub fn is_ready_to_draw(&self, filter: &MaterialType) -> (r: bool)
        ensures
            r == ready_to_draw(self@, *filter),
        decreases *self,
    {
        proof {
            lemma_view_children(*self);
        }
        let own = match &self.object {
            Object3DObject::Mesh(mesh) => self.matrix_bind_group.is_some() && mesh.is_ready(filter),
            _ => true,
        };
        if !own {
            return false;
        }
        let mut i: usize = 0;
        while i < self.children.len()
            invariant
                i <= self.children@.len(),
                self@.children.len() == self.children@.len(),
                forall|j: int|
                    0 <= j < self.children@.len() ==> #[trigger] self@.children[j]
                        == self.children@[j]@,
                forall|j: int| 0 <= j < i ==> ready_to_draw(#[trigger] self@.children[j], *filter),
            decreases self.children@.len() - i,
        {
            if !self.children[i].is_ready_to_draw(filter) {
                assert(!ready_to_draw(self@.children[i as int], *filter));
                return false;
            }
            i += 1;
        }
        true
    }
}

} // verus!

verus! {

/// The nodes of a tree in the order of the traversal: the node, then its
/// children from first to last, each with all below it.
pub open spec fn preorder(node: Object3DView) -> Seq<Object3DView>
    decreases node, 1nat,
{
    seq![node] + children_preorder(node.children, node.children.len())
}

/// The nodes in and below the first `upto` of `children`, in the order of
/// the traversal.
pub open spec fn children_preorder(children: Seq<Object3DView>, upto: nat) -> Seq<Object3DView>
    decreases children, 0nat, upto,
{
    if upto == 0 || upto > children.len() {
        Seq::empty()
    } else {
        children_preorder(children, (upto - 1) as nat) + preorder(children[upto - 1])
    }
}

/// The own commands of the first `upto` of some nodes, node by node.
pub open spec fn commands_of(nodes: Seq<Object3DView>, filter: MaterialType, upto: nat) -> Seq<
    RenderCommand,
>
    decreases upto,
{
    if upto == 0 || upto > nodes.len() {
        Seq::empty()
    } else {
        commands_of(nodes, filter, (upto - 1) as nat) + own_commands(nodes[upto - 1], filter)
    }
}

/// The own commands of two runs of nodes, one after the other, are those of
/// the first run and then those of the second.
pub proof fn lemma_commands_of_add(
    first: Seq<Object3DView>,
    second: Seq<Object3DView>,
    filter: MaterialType,
    upto: nat,
)
    requires
        upto <= second.len(),
    ensures
        commands_of(first + second, filter, first.len() + upto) == commands_of(
            first,
            filter,
            first.len(),
        ) + commands_of(second, filter, upto),
    decreases upto,
{
    if upto == 0 {
        lemma_commands_of_prefix(first + second, first, filter, first.len());
        assert(commands_of(first, filter, first.len()) + Seq::<RenderCommand>::empty()
            =~= commands_of(first, filter, first.len()));
    } else {
        lemma_commands_of_add(first, second, filter, (upto - 1) as nat);
        assert((first + second)[first.len() + upto - 1] == second[upto - 1]);
        assert(commands_of(first + second, filter, first.len() + upto) =~= commands_of(
            first,
            filter,
            first.len(),
        ) + commands_of(second, filter, upto));
    }
}

/// The own commands of the first `upto` nodes depend on those nodes only.
pub proof fn lemma_commands_of_prefix(
    first: Seq<Object3DView>,
    second: Seq<Object3DView>,
    filter: MaterialType,
    upto: nat,
)
    requires
        upto <= first.len(),
        upto <= second.len(),
        forall|i: int| 0 <= i < upto ==> first[i] == second[i],
    ensures
        commands_of(first, filter, upto) == commands_of(second, filter, upto),
    decreases upto,
{
    if upto > 0 {
        lemma_commands_of_prefix(first, second, filter, (upto - 1) as nat);
    }
}

/// A node draws its mesh exactly when the mesh is of the pass's shading
/// model: then its own commands hold one draw call, and else none.
pub proof fn lemma_node_draws_iff_matching(node: Object3DView, filter: MaterialType)
    ensures
        draw_calls(own_commands(node, filter)) == if node.object matches Object3DObjectView::Mesh(
            mesh,
        ) && mesh.material.material_type() == filter {
            1nat
        } else {
            0nat
        },
{
    match node.object {
        Object3DObjectView::Mesh(mesh) => {
            let bind = seq![
                RenderCommand::SetBindGroup { index: 0, bind_group: node.matrix_bind_group->0 },
            ];
            lemma_draw_calls_add(bind, mesh_commands(mesh, filter));
            assert(draw_calls(bind.drop_last()) == 0);
            if mesh.material.material_type() == filter {
                let commands = mesh_commands(mesh, filter);
                assert(draw_calls(commands.drop_last().drop_last().drop_last().drop_last()) == 0);
                assert(draw_calls(commands.drop_last().drop_last().drop_last()) == 0);
                assert(draw_calls(commands.drop_last().drop_last()) == 0);
                assert(draw_calls(commands.drop_last()) == 0);
            }
        },
        _ => {},
    }
}

/// The commands that draw a tree are the own commands of its nodes, node by
/// node in the order of the traversal: whether a node draws depends on the
/// node alone, not on how deep it lies nor on what its parent did.
pub proof fn lemma_draw_commands_by_node(node: Object3DView, filter: MaterialType)
    ensures
        draw_commands(node, filter) == commands_of(preorder(node), filter, preorder(node).len()),
    decreases node, 1nat,
{
    let below = children_preorder(node.children, node.children.len());
    lemma_children_commands_by_node(node.children, filter, node.children.len());
    lemma_commands_of_add(seq![node], below, filter, below.len());
    assert(commands_of(seq![node], filter, 1) =~= own_commands(node, filter)) by {
        assert(commands_of(seq![node], filter, 0) =~= Seq::<RenderCommand>::empty());
    }
}

/// The commands that draw the first `upto` children are the own commands of
/// the nodes in and below them, in the order of the traversal.
pub proof fn lemma_children_commands_by_node(
    children: Seq<Object3DView>,
    filter: MaterialType,
    upto: nat,
)
    requires
        upto <= children.len(),
    ensures
        children_commands(children, filter, upto) == commands_of(
            children_preorder(children, upto),
            filter,
            children_preorder(children, upto).len(),
        ),
    decreases children, 0nat, upto,
{
    if upto > 0 {
        let earlier = children_preorder(children, (upto - 1) as nat);
        let last = preorder(children[upto - 1]);
        lemma_children_commands_by_node(children, filter, (upto - 1) as nat);
        lemma_draw_commands_by_node(children[upto - 1], filter);
        lemma_commands_of_add(earlier, last, filter, last.len());
    }
}

} // verus!
