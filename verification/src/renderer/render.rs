use vstd::prelude::*;
use crate::renderer::draw_impl::{
    children_mesh_count, draw_calls, draw_commands, lemma_draw_calls_add,
    lemma_draws_every_matching_mesh, lemma_mesh_free_count, mesh_count, mesh_free, ready_to_draw,
};
use crate::renderer::draw_state::DrawState;
use crate::renderer::light::{Light, ViewInfoData};
use crate::renderer::material::{MaterialManager, MaterialType};
use crate::renderer::staging_belt_and_command_encoder::{
    Color, CommandEncoder, RenderCommand, RenderPass, RenderPassView, StagingBelt,
    StagingBeltAndCommandEncoder, Uploads,
};
use crate::renderer::staging_belt_and_command_encoder::{transform_write, BufferWriteView};
use crate::renderer::wgpu_handles::{
    single_binding, uniform_buffer, BindGroupLabel, BindGroupLayout, BufferLabel, DeviceView,
    RenderPipeline, WgpuHandles,
};
use crate::scene::object3d::{
    lemma_materials_written_prepared, lemma_materials_written_reuses,
    lemma_matrices_written_prepared, lemma_matrices_written_reuses,
    lemma_prepared_geometry_present, lemma_prepared_textures_absent, lemma_written_when_present,
    lemma_written_prepared, materials_children_written, materials_written,
    matrices_children_written, matrices_written, object_3d_children_written,
    object_3d_single_written, object_3d_written, own_material_written, prepared, renderable,
    Object3DView,
};
use crate::scene::scene::{lights_written, view_infos_written, Scene, SceneView};
use crate::util::matrix_util::{identity, MuckableMatrix};

verus! {

/// The colour every frame is cleared to: red one, green six tenths, blue
/// eight tenths, opaque, each channel by its double-precision bit pattern.
pub open spec fn background() -> Color {
    Color {
        r: 0x3ff0_0000_0000_0000,
        g: 0x3fe3_3333_3333_3333,
        b: 0x3fe9_9999_9999_999a,
        a: 0x3ff0_0000_0000_0000,
    }
}

/// The commands that draw the tree once for each of the first `upto`
/// lights: the light's bind group goes to the group two, then the whole tree
/// is drawn.
pub open spec fn light_passes(
    lights: Seq<Light>,
    root: Object3DView,
    filter: MaterialType,
    upto: nat,
) -> Seq<RenderCommand>
    decreases upto,
{
    if upto == 0 || upto > lights.len() {
        Seq::empty()
    } else {
        light_passes(lights, root, filter, (upto - 1) as nat) + seq![
            RenderCommand::SetBindGroup {
                index: 2,
                bind_group: lights[upto - 1]->PointLight_0.bind_group->0,
            },
        ] + draw_commands(root, filter)
    }
}

/// The commands of a frame's render pass: the pipeline of Phong shading is
/// set, and the tree is drawn once for each light.
pub open spec fn frame_commands(
    pipeline: RenderPipeline,
    lights: Seq<Light>,
    root: Object3DView,
) -> Seq<RenderCommand> {
    seq![RenderCommand::SetPipeline { pipeline }] + light_passes(
        lights,
        root,
        MaterialType::PhongMaterial,
        lights.len(),
    )
}

/// What a frame leaves behind.
pub struct Frame {
    pub scene: SceneView,
    pub uploads: Uploads,
    pub pass: RenderPassView,
}

/// The frame of a scene. Geometry is uploaded first, where it has not been;
/// then the transforms are written, under the camera's matrix times the
/// identity; then the materials; then the lights, and the viewer's position
/// for each light. The render pass that follows clears to the background and
/// holds the frame's commands.
pub open spec fn frame(
    scene: SceneView,
    catalog: MaterialManager,
    camera_matrix: MuckableMatrix,
    view_info: ViewInfoData,
    uploads: Uploads,
) -> Frame {
    let geometry = object_3d_written(scene.root, uploads.device);
    let matrices = matrices_written(
        geometry.0,
        catalog.matrix_bind_group_layout->0,
        seq![identity(), camera_matrix],
        Uploads { device: geometry.1, writes: uploads.writes },
    );
    let materials = materials_written(
        matrices.0,
        catalog.material_bind_group_layouts@[0],
        matrices.1,
    );
    let lights = lights_written(
        scene.lights,
        catalog.point_light_bind_group_layout->0,
        materials.1,
        scene.lights.len(),
    );
    let views = view_infos_written(
        lights.0,
        view_info,
        catalog.point_light_bind_group_layout->0,
        lights.1,
        scene.lights.len(),
    );
    Frame {
        scene: SceneView { lights: views.0, camera: scene.camera, root: materials.0 },
        uploads: views.1,
        pass: RenderPassView {
            clear_color: background(),
            commands: frame_commands(catalog.render_pipelines@[0], views.0, materials.0),
        },
    }
}

/// A tree that has been through the three passes can be drawn with the
/// pipeline of Phong shading.
pub proof fn lemma_prepared_ready(node: Object3DView)
    requires
        prepared(node, 3),
    ensures
        ready_to_draw(node, MaterialType::PhongMaterial),
    decreases node,
{
    assert forall|i: int| 0 <= i < node.children.len() implies ready_to_draw(
        #[trigger] node.children[i],
        MaterialType::PhongMaterial,
    ) by {
        lemma_prepared_ready(node.children[i]);
    }
}

/// Writing the lights keeps their number and leaves each with its buffer.
pub proof fn lemma_lights_written(
    lights: Seq<Light>,
    layout: BindGroupLayout,
    uploads: Uploads,
    upto: nat,
)
    requires
        upto <= lights.len(),
    ensures
        lights_written(lights, layout, uploads, upto).0.len() == upto,
        forall|j: int|
            0 <= j < upto ==> (#[trigger] lights_written(
                lights,
                layout,
                uploads,
                upto,
            ).0[j])->PointLight_0.buffer is Some,
    decreases upto,
{
    if upto > 0 {
        lemma_lights_written(lights, layout, uploads, (upto - 1) as nat);
    }
}

/// Whether a light has all it needs on the device: its two buffers and its
/// bind group.
pub open spec fn settled(light: Light) -> bool {
    &&& light->PointLight_0.buffer is Some
    &&& light->PointLight_0.view_info.view_info_buffer is Some
    &&& light->PointLight_0.bind_group is Some
}

/// Writing the viewer's position for lights that have their buffers keeps
/// their number and leaves each with all it needs on the device.
pub proof fn lemma_view_infos_written(
    lights: Seq<Light>,
    view_info: ViewInfoData,
    layout: BindGroupLayout,
    uploads: Uploads,
    upto: nat,
)
    requires
        upto <= lights.len(),
        forall|j: int| 0 <= j < lights.len() ==> (#[trigger] lights[j])->PointLight_0.buffer is Some,
    ensures
        view_infos_written(lights, view_info, layout, uploads, upto).0.len() == upto,
        forall|j: int|
            0 <= j < upto ==> settled(
                #[trigger] view_infos_written(lights, view_info, layout, uploads, upto).0[j],
            ),
    decreases upto,
{
    if upto > 0 {
        lemma_view_infos_written(lights, view_info, layout, uploads, (upto - 1) as nat);
    }
}

/// Records one frame of `scene` as the camera of the frame sees it:
/// `camera_matrix` takes the world to the clipped view, and `view_info`
/// holds the position of the eye. The passes run in the order geometry,
/// transforms, materials, lights, viewer; then one render pass is recorded
/// that sets the pipeline of Phong shading and draws the whole tree once
/// for each light. The catalog is filled and the tree is renderable.
pub fn render(
    scene: &mut Scene,
    wgpu_handles: &mut WgpuHandles,
    camera_matrix: &MuckableMatrix,
    view_info: &ViewInfoData,
    material_manager: &MaterialManager,
    staging_belt: &mut StagingBeltAndCommandEncoder,
)
    requires
        material_manager.populated(),
        renderable(old(scene)@.root),
    ensures
        ({
            let result = frame(
                old(scene)@,
                *material_manager,
                *camera_matrix,
                *view_info,
                Uploads { device: old(wgpu_handles).device@, writes: old(staging_belt)@.writes },
            );
            &&& final(scene)@ == result.scene
            &&& final(wgpu_handles).device@ == result.uploads.device
            &&& final(staging_belt)@.writes == result.uploads.writes
            &&& final(staging_belt)@.render_passes == old(staging_belt)@.render_passes.push(
                result.pass,
            )
        }),
{
    let ghost uploads = Uploads {
        device: old(wgpu_handles).device@,
        writes: old(staging_belt)@.writes,
    };
    let mut draw_state = DrawState::new(MaterialType::PhongMaterial);
    draw_state.transform(camera_matrix);
    assert(draw_state@.matrix_stack.last() =~= seq![identity(), *camera_matrix]);
    let ghost result = frame(old(scene)@, *material_manager, *camera_matrix, *view_info, uploads);
    let ghost geometry = object_3d_written(old(scene)@.root, uploads.device);
    let ghost matrices = matrices_written(
        geometry.0,
        material_manager.matrix_bind_group_layout->0,
        seq![identity(), *camera_matrix],
        Uploads { device: geometry.1, writes: uploads.writes },
    );
    let ghost materials = materials_written(
        matrices.0,
        material_manager.material_bind_group_layouts@[0],
        matrices.1,
    );

    // geometry is written once
    material_manager.write_object_3d(&mut scene.root, wgpu_handles);
    proof {
        lemma_written_prepared(old(scene)@.root, uploads.device);
    }

    // transforms and materials are written every frame
    scene.root.write_matrices(wgpu_handles, material_manager, &mut draw_state, staging_belt);
    proof {
        lemma_matrices_written_prepared(
            geometry.0,
            material_manager.matrix_bind_group_layout->0,
            seq![identity(), *camera_matrix],
            Uploads { device: geometry.1, writes: uploads.writes },
        );
        lemma_prepared_textures_absent(matrices.0, 2);
    }
    scene.root.write_materials(wgpu_handles, material_manager, staging_belt);
    proof {
        lemma_materials_written_prepared(
            matrices.0,
            material_manager.material_bind_group_layouts@[0],
            matrices.1,
        );
        lemma_prepared_ready(materials.0);
    }

    scene.write_lights(wgpu_handles, material_manager, staging_belt);
    scene.write_view_info(view_info, wgpu_handles, material_manager, staging_belt);
    proof {
        let n = old(scene)@.lights.len();
        let layout = material_manager.point_light_bind_group_layout->0;
        lemma_lights_written(old(scene)@.lights, layout, materials.1, n);
        let lights = lights_written(old(scene)@.lights, layout, materials.1, n);
        lemma_view_infos_written(lights.0, *view_info, layout, lights.1, n);
    }

    let mut render_pass = RenderPass::new(
        Color {
            r: 0x3ff0_0000_0000_0000,
            g: 0x3fe3_3333_3333_3333,
            b: 0x3fe9_9999_9999_999a,
            a: 0x3ff0_0000_0000_0000,
        },
    );
    draw_state.current_material = MaterialType::PhongMaterial;
    render_pass.set_pipeline(
        material_manager.get_pipeline_for_material_type(&MaterialType::PhongMaterial),
    );
    let n: usize = scene.lights.len();
    let mut i: usize = 0;
    while i < n
        invariant
            i <= n,
            n == scene.lights@.len(),
            scene@ == result.scene,
            draw_state@.current_material == MaterialType::PhongMaterial,
            ready_to_draw(scene@.root, MaterialType::PhongMaterial),
            forall|j: int| 0 <= j < n ==> settled(#[trigger] scene.lights@[j]),
            render_pass@.clear_color == background(),
            render_pass@.commands == seq![
                RenderCommand::SetPipeline { pipeline: material_manager.render_pipelines@[0] },
            ] + light_passes(scene@.lights, scene@.root, MaterialType::PhongMaterial, i as nat),
        decreases n - i,
    {
        match &scene.lights[i] {
            Light::PointLight(point_light) => {
                render_pass.set_bind_group(2, &point_light.bind_group.unwrap());
                render_pass.draw_object_3d(&mut draw_state, &scene.root);
            },
        }
        assert(render_pass@.commands =~= seq![
            RenderCommand::SetPipeline { pipeline: material_manager.render_pipelines@[0] },
        ] + light_passes(scene@.lights, scene@.root, MaterialType::PhongMaterial, (i + 1) as nat));
        i += 1;
    }
    staging_belt.command_encoder.render_passes.push(render_pass);
    assert(staging_belt@.render_passes =~= old(staging_belt)@.render_passes.push(result.pass));
}

/// Records one frame of `scene` from nothing: a new belt and a new encoder
/// take the writes and the render pass, and come back ready to be submitted
/// to the device's queue and shown.
pub fn render_to_texture_view(
    scene: &mut Scene,
    wgpu_handles: &mut WgpuHandles,
    camera_matrix: &MuckableMatrix,
    view_info: &ViewInfoData,
    material_manager: &MaterialManager,
) -> (recording: StagingBeltAndCommandEncoder)
    requires
        material_manager.populated(),
        renderable(old(scene)@.root),
    ensures
        ({
            let result = frame(
                old(scene)@,
                *material_manager,
                *camera_matrix,
                *view_info,
                Uploads { device: old(wgpu_handles).device@, writes: Seq::empty() },
            );
            &&& final(scene)@ == result.scene
            &&& final(wgpu_handles).device@ == result.uploads.device
            &&& recording@.writes == result.uploads.writes
            &&& recording@.render_passes == seq![result.pass]
        }),
{
    let mut staging_belt = StagingBeltAndCommandEncoder::new(StagingBelt::new(), CommandEncoder::new());
    assert(staging_belt@.writes =~= Seq::empty());
    render(scene, wgpu_handles, camera_matrix, view_info, material_manager, &mut staging_belt);
    assert(staging_belt@.render_passes.len() == 1);
    assert(staging_belt@.render_passes =~= seq![staging_belt@.render_passes[0]]);
    staging_belt
}

} // verus!

verus! {

/// The meshes counted in and below the first `upto` children depend on
/// those children only.
pub proof fn lemma_children_mesh_count_prefix(
    first: Seq<Object3DView>,
    second: Seq<Object3DView>,
    filter: MaterialType,
    upto: nat,
)
    requires
        upto <= first.len(),
        upto <= second.len(),
        forall|i: int| 0 <= i < upto ==> first[i] == second[i],
    ensures
        children_mesh_count(first, filter, upto) == children_mesh_count(second, filter, upto),
    decreases upto,
{
    if upto > 0 {
        lemma_children_mesh_count_prefix(first, second, filter, (upto - 1) as nat);
    }
}

/// The geometry pass neither adds a mesh nor takes one away nor changes a
/// mesh's shading model.
pub proof fn lemma_written_mesh_count(node: Object3DView, device: DeviceView, filter: MaterialType)
    ensures
        mesh_count(object_3d_written(node, device).0, filter) == mesh_count(node, filter),
    decreases node, 1nat,
{
    let own = object_3d_single_written(node, device);
    lemma_written_children_mesh_count(node.children, own.1, filter, node.children.len());
}

/// The geometry pass keeps the meshes in and below the children.
pub proof fn lemma_written_children_mesh_count(
    children: Seq<Object3DView>,
    device: DeviceView,
    filter: MaterialType,
    upto: nat,
)
    requires
        upto <= children.len(),
    ensures
        object_3d_children_written(children, device, upto).0.len() == upto,
        children_mesh_count(object_3d_children_written(children, device, upto).0, filter, upto)
            == children_mesh_count(children, filter, upto),
    decreases children, 0nat, upto,
{
    if upto > 0 {
        let before = object_3d_children_written(children, device, (upto - 1) as nat);
        let after = object_3d_children_written(children, device, upto);
        lemma_written_children_mesh_count(children, device, filter, (upto - 1) as nat);
        lemma_written_mesh_count(children[upto - 1], before.1, filter);
        lemma_children_mesh_count_prefix(after.0, before.0, filter, (upto - 1) as nat);
    }
}

/// The transform pass neither adds a mesh nor takes one away nor changes a
/// mesh's shading model.
pub proof fn lemma_matrices_written_mesh_count(
    node: Object3DView,
    layout: BindGroupLayout,
    above: Seq<MuckableMatrix>,
    uploads: Uploads,
    filter: MaterialType,
)
    ensures
        mesh_count(matrices_written(node, layout, above, uploads).0, filter) == mesh_count(
            node,
            filter,
        ),
    decreases node, 1nat,
{
    let cumulative = above.push(node.matrix);
    let buffer = uploads.device.buffer_or_new(node.matrix_buffer);
    let with_buffer = uploads.device.ensuring_buffer(
        node.matrix_buffer,
        uniform_buffer(BufferLabel::MatrixBuffer, 128),
    );
    let own = Uploads {
        device: with_buffer.ensuring_bind_group(
            node.matrix_bind_group,
            single_binding(BindGroupLabel::MatrixBindGroup, layout, buffer, Some(128u64)),
        ),
        writes: uploads.writes.push(transform_write(buffer, cumulative)),
    };
    lemma_matrices_children_written_mesh_count(
        node.children,
        layout,
        cumulative,
        own,
        filter,
        node.children.len(),
    );
}

/// The transform pass keeps the meshes in and below the children.
pub proof fn lemma_matrices_children_written_mesh_count(
    children: Seq<Object3DView>,
    layout: BindGroupLayout,
    above: Seq<MuckableMatrix>,
    uploads: Uploads,
    filter: MaterialType,
    upto: nat,
)
    requires
        upto <= children.len(),
    ensures
        matrices_children_written(children, layout, above, uploads, upto).0.len() == upto,
        children_mesh_count(
            matrices_children_written(children, layout, above, uploads, upto).0,
            filter,
            upto,
        ) == children_mesh_count(children, filter, upto),
    decreases children, 0nat, upto,
{
    if upto > 0 {
        let before = matrices_children_written(children, layout, above, uploads, (upto - 1) as nat);
        let after = matrices_children_written(children, layout, above, uploads, upto);
        lemma_matrices_children_written_mesh_count(
            children,
            layout,
            above,
            uploads,
            filter,
            (upto - 1) as nat,
        );
        lemma_matrices_written_mesh_count(children[upto - 1], layout, above, before.1, filter);
        lemma_children_mesh_count_prefix(after.0, before.0, filter, (upto - 1) as nat);
    }
}

/// The material pass neither adds a mesh nor takes one away nor changes a
/// mesh's shading model.
pub proof fn lemma_materials_written_mesh_count(
    node: Object3DView,
    layout: BindGroupLayout,
    uploads: Uploads,
    filter: MaterialType,
)
    ensures
        mesh_count(materials_written(node, layout, uploads).0, filter) == mesh_count(node, filter),
    decreases node, 1nat,
{
    let own = own_material_written(node, layout, uploads);
    lemma_materials_children_written_mesh_count(
        node.children,
        layout,
        own.1,
        filter,
        node.children.len(),
    );
}

/// The material pass keeps the meshes in and below the children.
pub proof fn lemma_materials_children_written_mesh_count(
    children: Seq<Object3DView>,
    layout: BindGroupLayout,
    uploads: Uploads,
    filter: MaterialType,
    upto: nat,
)
    requires
        upto <= children.len(),
    ensures
        materials_children_written(children, layout, uploads, upto).0.len() == upto,
        children_mesh_count(
            materials_children_written(children, layout, uploads, upto).0,
            filter,
            upto,
        ) == children_mesh_count(children, filter, upto),
    decreases children, 0nat, upto,
{
    if upto > 0 {
        let before = materials_children_written(children, layout, uploads, (upto - 1) as nat);
        let after = materials_children_written(children, layout, uploads, upto);
        lemma_materials_children_written_mesh_count(
            children,
            layout,
            uploads,
            filter,
            (upto - 1) as nat,
        );
        lemma_materials_written_mesh_count(children[upto - 1], layout, before.1, filter);
        lemma_children_mesh_count_prefix(after.0, before.0, filter, (upto - 1) as nat);
    }
}

/// Drawing a tree once for each of `upto` lights takes that many times the
/// tree's draw calls.
pub proof fn lemma_light_passes_draw_calls(
    lights: Seq<Light>,
    root: Object3DView,
    filter: MaterialType,
    upto: nat,
)
    requires
        upto <= lights.len(),
    ensures
        draw_calls(light_passes(lights, root, filter, upto)) == upto * mesh_count(root, filter),
    decreases upto,
{
    if upto > 0 {
        let count = mesh_count(root, filter);
        let earlier = light_passes(lights, root, filter, (upto - 1) as nat);
        let bind = seq![
            RenderCommand::SetBindGroup {
                index: 2,
                bind_group: lights[upto - 1]->PointLight_0.bind_group->0,
            },
        ];
        lemma_light_passes_draw_calls(lights, root, filter, (upto - 1) as nat);
        lemma_draws_every_matching_mesh(root, filter);
        lemma_draw_calls_add(earlier, bind);
        lemma_draw_calls_add(earlier + bind, draw_commands(root, filter));
        assert(draw_calls(bind.drop_last()) == 0);
        assert((upto - 1) * count + count == upto * count) by (nonlinear_arith);
    } else {
        assert(0 * mesh_count(root, filter) == 0);
    }
}

/// A frame draws every Phong mesh of the scene once for each light, and
/// draws nothing else.
pub proof fn lemma_frame_draw_calls(
    scene: SceneView,
    catalog: MaterialManager,
    camera_matrix: MuckableMatrix,
    view_info: ViewInfoData,
    uploads: Uploads,
)
    ensures
        draw_calls(frame(scene, catalog, camera_matrix, view_info, uploads).pass.commands)
            == scene.lights.len() * mesh_count(scene.root, MaterialType::PhongMaterial),
{
    let filter = MaterialType::PhongMaterial;
    let geometry = object_3d_written(scene.root, uploads.device);
    let start = Uploads { device: geometry.1, writes: uploads.writes };
    let matrix_layout = catalog.matrix_bind_group_layout->0;
    let matrices = matrices_written(geometry.0, matrix_layout, seq![identity(), camera_matrix], start);
    let material_layout = catalog.material_bind_group_layouts@[0];
    let materials = materials_written(matrices.0, material_layout, matrices.1);
    let light_layout = catalog.point_light_bind_group_layout->0;
    let lights = lights_written(scene.lights, light_layout, materials.1, scene.lights.len());
    let views = view_infos_written(lights.0, view_info, light_layout, lights.1, scene.lights.len());
    lemma_written_mesh_count(scene.root, uploads.device, filter);
    lemma_matrices_written_mesh_count(
        geometry.0,
        matrix_layout,
        seq![identity(), camera_matrix],
        start,
        filter,
    );
    lemma_materials_written_mesh_count(matrices.0, material_layout, matrices.1, filter);
    lemma_lights_written(scene.lights, light_layout, materials.1, scene.lights.len());
    lemma_view_infos_count(lights.0, view_info, light_layout, lights.1, scene.lights.len());
    lemma_light_passes_draw_calls(views.0, materials.0, filter, views.0.len());
    let set = seq![RenderCommand::SetPipeline { pipeline: catalog.render_pipelines@[0] }];
    lemma_draw_calls_add(set, light_passes(views.0, materials.0, filter, views.0.len()));
    assert(draw_calls(set.drop_last()) == 0);
}

/// Writing the viewer's position for the lights keeps their number.
pub proof fn lemma_view_infos_count(
    lights: Seq<Light>,
    view_info: ViewInfoData,
    layout: BindGroupLayout,
    uploads: Uploads,
    upto: nat,
)
    requires
        upto <= lights.len(),
    ensures
        view_infos_written(lights, view_info, layout, uploads, upto).0.len() == upto,
    decreases upto,
{
    if upto > 0 {
        lemma_view_infos_count(lights, view_info, layout, uploads, (upto - 1) as nat);
    }
}

/// A tree without meshes can be rendered.
pub proof fn lemma_mesh_free_renderable(node: Object3DView)
    requires
        mesh_free(node),
    ensures
        renderable(node),
    decreases node,
{
    assert forall|i: int| 0 <= i < node.children.len() implies prepared(
        #[trigger] node.children[i],
        0,
    ) by {
        lemma_mesh_free_renderable(node.children[i]);
    }
}

/// A scene without meshes can be rendered, and its frame holds no draw call
/// however many lights there are.
pub proof fn lemma_empty_scene_draws_nothing(
    scene: SceneView,
    catalog: MaterialManager,
    camera_matrix: MuckableMatrix,
    view_info: ViewInfoData,
    uploads: Uploads,
)
    requires
        mesh_free(scene.root),
    ensures
        renderable(scene.root),
        draw_calls(frame(scene, catalog, camera_matrix, view_info, uploads).pass.commands) == 0,
{
    lemma_mesh_free_renderable(scene.root);
    lemma_mesh_free_count(scene.root, MaterialType::PhongMaterial);
    lemma_frame_draw_calls(scene, catalog, camera_matrix, view_info, uploads);
    assert(scene.lights.len() * 0 == 0);
}

} // verus!

verus! {

/// Writing lights that have all they need makes nothing: every light keeps
/// its handles, and nothing is asked of the device.
pub proof fn lemma_lights_written_reuses(
    lights: Seq<Light>,
    layout: BindGroupLayout,
    uploads: Uploads,
    upto: nat,
)
    requires
        upto <= lights.len(),
        forall|j: int| 0 <= j < lights.len() ==> settled(#[trigger] lights[j]),
    ensures
        lights_written(lights, layout, uploads, upto).0 == lights.take(upto as int),
        lights_written(lights, layout, uploads, upto).1.device == uploads.device,
    decreases upto,
{
    if upto > 0 {
        lemma_lights_written_reuses(lights, layout, uploads, (upto - 1) as nat);
        assert(settled(lights[upto - 1]));
        assert(lights.take(upto as int) =~= lights.take(upto - 1).push(lights[upto - 1]));
    } else {
        assert(lights.take(0) =~= Seq::<Light>::empty());
    }
}

/// Writing the viewer's position for lights that have all they need makes
/// nothing: every light keeps its handles, and nothing is asked of the
/// device.
pub proof fn lemma_view_infos_written_reuses(
    lights: Seq<Light>,
    view_info: ViewInfoData,
    layout: BindGroupLayout,
    uploads: Uploads,
    upto: nat,
)
    requires
        upto <= lights.len(),
        forall|j: int| 0 <= j < lights.len() ==> settled(#[trigger] lights[j]),
    ensures
        view_infos_written(lights, view_info, layout, uploads, upto).0 == lights.take(upto as int),
        view_infos_written(lights, view_info, layout, uploads, upto).1.device == uploads.device,
    decreases upto,
{
    if upto > 0 {
        lemma_view_infos_written_reuses(lights, view_info, layout, uploads, (upto - 1) as nat);
        assert(settled(lights[upto - 1]));
        assert(lights.take(upto as int) =~= lights.take(upto - 1).push(lights[upto - 1]));
    } else {
        assert(lights.take(0) =~= Seq::<Light>::empty());
    }
}

/// What a frame has made it keeps: the frame after, whatever the camera has
/// done in between and whatever it is recorded onto, leaves the scene with
/// the very handles the first frame gave it and asks nothing more of the
/// device.
pub proof fn lemma_second_frame_reuses(
    scene: SceneView,
    catalog: MaterialManager,
    camera_matrix: MuckableMatrix,
    view_info: ViewInfoData,
    uploads: Uploads,
    later_camera_matrix: MuckableMatrix,
    later_view_info: ViewInfoData,
    later_writes: Seq<BufferWriteView>,
)
    requires
        renderable(scene.root),
    ensures
        ({
            let first = frame(scene, catalog, camera_matrix, view_info, uploads);
            let second = frame(
                first.scene,
                catalog,
                later_camera_matrix,
                later_view_info,
                Uploads { device: first.uploads.device, writes: later_writes },
            );
            &&& second.scene == first.scene
            &&& second.uploads.device == first.uploads.device
            &&& second.pass == first.pass
        }),
{
    let matrix_layout = catalog.matrix_bind_group_layout->0;
    let material_layout = catalog.material_bind_group_layouts@[0];
    let light_layout = catalog.point_light_bind_group_layout->0;
    let n = scene.lights.len();

    // the first frame leaves the tree at the stage three and the lights settled
    let geometry = object_3d_written(scene.root, uploads.device);
    let start = Uploads { device: geometry.1, writes: uploads.writes };
    let seed = seq![identity(), camera_matrix];
    let matrices = matrices_written(geometry.0, matrix_layout, seed, start);
    let materials = materials_written(matrices.0, material_layout, matrices.1);
    let lights = lights_written(scene.lights, light_layout, materials.1, n);
    let views = view_infos_written(lights.0, view_info, light_layout, lights.1, n);
    lemma_written_prepared(scene.root, uploads.device);
    lemma_matrices_written_prepared(geometry.0, matrix_layout, seed, start);
    lemma_materials_written_prepared(matrices.0, material_layout, matrices.1);
    lemma_lights_written(scene.lights, light_layout, materials.1, n);
    lemma_view_infos_written(lights.0, view_info, light_layout, lights.1, n);
    let first = frame(scene, catalog, camera_matrix, view_info, uploads);
    assert(first.scene.root == materials.0);
    assert(first.scene.lights == views.0);

    // so the second frame makes nothing
    let root = materials.0;
    let device = views.1.device;
    lemma_prepared_geometry_present(root, 3);
    lemma_written_when_present(root, device);
    let later_start = Uploads { device, writes: later_writes };
    let later_seed = seq![identity(), later_camera_matrix];
    lemma_matrices_written_reuses(root, matrix_layout, later_seed, later_start, 3);
    let later_matrices = matrices_written(root, matrix_layout, later_seed, later_start);
    lemma_materials_written_reuses(root, material_layout, later_matrices.1);
    let later_materials = materials_written(root, material_layout, later_matrices.1);
    lemma_lights_written_reuses(views.0, light_layout, later_materials.1, n);
    let later_lights = lights_written(views.0, light_layout, later_materials.1, n);
    assert(views.0.take(n as int) =~= views.0);
    lemma_view_infos_written_reuses(views.0, later_view_info, light_layout, later_lights.1, n);
}

} // verus!
