use webgpu_game_engine::renderer::draw_state::DrawState;
use webgpu_game_engine::renderer::light::{Light, ViewInfoData};
use webgpu_game_engine::renderer::material::{
    Material, MaterialManager, MaterialType, PhongMaterial,
};
use webgpu_game_engine::renderer::render::{render, render_to_texture_view};
use webgpu_game_engine::renderer::staging_belt_and_command_encoder::{
    BufferWrite, Color, CommandEncoder, IndexFormat, Payload, RenderCommand, RenderPass,
    StagingBelt, StagingBeltAndCommandEncoder,
};
use webgpu_game_engine::renderer::wgpu_handles::{
    BindGroup, BindGroupDescriptor, BindGroupEntry, BindGroupLabel, BindGroupLayout,
    BindGroupLayoutDescriptor, BindGroupLayoutEntry, BindGroupLayoutLabel, Buffer,
    BufferDescriptor, BufferInitDescriptor, BufferLabel, BufferRequest, BufferUsages, Device,
    PrimitiveState, RenderPipeline, RenderPipelineDescriptor, ShaderModule, ShaderSource,
    ShaderStages, SurfaceCapabilities, TextureFormat, VertexAttribute, WgpuHandles,
};
use webgpu_game_engine::scene::mesh::Mesh;
use webgpu_game_engine::scene::object3d::{Object3D, Object3DObject};
use webgpu_game_engine::scene::scene::Scene;
use webgpu_game_engine::util::matrix_util::{identity_matrix, MuckableMatrix, Transform};

fn bits(values: &[f32]) -> Vec<u32> {
    values.iter().map(|v| v.to_bits()).collect()
}

fn color(r: f32, g: f32, b: f32) -> [u32; 3] {
    [r.to_bits(), g.to_bits(), b.to_bits()]
}

fn point(x: f32, y: f32, z: f32, w: f32) -> [u32; 4] {
    [x.to_bits(), y.to_bits(), z.to_bits(), w.to_bits()]
}

fn translation(x: f32, y: f32, z: f32) -> MuckableMatrix {
    let mut m = identity_matrix();
    m.0[12] = x.to_bits();
    m.0[13] = y.to_bits();
    m.0[14] = z.to_bits();
    m
}

const TRIANGLE_VERTICES: [f32; 36] = [
    0.0, 0.8, 0.1, 1.0, 0.0, 0.0, 1.0, 0.0, 0.0, 0.0, 0.0, 0.0, -0.693, -0.4, 0.1, 1.0, 0.0, 0.0,
    1.0, 0.0, 0.1, 0.0, 0.0, 0.0, 0.693, -0.4, 0.1, 1.0, 0.0, 0.0, 1.0, 0.0, 0.0, 0.1, 0.0, 0.0,
];

fn orange() -> PhongMaterial {
    PhongMaterial::new_without_texture(
        color(0.0, 0.0, 0.0),
        color(1.0, 0.5, 0.0),
        color(1.0, 1.0, 1.0),
        5.0f32.to_bits(),
    )
}

fn triangle(name: Option<&str>) -> Object3D {
    Mesh::new_object_3d(
        name.map(|n| n.to_string()),
        bits(&TRIANGLE_VERTICES),
        vec![0, 1, 2],
        Material::PhongMaterial(orange()),
    )
}

fn textured_triangle() -> Object3D {
    Mesh::new_object_3d(
        None,
        bits(&TRIANGLE_VERTICES),
        vec![0, 1, 2],
        Material::PhongMaterialWithTexture(PhongMaterial::new_with_texture(
            color(0.0, 0.0, 0.0),
            color(1.0, 0.5, 0.0),
            color(1.0, 1.0, 1.0),
            5.0f32.to_bits(),
            &"wood.png".to_string(),
        )),
    )
}

fn filled_catalog(handles: &mut WgpuHandles) -> MaterialManager {
    let mut catalog = MaterialManager::new();
    let capabilities = SurfaceCapabilities {
        formats: vec![TextureFormat { code: 7 }, TextureFormat { code: 9 }],
    };
    catalog.populate(&mut handles.device, &capabilities);
    catalog
}

fn mesh_of(node: &Object3D) -> &Mesh {
    match &node.object {
        Object3DObject::Mesh(mesh) => mesh,
        _ => panic!("the node carries no mesh"),
    }
}

fn phong_of(node: &Object3D) -> &PhongMaterial {
    match &mesh_of(node).material {
        Material::PhongMaterial(material) => material,
        _ => panic!("the mesh is textured"),
    }
}

fn draw_calls(commands: &[RenderCommand]) -> usize {
    commands.iter().filter(|c| matches!(c, RenderCommand::DrawIndexed { .. })).count()
}

fn uniform_usage() -> BufferUsages {
    BufferUsages { vertex: false, index: false, uniform: true, copy_dst: true }
}

fn one_triangle_scene() -> Scene {
    let mut scene = Scene::new();
    scene.root.children.push(triangle(None));
    scene.lights.push(Light::point_light(point(0.0, 0.0, 1.0, 1.0), color(1.0, 1.0, 1.0)));
    scene
}

#[test]
fn catalog_is_filled_with_layouts_shader_and_pipeline() {
    let mut handles = WgpuHandles { device: Device::new() };
    let catalog = filled_catalog(&mut handles);
    assert_eq!(catalog.matrix_bind_group_layout, Some(BindGroupLayout { id: 0 }));
    assert_eq!(catalog.point_light_bind_group_layout, Some(BindGroupLayout { id: 1 }));
    assert_eq!(catalog.material_bind_group_layouts, vec![BindGroupLayout { id: 2 }]);
    assert_eq!(catalog.render_pipelines, vec![RenderPipeline { id: 0 }]);
    assert!(catalog.shaders.is_empty());
    assert!(catalog.textures.is_empty());
    assert_eq!(catalog.view_info_buffer, None);
    assert_eq!(catalog.view_info_bind_group, None);
    assert_eq!(
        handles.device.bind_group_layouts,
        vec![
            BindGroupLayoutDescriptor {
                label: BindGroupLayoutLabel::MatrixBindGroupLayout,
                first: BindGroupLayoutEntry {
                    binding: 0,
                    visibility: ShaderStages::VertexFragment,
                    min_binding_size: 128,
                },
                second: None,
            },
            BindGroupLayoutDescriptor {
                label: BindGroupLayoutLabel::PointLightBindGroupLayout,
                first: BindGroupLayoutEntry {
                    binding: 0,
                    visibility: ShaderStages::VertexFragment,
                    min_binding_size: 32,
                },
                second: Some(BindGroupLayoutEntry {
                    binding: 1,
                    visibility: ShaderStages::Vertex,
                    min_binding_size: 16,
                }),
            },
            BindGroupLayoutDescriptor {
                label: BindGroupLayoutLabel::PhongMaterialBindGroupLayout,
                first: BindGroupLayoutEntry {
                    binding: 0,
                    visibility: ShaderStages::Fragment,
                    min_binding_size: 64,
                },
                second: None,
            },
        ]
    );
    assert_eq!(handles.device.shader_modules, vec![ShaderSource::PhongModel]);
    assert_eq!(
        handles.device.render_pipelines,
        vec![RenderPipelineDescriptor {
            transform_layout: BindGroupLayout { id: 0 },
            material_layout: BindGroupLayout { id: 2 },
            light_layout: BindGroupLayout { id: 1 },
            module: ShaderModule { id: 0 },
            array_stride: 48,
            position: VertexAttribute { offset: 0, shader_location: 0 },
            normal: VertexAttribute { offset: 16, shader_location: 1 },
            uv: VertexAttribute { offset: 32, shader_location: 2 },
            target: TextureFormat { code: 7 },
            primitive: PrimitiveState {
                triangle_list: true,
                front_face_counter_clockwise: true,
                cull_back_faces: true,
            },
        }]
    );
    assert!(handles.device.buffers.is_empty());
    assert!(handles.device.bind_groups.is_empty());
    assert_eq!(
        catalog.get_pipeline_for_material_type(&MaterialType::PhongMaterial),
        &RenderPipeline { id: 0 }
    );
}

#[test]
fn one_triangle_one_light_is_one_draw_call() {
    let mut handles = WgpuHandles { device: Device::new() };
    let catalog = filled_catalog(&mut handles);
    let mut scene = one_triangle_scene();
    let camera = translation(0.0, 0.0, -2.0);
    let eye = ViewInfoData { position: point(0.0, 0.0, 2.0, 1.0) };

    let frame = render_to_texture_view(&mut scene, &mut handles, &camera, &eye, &catalog);

    assert_eq!(frame.command_encoder.render_passes.len(), 1);
    let pass = &frame.command_encoder.render_passes[0];
    assert_eq!(draw_calls(&pass.commands), 1);
    assert_eq!(
        pass.commands,
        vec![
            RenderCommand::SetPipeline { pipeline: RenderPipeline { id: 0 } },
            RenderCommand::SetBindGroup { index: 2, bind_group: BindGroup { id: 3 } },
            RenderCommand::SetBindGroup { index: 0, bind_group: BindGroup { id: 1 } },
            RenderCommand::SetBindGroup { index: 1, bind_group: BindGroup { id: 2 } },
            RenderCommand::SetVertexBuffer { slot: 0, buffer: Buffer { id: 0 } },
            RenderCommand::SetIndexBuffer { buffer: Buffer { id: 1 }, format: IndexFormat::Uint32 },
            RenderCommand::DrawIndexed { index_count: 3 },
        ]
    );
    assert_eq!(
        pass.clear_color,
        Color {
            r: 1.0f64.to_bits(),
            g: 0.6f64.to_bits(),
            b: 0.8f64.to_bits(),
            a: 1.0f64.to_bits(),
        }
    );

    let child = &scene.root.children[0];
    assert_eq!(mesh_of(child).vertex_buffer, Some(Buffer { id: 0 }));
    assert_eq!(mesh_of(child).index_buffer, Some(Buffer { id: 1 }));
    assert_eq!(scene.root.matrix_buffer, Some(Buffer { id: 2 }));
    assert_eq!(scene.root.matrix_bind_group, Some(BindGroup { id: 0 }));
    assert_eq!(child.matrix_buffer, Some(Buffer { id: 3 }));
    assert_eq!(child.matrix_bind_group, Some(BindGroup { id: 1 }));
    assert_eq!(phong_of(child).buffer, Some(Buffer { id: 4 }));
    assert_eq!(phong_of(child).bind_group, Some(BindGroup { id: 2 }));
    let Light::PointLight(light) = &scene.lights[0];
    assert_eq!(light.buffer, Some(Buffer { id: 5 }));
    assert_eq!(light.view_info.view_info_buffer, Some(Buffer { id: 6 }));
    assert_eq!(light.bind_group, Some(BindGroup { id: 3 }));

    assert_eq!(
        handles.device.buffers,
        vec![
            BufferRequest::Filled(BufferInitDescriptor {
                label: BufferLabel::MeshVertexBuffer,
                contents: bits(&TRIANGLE_VERTICES),
                usage: BufferUsages { vertex: true, index: false, uniform: false, copy_dst: true },
            }),
            BufferRequest::Filled(BufferInitDescriptor {
                label: BufferLabel::MeshIndexBuffer,
                contents: vec![0, 1, 2],
                usage: BufferUsages { vertex: false, index: true, uniform: false, copy_dst: true },
            }),
            BufferRequest::Empty(BufferDescriptor {
                label: BufferLabel::MatrixBuffer,
                size: 128,
                usage: uniform_usage(),
            }),
            BufferRequest::Empty(BufferDescriptor {
                label: BufferLabel::MatrixBuffer,
                size: 128,
                usage: uniform_usage(),
            }),
            BufferRequest::Empty(BufferDescriptor {
                label: BufferLabel::PhongMaterialBuffer,
                size: 64,
                usage: uniform_usage(),
            }),
            BufferRequest::Empty(BufferDescriptor {
                label: BufferLabel::PointLightBuffer,
                size: 40,
                usage: uniform_usage(),
            }),
            BufferRequest::Empty(BufferDescriptor {
                label: BufferLabel::ViewInfoBuffer,
                size: 16,
                usage: uniform_usage(),
            }),
        ]
    );
    let whole = |binding: u32, id: usize, size: Option<u64>| BindGroupEntry {
        binding,
        buffer: Buffer { id },
        offset: 0,
        size,
    };
    assert_eq!(
        handles.device.bind_groups,
        vec![
            BindGroupDescriptor {
                label: BindGroupLabel::MatrixBindGroup,
                layout: BindGroupLayout { id: 0 },
                first: whole(0, 2, Some(128)),
                second: None,
            },
            BindGroupDescriptor {
                label: BindGroupLabel::MatrixBindGroup,
                layout: BindGroupLayout { id: 0 },
                first: whole(0, 3, Some(128)),
                second: None,
            },
            BindGroupDescriptor {
                label: BindGroupLabel::PhongMaterialBindGroup,
                layout: BindGroupLayout { id: 2 },
                first: whole(0, 4, None),
                second: None,
            },
            BindGroupDescriptor {
                label: BindGroupLabel::PointLightBindGroup,
                layout: BindGroupLayout { id: 1 },
                first: whole(0, 5, None),
                second: Some(whole(1, 6, None)),
            },
        ]
    );

    let identity = identity_matrix();
    assert_eq!(
        frame.staging_belt.writes,
        vec![
            BufferWrite {
                target: Buffer { id: 2 },
                offset: 0,
                payload: Payload::MatrixAndInverse(Transform {
                    steps: vec![identity, camera, identity],
                }),
            },
            BufferWrite {
                target: Buffer { id: 3 },
                offset: 0,
                payload: Payload::MatrixAndInverse(Transform {
                    steps: vec![identity, camera, identity, identity],
                }),
            },
            BufferWrite {
                target: Buffer { id: 4 },
                offset: 0,
                payload: Payload::Words(bits(&[
                    0.0, 0.0, 0.0, 0.0, 1.0, 0.5, 0.0, 0.0, 1.0, 1.0, 1.0, 5.0
                ])),
            },
            BufferWrite {
                target: Buffer { id: 5 },
                offset: 0,
                payload: Payload::Words(bits(&[0.0, 0.0, 1.0, 1.0, 1.0, 1.0, 1.0])),
            },
            BufferWrite {
                target: Buffer { id: 6 },
                offset: 0,
                payload: Payload::Words(bits(&[0.0, 0.0, 2.0, 1.0])),
            },
        ]
    );
}

#[test]
fn second_frame_reuses_every_handle() {
    let mut handles = WgpuHandles { device: Device::new() };
    let catalog = filled_catalog(&mut handles);
    let mut scene = one_triangle_scene();
    let camera = translation(0.0, 0.0, -2.0);
    let eye = ViewInfoData { position: point(0.0, 0.0, 2.0, 1.0) };

    let first = render_to_texture_view(&mut scene, &mut handles, &camera, &eye, &catalog);
    let buffers = handles.device.buffers.len();
    let bind_groups = handles.device.bind_groups.len();
    let root_group = scene.root.matrix_bind_group;
    let root_buffer = scene.root.matrix_buffer;
    let child_group = scene.root.children[0].matrix_bind_group;
    let child_buffer = scene.root.children[0].matrix_buffer;
    let material = *phong_of(&scene.root.children[0]);
    let vertex_buffer = mesh_of(&scene.root.children[0]).vertex_buffer;
    let index_buffer = mesh_of(&scene.root.children[0]).index_buffer;
    let light = scene.lights[0];

    let moved = translation(0.0, 0.5, -3.0);
    let second = render_to_texture_view(&mut scene, &mut handles, &moved, &eye, &catalog);

    assert_eq!(handles.device.buffers.len(), buffers);
    assert_eq!(handles.device.bind_groups.len(), bind_groups);
    assert_eq!(scene.root.matrix_bind_group, root_group);
    assert_eq!(scene.root.matrix_buffer, root_buffer);
    assert_eq!(scene.root.children[0].matrix_bind_group, child_group);
    assert_eq!(scene.root.children[0].matrix_buffer, child_buffer);
    assert_eq!(*phong_of(&scene.root.children[0]), material);
    assert_eq!(mesh_of(&scene.root.children[0]).vertex_buffer, vertex_buffer);
    assert_eq!(mesh_of(&scene.root.children[0]).index_buffer, index_buffer);
    assert_eq!(scene.lights[0], light);
    assert_eq!(
        first.command_encoder.render_passes[0].commands,
        second.command_encoder.render_passes[0].commands
    );
    assert_eq!(draw_calls(&second.command_encoder.render_passes[0].commands), 1);
    assert_eq!(second.staging_belt.writes.len(), first.staging_belt.writes.len());
    assert_eq!(
        second.staging_belt.writes[1].payload,
        Payload::MatrixAndInverse(Transform {
            steps: vec![identity_matrix(), moved, identity_matrix(), identity_matrix()],
        })
    );
}

#[test]
fn empty_scene_draws_nothing() {
    let mut handles = WgpuHandles { device: Device::new() };
    let catalog = filled_catalog(&mut handles);
    let mut scene = Scene::new();
    let eye = ViewInfoData { position: point(0.0, 0.0, 0.0, 1.0) };
    let frame =
        render_to_texture_view(&mut scene, &mut handles, &identity_matrix(), &eye, &catalog);
    assert_eq!(
        frame.command_encoder.render_passes[0].commands,
        vec![RenderCommand::SetPipeline { pipeline: RenderPipeline { id: 0 } }]
    );
    assert_eq!(frame.staging_belt.writes.len(), 1);
}

#[test]
fn scene_of_empty_nodes_and_lights_draws_nothing() {
    let mut handles = WgpuHandles { device: Device::new() };
    let catalog = filled_catalog(&mut handles);
    let mut scene = Scene::new();
    let mut branch = Object3D::create_empty();
    branch.children.push(Object3D::create_empty());
    scene.root.children.push(branch);
    scene.root.children.push(Object3D::create_empty());
    scene.lights.push(Light::point_light(point(0.0, 0.0, 1.0, 1.0), color(1.0, 1.0, 1.0)));
    scene.lights.push(Light::point_light(point(2.0, 0.0, 1.0, 1.0), color(1.0, 0.0, 0.0)));
    let eye = ViewInfoData { position: point(0.0, 0.0, 0.0, 1.0) };
    let frame =
        render_to_texture_view(&mut scene, &mut handles, &identity_matrix(), &eye, &catalog);
    let commands = &frame.command_encoder.render_passes[0].commands;
    assert_eq!(draw_calls(commands), 0);
    assert_eq!(
        commands,
        &vec![
            RenderCommand::SetPipeline { pipeline: RenderPipeline { id: 0 } },
            RenderCommand::SetBindGroup { index: 2, bind_group: BindGroup { id: 4 } },
            RenderCommand::SetBindGroup { index: 2, bind_group: BindGroup { id: 5 } },
        ]
    );
    assert_eq!(frame.staging_belt.writes.len(), 4 + 2 + 2);
}

#[test]
fn every_mesh_is_drawn_once_for_each_light() {
    let mut handles = WgpuHandles { device: Device::new() };
    let catalog = filled_catalog(&mut handles);
    let mut scene = Scene::new();
    let mut deep = Object3D::create_empty();
    let mut deeper = triangle(Some("below"));
    deeper.children.push(triangle(Some("lowest")));
    deep.children.push(deeper);
    scene.root.children.push(triangle(Some("first")));
    scene.root.children.push(deep);
    for i in 0..3 {
        scene
            .lights
            .push(Light::point_light(point(i as f32, 0.0, 1.0, 1.0), color(1.0, 1.0, 1.0)));
    }
    let eye = ViewInfoData { position: point(0.0, 0.0, 0.0, 1.0) };
    let frame =
        render_to_texture_view(&mut scene, &mut handles, &identity_matrix(), &eye, &catalog);
    assert_eq!(draw_calls(&frame.command_encoder.render_passes[0].commands), 3 * 3);
}

#[test]
fn render_adds_to_the_recording_it_is_given() {
    let mut handles = WgpuHandles { device: Device::new() };
    let catalog = filled_catalog(&mut handles);
    let mut scene = one_triangle_scene();
    let eye = ViewInfoData { position: point(0.0, 0.0, 0.0, 1.0) };
    let mut recording =
        StagingBeltAndCommandEncoder::new(StagingBelt::new(), CommandEncoder::new());
    recording.write_buffer(&Buffer { id: 40 }, 8, &[1, 2, 3]);
    render(&mut scene, &mut handles, &identity_matrix(), &eye, &catalog, &mut recording);
    render(&mut scene, &mut handles, &identity_matrix(), &eye, &catalog, &mut recording);
    assert_eq!(recording.command_encoder.render_passes.len(), 2);
    assert_eq!(recording.staging_belt.writes.len(), 1 + 5 + 5);
    assert_eq!(
        recording.staging_belt.writes[0],
        BufferWrite { target: Buffer { id: 40 }, offset: 8, payload: Payload::Words(vec![1, 2, 3]) }
    );
}

#[test]
fn geometry_is_uploaded_once() {
    let mut handles = WgpuHandles { device: Device::new() };
    let catalog = filled_catalog(&mut handles);
    let mut root = Object3D::create_empty();
    let mut first = triangle(None);
    first.children.push(triangle(None));
    root.children.push(first);
    root.children.push(triangle(None));

    catalog.write_object_3d(&mut root, &mut handles);
    let ids = |root: &Object3D| {
        vec![
            (mesh_of(&root.children[0]).vertex_buffer, mesh_of(&root.children[0]).index_buffer),
            (
                mesh_of(&root.children[0].children[0]).vertex_buffer,
                mesh_of(&root.children[0].children[0]).index_buffer,
            ),
            (mesh_of(&root.children[1]).vertex_buffer, mesh_of(&root.children[1]).index_buffer),
        ]
    };
    let after_first = ids(&root);
    assert_eq!(
        after_first,
        vec![
            (Some(Buffer { id: 0 }), Some(Buffer { id: 1 })),
            (Some(Buffer { id: 2 }), Some(Buffer { id: 3 })),
            (Some(Buffer { id: 4 }), Some(Buffer { id: 5 })),
        ]
    );
    assert_eq!(handles.device.buffers.len(), 6);

    handles.device.create_buffer(BufferLabel::ViewInfoBuffer, 16);
    catalog.write_object_3d(&mut root, &mut handles);
    assert_eq!(ids(&root), after_first);
    assert_eq!(handles.device.buffers.len(), 7);
}

#[test]
fn mesh_with_vertex_buffer_keeps_it_and_one_without_gets_both() {
    let mut handles = WgpuHandles { device: Device::new() };
    let catalog = filled_catalog(&mut handles);
    let mut kept = triangle(None);
    if let Object3DObject::Mesh(mesh) = &mut kept.object {
        mesh.vertex_buffer = Some(Buffer { id: 70 });
        mesh.index_buffer = Some(Buffer { id: 71 });
    }
    catalog.write_object_3d_single(&mut kept, &mut handles);
    assert_eq!(mesh_of(&kept).vertex_buffer, Some(Buffer { id: 70 }));
    assert_eq!(mesh_of(&kept).index_buffer, Some(Buffer { id: 71 }));
    assert!(handles.device.buffers.is_empty());

    let mut parent = triangle(None);
    parent.children.push(triangle(None));
    catalog.write_object_3d_single(&mut parent, &mut handles);
    assert_eq!(mesh_of(&parent).vertex_buffer, Some(Buffer { id: 0 }));
    assert_eq!(mesh_of(&parent).index_buffer, Some(Buffer { id: 1 }));
    assert_eq!(mesh_of(&parent.children[0]).vertex_buffer, None);

    let mut empty = Object3D::create_empty();
    catalog.write_object_3d_single(&mut empty, &mut handles);
    assert_eq!(handles.device.buffers.len(), 2);

    let mut odd = triangle(None);
    if let Object3DObject::Mesh(mesh) = &mut odd.object {
        mesh.index_buffer = Some(Buffer { id: 90 });
    }
    catalog.write_object_3d_single(&mut odd, &mut handles);
    assert_eq!(mesh_of(&odd).vertex_buffer, Some(Buffer { id: 2 }));
    assert_eq!(mesh_of(&odd).index_buffer, Some(Buffer { id: 3 }));
    assert_eq!(handles.device.buffers.len(), 4);
}

#[test]
fn transform_pass_leaves_the_stack_as_it_found_it() {
    let mut handles = WgpuHandles { device: Device::new() };
    let catalog = filled_catalog(&mut handles);
    let mut root = Object3D::create_empty();
    root.matrix = translation(1.0, 0.0, 0.0);
    let mut child = triangle(None);
    child.matrix = translation(0.0, 2.0, 0.0);
    let mut grandchild = Object3D::create_empty();
    grandchild.matrix = translation(0.0, 0.0, 3.0);
    child.children.push(grandchild);
    let mut sibling = Object3D::create_empty();
    sibling.matrix = translation(4.0, 4.0, 4.0);
    root.children.push(child);
    root.children.push(sibling);

    let camera = translation(0.0, 0.0, -5.0);
    let mut state = DrawState::new(MaterialType::PhongMaterial);
    state.transform(&camera);
    state.push_matrix();
    let before: Vec<Vec<MuckableMatrix>> =
        state.matrix_stack.iter().map(|t| t.steps.clone()).collect();
    let mut recording =
        StagingBeltAndCommandEncoder::new(StagingBelt::new(), CommandEncoder::new());

    root.write_matrices(&mut handles, &catalog, &mut state, &mut recording);

    let after: Vec<Vec<MuckableMatrix>> =
        state.matrix_stack.iter().map(|t| t.steps.clone()).collect();
    assert_eq!(after, before);
    assert_eq!(state.current_material, MaterialType::PhongMaterial);

    let identity = identity_matrix();
    let seed = vec![identity, camera];
    let with = |steps: &[MuckableMatrix]| {
        let mut all = seed.clone();
        all.extend_from_slice(steps);
        Payload::MatrixAndInverse(Transform { steps: all })
    };
    let payloads: Vec<&Payload> = recording.staging_belt.writes.iter().map(|w| &w.payload).collect();
    assert_eq!(
        payloads,
        vec![
            &with(&[translation(1.0, 0.0, 0.0)]),
            &with(&[translation(1.0, 0.0, 0.0), translation(0.0, 2.0, 0.0)]),
            &with(&[
                translation(1.0, 0.0, 0.0),
                translation(0.0, 2.0, 0.0),
                translation(0.0, 0.0, 3.0)
            ]),
            &with(&[translation(1.0, 0.0, 0.0), translation(4.0, 4.0, 4.0)]),
        ]
    );
    let targets: Vec<Buffer> = recording.staging_belt.writes.iter().map(|w| w.target).collect();
    assert_eq!(
        targets,
        vec![Buffer { id: 0 }, Buffer { id: 1 }, Buffer { id: 2 }, Buffer { id: 3 }]
    );
    assert_eq!(root.children[0].children[0].matrix_buffer, Some(Buffer { id: 2 }));
    assert_eq!(root.children[1].matrix_bind_group, Some(BindGroup { id: 3 }));
    assert!(recording.command_encoder.render_passes.is_empty());
}

#[test]
fn transform_pass_keeps_a_buffer_that_is_there() {
    let mut handles = WgpuHandles { device: Device::new() };
    let catalog = filled_catalog(&mut handles);
    let mut node = Object3D::create_empty();
    node.matrix_buffer = Some(Buffer { id: 31 });
    let mut state = DrawState::new(MaterialType::PhongMaterial);
    let mut recording =
        StagingBeltAndCommandEncoder::new(StagingBelt::new(), CommandEncoder::new());
    node.write_matrices(&mut handles, &catalog, &mut state, &mut recording);
    assert_eq!(node.matrix_buffer, Some(Buffer { id: 31 }));
    assert_eq!(node.matrix_bind_group, Some(BindGroup { id: 0 }));
    assert!(handles.device.buffers.is_empty());
    assert_eq!(
        handles.device.bind_groups,
        vec![BindGroupDescriptor {
            label: BindGroupLabel::MatrixBindGroup,
            layout: BindGroupLayout { id: 0 },
            first: BindGroupEntry {
                binding: 0,
                buffer: Buffer { id: 31 },
                offset: 0,
                size: Some(128)
            },
            second: None,
        }]
    );
    assert_eq!(recording.staging_belt.writes[0].target, Buffer { id: 31 });
}

#[test]
fn draw_state_stack_operations() {
    let mut state = DrawState::new(MaterialType::PhongMaterialWithTexture);
    assert_eq!(state.current_material, MaterialType::PhongMaterialWithTexture);
    assert_eq!(state.matrix_stack, vec![Transform { steps: vec![identity_matrix()] }]);
    let a = translation(1.0, 2.0, 3.0);
    let b = translation(4.0, 5.0, 6.0);
    state.transform(&a);
    assert_eq!(state.get_matrix(), &Transform { steps: vec![identity_matrix(), a] });
    state.push_matrix();
    state.transform(&b);
    assert_eq!(state.matrix_stack.len(), 2);
    assert_eq!(state.get_matrix().steps, vec![identity_matrix(), a, b]);
    assert_eq!(state.matrix_stack[0].steps, vec![identity_matrix(), a]);
    state.pop_matrix();
    assert_eq!(state.get_matrix().steps, vec![identity_matrix(), a]);
    state.pop_matrix();
    assert!(state.matrix_stack.is_empty());
    state.pop_matrix();
    assert!(state.matrix_stack.is_empty());
}

#[test]
fn draw_traversal_passes_over_meshes_of_another_model() {
    let mut root = Object3D::create_empty();
    let mut plain = triangle(None);
    plain.matrix_bind_group = Some(BindGroup { id: 10 });
    if let Object3DObject::Mesh(mesh) = &mut plain.object {
        mesh.vertex_buffer = Some(Buffer { id: 20 });
        mesh.index_buffer = Some(Buffer { id: 21 });
        if let Material::PhongMaterial(material) = &mut mesh.material {
            material.bind_group = Some(BindGroup { id: 11 });
        }
    }
    let mut textured = textured_triangle();
    textured.matrix_bind_group = Some(BindGroup { id: 12 });
    let mut below = triangle(None);
    below.matrix_bind_group = Some(BindGroup { id: 13 });
    if let Object3DObject::Mesh(mesh) = &mut below.object {
        mesh.index_array = vec![0, 1, 2, 2, 1, 0];
        mesh.vertex_buffer = Some(Buffer { id: 22 });
        mesh.index_buffer = Some(Buffer { id: 23 });
        if let Material::PhongMaterial(material) = &mut mesh.material {
            material.bind_group = Some(BindGroup { id: 14 });
        }
    }
    textured.children.push(below);
    root.children.push(plain);
    root.children.push(textured);

    let mut state = DrawState::new(MaterialType::PhongMaterial);
    let mut pass = RenderPass::new(Color { r: 0, g: 0, b: 0, a: 0 });
    pass.draw_object_3d(&mut state, &root);
    assert_eq!(
        pass.commands,
        vec![
            RenderCommand::SetBindGroup { index: 0, bind_group: BindGroup { id: 10 } },
            RenderCommand::SetBindGroup { index: 1, bind_group: BindGroup { id: 11 } },
            RenderCommand::SetVertexBuffer { slot: 0, buffer: Buffer { id: 20 } },
            RenderCommand::SetIndexBuffer { buffer: Buffer { id: 21 }, format: IndexFormat::Uint32 },
            RenderCommand::DrawIndexed { index_count: 3 },
            RenderCommand::SetBindGroup { index: 0, bind_group: BindGroup { id: 12 } },
            RenderCommand::SetBindGroup { index: 0, bind_group: BindGroup { id: 13 } },
            RenderCommand::SetBindGroup { index: 1, bind_group: BindGroup { id: 14 } },
            RenderCommand::SetVertexBuffer { slot: 0, buffer: Buffer { id: 22 } },
            RenderCommand::SetIndexBuffer { buffer: Buffer { id: 23 }, format: IndexFormat::Uint32 },
            RenderCommand::DrawIndexed { index_count: 6 },
        ]
    );
    assert_eq!(draw_calls(&pass.commands), 2);
    assert_eq!(state.matrix_stack.len(), 1);
}

#[test]
fn renderable_trees_are_told_from_others() {
    let mut good = Object3D::create_empty();
    good.children.push(triangle(None));
    assert!(good.is_renderable());
    assert!(good.has_no_textures());

    let mut textured = Object3D::create_empty();
    let mut branch = triangle(None);
    branch.children.push(textured_triangle());
    textured.children.push(branch);
    assert!(!textured.is_renderable());
    assert!(!textured.has_no_textures());

    let mut half = triangle(None);
    if let Object3DObject::Mesh(mesh) = &mut half.object {
        mesh.vertex_buffer = Some(Buffer { id: 0 });
    }
    assert!(!half.is_renderable());
    assert!(half.has_no_textures());
    if let Object3DObject::Mesh(mesh) = &mut half.object {
        mesh.index_buffer = Some(Buffer { id: 1 });
    }
    assert!(half.is_renderable());
    assert!(Object3D::create_empty().is_renderable());
}

#[test]
fn tree_is_ready_to_draw_after_the_three_passes_only() {
    let mut handles = WgpuHandles { device: Device::new() };
    let catalog = filled_catalog(&mut handles);
    assert!(catalog.is_populated());
    assert!(!MaterialManager::new().is_populated());
    let mut root = Object3D::create_empty();
    root.children.push(triangle(None));
    let phong = MaterialType::PhongMaterial;
    let other = MaterialType::PhongMaterialWithTexture;
    assert!(!root.is_ready_to_draw(&phong));
    assert!(!root.is_ready_to_draw(&other));

    catalog.write_object_3d(&mut root, &mut handles);
    assert!(!root.is_ready_to_draw(&phong));
    let mut state = DrawState::new(phong);
    let mut recording =
        StagingBeltAndCommandEncoder::new(StagingBelt::new(), CommandEncoder::new());
    root.write_matrices(&mut handles, &catalog, &mut state, &mut recording);
    assert!(!root.is_ready_to_draw(&phong));
    assert!(root.is_ready_to_draw(&other));
    root.write_materials(&mut handles, &catalog, &mut recording);
    assert!(root.is_ready_to_draw(&phong));
    assert!(mesh_of(&root.children[0]).is_ready(&phong));

    let mut textured = textured_triangle();
    textured.matrix_bind_group = Some(BindGroup { id: 0 });
    assert!(textured.is_ready_to_draw(&phong));
    assert!(!textured.is_ready_to_draw(&other));
}
