use webgpu_game_engine::engine::mouse_service::{MouseAction, MouseEvent, MouseService};
use webgpu_game_engine::engine::service::{EnabledServices, ServiceType};
use webgpu_game_engine::engine::winit::WinitSettings;
use webgpu_game_engine::renderer::light::{set_bind_group, Light, PointLightData, ViewInfoData};
use webgpu_game_engine::renderer::material::{
    colors_equal, numbers_equal, Material, MaterialManager, MaterialType, PhongMaterial,
    PhongMaterialData,
};
use webgpu_game_engine::renderer::staging_belt_and_command_encoder::{
    BufferWrite, Color, CommandEncoder, Payload, RenderCommand, RenderPass, StagingBelt,
    StagingBeltAndCommandEncoder,
};
use webgpu_game_engine::renderer::wgpu_handles::{
    BindGroup, BindGroupDescriptor, BindGroupEntry, BindGroupLabel, BindGroupLayout, Buffer,
    BufferDescriptor, BufferLabel, BufferRequest, BufferUsages, Device, SurfaceCapabilities,
    TextureFormat, WgpuHandles,
};
use webgpu_game_engine::scene::camera::Camera;
use webgpu_game_engine::scene::mesh::{Mesh, VertexBufferObject};
use webgpu_game_engine::scene::object3d::{Object3D, Object3DObject};
use webgpu_game_engine::scene::scene::Scene;
use webgpu_game_engine::util::boxed_slice::alloc_box_buffer;
use webgpu_game_engine::util::matrix_util::Transform;
use webgpu_game_engine::util::orbit_controls::init_orbit_controls;
use webgpu_game_engine::util::simple_axes::simple_axes;
use webgpu_game_engine::util::{identity_matrix, MuckableMatrix};

fn color(r: f32, g: f32, b: f32) -> [u32; 3] {
    [r.to_bits(), g.to_bits(), b.to_bits()]
}

fn words(values: &[f32]) -> Vec<u32> {
    values.iter().map(|v| v.to_bits()).collect()
}

fn filled() -> (WgpuHandles, MaterialManager) {
    let mut handles = WgpuHandles { device: Device::new() };
    let mut catalog = MaterialManager::new();
    catalog.populate(
        &mut handles.device,
        &SurfaceCapabilities { formats: vec![TextureFormat { code: 1 }] },
    );
    (handles, catalog)
}

fn recording() -> StagingBeltAndCommandEncoder {
    StagingBeltAndCommandEncoder::new(StagingBelt::new(), CommandEncoder::new())
}

#[test]
fn services_start_off_and_are_switched_on_one_by_one() {
    let mut services = EnabledServices::default();
    assert_eq!(services, EnabledServices { mouse_service: false, tweening_service: false });
    services.enable(ServiceType::TweeningService);
    assert_eq!(services, EnabledServices { mouse_service: false, tweening_service: true });
    services.enable(ServiceType::MouseService).enable(ServiceType::MouseService);
    assert_eq!(services, EnabledServices { mouse_service: true, tweening_service: true });
}

#[test]
fn orbit_controls_switch_the_mouse_service_on() {
    let mut services = EnabledServices::default();
    init_orbit_controls(&mut services);
    assert_eq!(services, EnabledServices { mouse_service: true, tweening_service: false });
    let mut both = EnabledServices { mouse_service: false, tweening_service: true };
    init_orbit_controls(&mut both);
    assert_eq!(both, EnabledServices { mouse_service: true, tweening_service: true });
}

#[test]
fn window_settings_hold_the_size() {
    let settings = WinitSettings { window_width: 800, window_height: 600 };
    assert_eq!((settings.window_width, settings.window_height), (800, 600));
}

#[test]
fn pointer_gesture_is_followed() {
    let mut service = MouseService::new();
    assert!(!service.is_down);
    let moved = service.handle_mouse_move(
        10.0f64.to_bits(),
        20.0f64.to_bits(),
        10.0f64.to_bits(),
        20.0f64.to_bits(),
    );
    assert_eq!(
        moved,
        MouseEvent { action: MouseAction::MOVE, x: 10.0f64.to_bits(), y: 20.0f64.to_bits() }
    );
    let down = service.handle_mouse_down();
    assert_eq!(
        down,
        MouseEvent { action: MouseAction::DOWN, x: 10.0f64.to_bits(), y: 20.0f64.to_bits() }
    );
    assert!(service.is_down);
    assert_eq!(service.gesture_start_x, 10.0f64.to_bits());
    assert_eq!(service.gesture_start_y, 20.0f64.to_bits());
    service.handle_mouse_move(
        13.0f64.to_bits(),
        19.0f64.to_bits(),
        3.0f64.to_bits(),
        (-1.0f64).to_bits(),
    );
    assert_eq!(service.delta_x, 3.0f64.to_bits());
    assert_eq!(service.delta_y, (-1.0f64).to_bits());
    assert_eq!(service.gesture_start_x, 10.0f64.to_bits());
    let up = service.handle_mouse_up();
    assert_eq!(
        up,
        MouseEvent { action: MouseAction::UP, x: 13.0f64.to_bits(), y: 19.0f64.to_bits() }
    );
    assert!(!service.is_down);
    service.clear_deltas();
    assert_eq!(service.delta_x, 0.0f64.to_bits());
    assert_eq!(service.delta_y, 0.0f64.to_bits());
    assert_eq!(service.last_x, 13.0f64.to_bits());
}

#[test]
fn identity_has_ones_on_the_diagonal() {
    let cells: Vec<f32> = identity_matrix().0.iter().map(|b| f32::from_bits(*b)).collect();
    assert_eq!(
        cells,
        vec![1.0, 0.0, 0.0, 0.0, 0.0, 1.0, 0.0, 0.0, 0.0, 0.0, 1.0, 0.0, 0.0, 0.0, 0.0, 1.0]
    );
}

#[test]
fn transform_collects_its_steps() {
    let mut transform = Transform::identity();
    let mut a = identity_matrix();
    a.0[12] = 2.0f32.to_bits();
    transform.left_multiply(&a);
    let copy = transform.duplicate();
    transform.left_multiply(&identity_matrix());
    assert_eq!(copy.steps, vec![identity_matrix(), a]);
    assert_eq!(transform.steps, vec![identity_matrix(), a, identity_matrix()]);
}

#[test]
fn zeroed_buffer_has_the_length_asked_for() {
    assert_eq!(alloc_box_buffer(0), Vec::<u32>::new());
    assert_eq!(alloc_box_buffer(5), vec![0, 0, 0, 0, 0]);
}

#[test]
fn vertex_is_padded_to_three_times_four_words() {
    let v = VertexBufferObject::new_from_slices(
        &color(1.0, 2.0, 3.0),
        &color(0.0, 1.0, 0.0),
        &[0.5f32.to_bits(), 0.25f32.to_bits()],
    );
    assert_eq!(v.position.to_vec(), words(&[1.0, 2.0, 3.0, 1.0]));
    assert_eq!(v.normal.to_vec(), words(&[0.0, 1.0, 0.0, 0.0]));
    assert_eq!(v.uv.to_vec(), words(&[0.5, 0.25, 0.0, 0.0]));
}

#[test]
fn new_nodes_have_nothing_on_the_device() {
    let empty = Object3D::create_empty();
    assert_eq!(empty.name, None);
    assert_eq!(empty.matrix, identity_matrix());
    assert!(matches!(empty.object, Object3DObject::Empty));
    assert!(empty.children.is_empty());
    assert_eq!(empty.matrix_bind_group, None);
    assert_eq!(empty.matrix_buffer, None);
    assert!(!empty.is_drawable());

    let mesh = Mesh::new_object_3d(
        Some("m".to_string()),
        vec![1, 2, 3],
        vec![0, 0, 0],
        Material::PhongMaterial(PhongMaterial::new_without_texture(
            color(0.0, 0.0, 0.0),
            color(0.0, 0.0, 0.0),
            color(0.0, 0.0, 0.0),
            0,
        )),
    );
    assert!(mesh.is_drawable());
    assert_eq!(mesh.name, Some("m".to_string()));
    assert_eq!(mesh.matrix, identity_matrix());
    assert!(mesh.children.is_empty());
    match &mesh.object {
        Object3DObject::Mesh(m) => {
            assert_eq!(m.vertex_array, vec![1, 2, 3]);
            assert_eq!(m.index_array, vec![0, 0, 0]);
            assert_eq!(m.vertex_buffer, None);
            assert_eq!(m.index_buffer, None);
        }
        _ => panic!("a mesh was expected"),
    }
    let mut scene_node = Object3D::create_empty();
    scene_node.object = Object3DObject::Scene;
    assert!(!scene_node.is_drawable());
}

#[test]
fn fresh_scene_has_the_default_camera() {
    for scene in [Scene::new(), Scene::default()] {
        assert!(scene.lights.is_empty());
        assert_eq!(
            scene.camera,
            Camera::PerspectiveCamera {
                world_to_local: identity_matrix(),
                near: 0.1f32.to_bits(),
                far: 3.0f32.to_bits(),
                aspect: 1.0f32.to_bits(),
            }
        );
        assert!(scene.root.children.is_empty());
        assert!(matches!(scene.root.object, Object3DObject::Empty));
    }
}

#[test]
fn axes_are_two_black_bars() {
    const WIDTH: f32 = 0.05;
    const LENGTH: f32 = 5.0;
    let vertices: [f32; 96] = [
        -WIDTH, 0.0, -LENGTH, 1.0, 0.0, 0.0, 0.1, 0.0, 0.0, 0.0, 0.0, 0.0, //
        -WIDTH, 0.0, LENGTH, 1.0, 0.0, 0.0, 0.1, 0.0, 0.0, 0.0, 0.0, 0.0, //
        WIDTH, 0.0, -LENGTH, 1.0, 0.0, 0.0, 0.1, 0.0, 0.0, 0.0, 0.0, 0.0, //
        WIDTH, 0.0, LENGTH, 1.0, 0.0, 0.0, 0.1, 0.0, 0.0, 0.0, 0.0, 0.0, //
        -LENGTH, 0.0, -WIDTH, 1.0, 0.0, 0.0, 0.1, 0.0, 0.0, 0.0, 0.0, 0.0, //
        -LENGTH, 0.0, WIDTH, 1.0, 0.0, 0.0, 0.1, 0.0, 0.0, 0.0, 0.0, 0.0, //
        LENGTH, 0.0, -WIDTH, 1.0, 0.0, 0.0, 0.1, 0.0, 0.0, 0.0, 0.0, 0.0, //
        LENGTH, 0.0, WIDTH, 1.0, 0.0, 0.0, 0.1, 0.0, 0.0, 0.0, 0.0, 0.0,
    ];
    let axes = simple_axes();
    assert_eq!(axes.name, Some("simple_axes".to_string()));
    assert_eq!(axes.matrix, identity_matrix());
    assert!(axes.children.is_empty());
    match &axes.object {
        Object3DObject::Mesh(mesh) => {
            assert_eq!(mesh.vertex_array, words(&vertices));
            assert_eq!(
                mesh.index_array,
                vec![0, 1, 2, 1, 2, 3, 0, 2, 1, 1, 3, 2, 4, 5, 6, 5, 6, 7, 4, 6, 5, 5, 7, 6]
            );
            match &mesh.material {
                Material::PhongMaterial(m) => {
                    assert_eq!(
                        m.data,
                        PhongMaterialData {
                            ka: color(0.0, 0.0, 0.0),
                            kd: color(0.0, 0.0, 0.0),
                            ks: color(0.0, 0.0, 0.0),
                            shininess: 1.0f32.to_bits(),
                        }
                    );
                }
                _ => panic!("a material without texture was expected"),
            }
        }
        _ => panic!("a mesh was expected"),
    }
}

#[test]
fn material_uniforms_are_padded_colours() {
    let data = PhongMaterialData {
        ka: color(0.1, 0.2, 0.3),
        kd: color(0.4, 0.5, 0.6),
        ks: color(0.7, 0.8, 0.9),
        shininess: 32.0f32.to_bits(),
    };
    assert_eq!(
        data.to_words().to_vec(),
        words(&[0.1, 0.2, 0.3, 0.0, 0.4, 0.5, 0.6, 0.0, 0.7, 0.8, 0.9, 32.0])
    );
    let light = PointLightData {
        position: [1.0f32.to_bits(), 2.0f32.to_bits(), 3.0f32.to_bits(), 1.0f32.to_bits()],
        color: color(0.5, 0.25, 1.0),
    };
    assert_eq!(light.to_words().to_vec(), words(&[1.0, 2.0, 3.0, 1.0, 0.5, 0.25, 1.0]));
}

#[test]
fn material_is_of_its_own_type_only() {
    let plain = Material::PhongMaterial(PhongMaterial::new_without_texture(
        color(0.0, 0.0, 0.0),
        color(0.0, 0.0, 0.0),
        color(0.0, 0.0, 0.0),
        0,
    ));
    let textured = Material::PhongMaterialWithTexture(PhongMaterial::new_with_texture(
        color(0.0, 0.0, 0.0),
        color(0.0, 0.0, 0.0),
        color(0.0, 0.0, 0.0),
        0,
        &"a.png".to_string(),
    ));
    assert!(plain.is_of_type(&MaterialType::PhongMaterial));
    assert!(!plain.is_of_type(&MaterialType::PhongMaterialWithTexture));
    assert!(textured.is_of_type(&MaterialType::PhongMaterialWithTexture));
    assert!(!textured.is_of_type(&MaterialType::PhongMaterial));
}

#[test]
fn textured_materials_compare_as_numbers_and_by_texture() {
    let make = |kd: [u32; 3], shininess: f32, path: &str| {
        PhongMaterial::new_with_texture(
            color(0.0, 0.0, 0.0),
            kd,
            color(1.0, 1.0, 1.0),
            shininess.to_bits(),
            &path.to_string(),
        )
    };
    let a = make(color(0.5, 0.5, 0.5), 2.0, "a.png");
    let mut written = make(color(0.5, 0.5, 0.5), 2.0, "a.png");
    written.buffer = Some(Buffer { id: 3 });
    written.texture_loaded = true;
    assert!(a == written);
    assert!(a != make(color(0.5, 0.5, 0.5), 2.0, "b.png"));
    assert!(a != make(color(0.5, 0.5, 0.25), 2.0, "a.png"));
    assert!(a != make(color(0.5, 0.5, 0.5), 3.0, "a.png"));
    assert!(make(color(0.0, 0.5, 0.5), 2.0, "a.png") == make(color(-0.0, 0.5, 0.5), 2.0, "a.png"));
    let nan = make(color(f32::NAN, 0.5, 0.5), 2.0, "a.png");
    assert!(nan != make(color(f32::NAN, 0.5, 0.5), 2.0, "a.png"));
}

#[test]
fn bit_patterns_compare_as_the_numbers_do() {
    let samples = [
        0.0f32,
        -0.0,
        1.0,
        -1.0,
        0.1,
        f32::MIN_POSITIVE,
        f32::MAX,
        f32::INFINITY,
        f32::NEG_INFINITY,
        f32::NAN,
        -f32::NAN,
        f32::from_bits(0x7f80_0001),
        f32::from_bits(1),
    ];
    for a in samples {
        for b in samples {
            assert_eq!(numbers_equal(a.to_bits(), b.to_bits()), a == b);
        }
    }
    assert!(colors_equal(&color(0.0, 1.0, 2.0), &color(-0.0, 1.0, 2.0)));
    assert!(!colors_equal(&color(0.0, 1.0, 2.0), &color(0.0, 1.0, 2.5)));
    assert!(!colors_equal(&color(0.0, 1.0, f32::NAN), &color(0.0, 1.0, f32::NAN)));
}

#[test]
fn material_is_written_every_time_and_made_once() {
    let (mut handles, catalog) = filled();
    let mut belt = recording();
    let mut material = Material::PhongMaterial(PhongMaterial::new_without_texture(
        color(0.1, 0.1, 0.1),
        color(0.2, 0.2, 0.2),
        color(0.3, 0.3, 0.3),
        4.0f32.to_bits(),
    ));
    catalog.write_material(&mut material, &mut handles, &mut belt);
    catalog.write_material(&mut material, &mut handles, &mut belt);
    match &material {
        Material::PhongMaterial(m) => {
            assert_eq!(m.buffer, Some(Buffer { id: 0 }));
            assert_eq!(m.bind_group, Some(BindGroup { id: 0 }));
        }
        _ => panic!("a material without texture was expected"),
    }
    assert_eq!(
        handles.device.buffers,
        vec![BufferRequest::Empty(BufferDescriptor {
            label: BufferLabel::PhongMaterialBuffer,
            size: 64,
            usage: BufferUsages { vertex: false, index: false, uniform: true, copy_dst: true },
        })]
    );
    assert_eq!(
        handles.device.bind_groups,
        vec![BindGroupDescriptor {
            label: BindGroupLabel::PhongMaterialBindGroup,
            layout: BindGroupLayout { id: 2 },
            first: BindGroupEntry { binding: 0, buffer: Buffer { id: 0 }, offset: 0, size: None },
            second: None,
        }]
    );
    let write = BufferWrite {
        target: Buffer { id: 0 },
        offset: 0,
        payload: Payload::Words(words(&[
            0.1, 0.1, 0.1, 0.0, 0.2, 0.2, 0.2, 0.0, 0.3, 0.3, 0.3, 4.0,
        ])),
    };
    assert_eq!(belt.staging_belt.writes.len(), 2);
    assert_eq!(belt.staging_belt.writes[0], write);
    assert_eq!(belt.staging_belt.writes[1], write);
}

#[test]
fn light_gets_its_bind_group_once_both_buffers_are_there() {
    let (mut handles, catalog) = filled();
    let mut belt = recording();
    let position = [0.0f32.to_bits(), 0.0f32.to_bits(), 1.0f32.to_bits(), 1.0f32.to_bits()];
    let mut light = Light::point_light(position, color(1.0, 1.0, 1.0));
    catalog.write_light(&mut light, &mut handles, &mut belt);
    let Light::PointLight(after_light) = light;
    assert_eq!(after_light.buffer, Some(Buffer { id: 0 }));
    assert_eq!(after_light.view_info.view_info_buffer, None);
    assert_eq!(after_light.bind_group, None);
    assert!(handles.device.bind_groups.is_empty());

    let eye = ViewInfoData { position };
    catalog.write_view_info(&mut light, &eye, &mut handles, &mut belt);
    let Light::PointLight(after_view) = light;
    assert_eq!(after_view.buffer, Some(Buffer { id: 0 }));
    assert_eq!(after_view.view_info.view_info_buffer, Some(Buffer { id: 1 }));
    assert_eq!(after_view.bind_group, Some(BindGroup { id: 0 }));
    assert_eq!(
        handles.device.bind_groups,
        vec![BindGroupDescriptor {
            label: BindGroupLabel::PointLightBindGroup,
            layout: BindGroupLayout { id: 1 },
            first: BindGroupEntry { binding: 0, buffer: Buffer { id: 0 }, offset: 0, size: None },
            second: Some(BindGroupEntry {
                binding: 1,
                buffer: Buffer { id: 1 },
                offset: 0,
                size: None
            }),
        }]
    );

    catalog.write_light(&mut light, &mut handles, &mut belt);
    catalog.write_view_info(&mut light, &eye, &mut handles, &mut belt);
    assert_eq!(light, Light::PointLight(after_view));
    assert_eq!(handles.device.buffers.len(), 2);
    assert_eq!(handles.device.bind_groups.len(), 1);
    assert_eq!(belt.staging_belt.writes.len(), 4);
}

#[test]
fn view_info_first_and_light_second_also_binds() {
    let (mut handles, catalog) = filled();
    let mut belt = recording();
    let position = [0; 4];
    let mut light = Light::point_light(position, color(1.0, 1.0, 1.0));
    catalog.write_view_info(&mut light, &ViewInfoData { position }, &mut handles, &mut belt);
    let Light::PointLight(first) = light;
    assert_eq!(first.view_info.view_info_buffer, Some(Buffer { id: 0 }));
    assert_eq!(first.bind_group, None);
    catalog.write_light(&mut light, &mut handles, &mut belt);
    let Light::PointLight(second) = light;
    assert_eq!(second.buffer, Some(Buffer { id: 1 }));
    assert_eq!(second.bind_group, Some(BindGroup { id: 0 }));
    assert_eq!(
        handles.device.bind_groups[0].first,
        BindGroupEntry { binding: 0, buffer: Buffer { id: 1 }, offset: 0, size: None }
    );
}

#[test]
fn set_bind_group_does_nothing_until_it_is_due() {
    let mut handles = WgpuHandles { device: Device::new() };
    let mut light = Light::point_light([0; 4], [0; 3]);
    set_bind_group(&mut light, &None, &mut handles);
    assert_eq!(light, Light::point_light([0; 4], [0; 3]));
    let Light::PointLight(mut inner) = light;
    inner.buffer = Some(Buffer { id: 5 });
    inner.view_info.view_info_buffer = Some(Buffer { id: 6 });
    inner.bind_group = Some(BindGroup { id: 9 });
    let mut bound = Light::PointLight(inner);
    set_bind_group(&mut bound, &None, &mut handles);
    assert_eq!(bound, Light::PointLight(inner));
    assert!(handles.device.bind_groups.is_empty());
    inner.bind_group = None;
    let mut due = Light::PointLight(inner);
    set_bind_group(&mut due, &Some(BindGroupLayout { id: 4 }), &mut handles);
    let Light::PointLight(after) = due;
    assert_eq!(after.bind_group, Some(BindGroup { id: 0 }));
    assert_eq!(handles.device.bind_groups[0].layout, BindGroupLayout { id: 4 });
}

#[test]
fn scene_writes_every_light() {
    let (mut handles, catalog) = filled();
    let mut belt = recording();
    let mut scene = Scene::new();
    for i in 0..3 {
        scene.lights.push(Light::point_light([i, 0, 0, 0], [0; 3]));
    }
    scene.write_lights(&mut handles, &catalog, &mut belt);
    assert_eq!(handles.device.buffers.len(), 3);
    assert!(handles.device.bind_groups.is_empty());
    scene.write_view_info(&ViewInfoData { position: [7; 4] }, &mut handles, &catalog, &mut belt);
    assert_eq!(handles.device.buffers.len(), 6);
    assert_eq!(handles.device.bind_groups.len(), 3);
    let groups: Vec<Option<BindGroup>> = scene
        .lights
        .iter()
        .map(|l| {
            let Light::PointLight(p) = l;
            p.bind_group
        })
        .collect();
    assert_eq!(
        groups,
        vec![Some(BindGroup { id: 0 }), Some(BindGroup { id: 1 }), Some(BindGroup { id: 2 })]
    );
    assert_eq!(belt.staging_belt.writes.len(), 6);
    assert_eq!(belt.staging_belt.writes[1].payload, Payload::Words(vec![1, 0, 0, 0, 0, 0, 0]));
    assert_eq!(belt.staging_belt.writes[4].payload, Payload::Words(vec![7; 4]));
    assert_eq!(belt.staging_belt.writes[4].target, Buffer { id: 4 });
}

#[test]
fn material_pass_writes_meshes_depth_first() {
    let (mut handles, catalog) = filled();
    let mut belt = recording();
    let mesh = |shininess: u32| {
        Mesh::new_object_3d(
            None,
            vec![],
            vec![],
            Material::PhongMaterial(PhongMaterial::new_without_texture(
                [0; 3],
                [0; 3],
                [0; 3],
                shininess,
            )),
        )
    };
    let mut root = Object3D::create_empty();
    let mut first = mesh(1);
    first.children.push(mesh(2));
    root.children.push(first);
    root.children.push(mesh(3));
    root.write_materials(&mut handles, &catalog, &mut belt);
    let order: Vec<u32> = belt
        .staging_belt
        .writes
        .iter()
        .map(|w| match &w.payload {
            Payload::Words(words) => words[11],
            _ => panic!("words were expected"),
        })
        .collect();
    assert_eq!(order, vec![1, 2, 3]);
    assert_eq!(handles.device.buffers.len(), 3);
    assert_eq!(handles.device.bind_groups.len(), 3);
}

#[test]
fn render_pass_records_commands_in_order() {
    let mut pass = RenderPass::new(Color { r: 1, g: 2, b: 3, a: 4 });
    pass.set_bind_group(2, &BindGroup { id: 8 });
    let mut material = PhongMaterial::new_without_texture([0; 3], [0; 3], [0; 3], 0);
    material.bind_group = Some(BindGroup { id: 5 });
    pass.bind_material(&Material::PhongMaterial(material));
    pass.draw_indexed(12);
    assert_eq!(
        pass.commands,
        vec![
            RenderCommand::SetBindGroup { index: 2, bind_group: BindGroup { id: 8 } },
            RenderCommand::SetBindGroup { index: 1, bind_group: BindGroup { id: 5 } },
            RenderCommand::DrawIndexed { index_count: 12 },
        ]
    );
    assert_eq!(pass.clear_color, Color { r: 1, g: 2, b: 3, a: 4 });
}

#[test]
fn matrix_type_is_reexported_by_the_module() {
    let m: MuckableMatrix = identity_matrix();
    assert_eq!(m.0[0], 1.0f32.to_bits());
}
