use vstd::prelude::*;
use crate::renderer::light::{light_written, view_info_written, Light, ViewInfoData};
use crate::renderer::material::MaterialManager;
use crate::renderer::staging_belt_and_command_encoder::{StagingBeltAndCommandEncoder, Uploads};
use crate::renderer::wgpu_handles::{BindGroupLayout, WgpuHandles};
use crate::scene::camera::Camera;
use crate::scene::object3d::{empty_node, Object3D, Object3DView};
use crate::util::matrix_util::{identity, identity_matrix, ONE};

verus! {

/// The bit pattern of the single-precision number nearest to a tenth.
pub const TENTH: u32 = 0x3dcc_cccd;

/// The bit pattern of the single-precision number three.
pub const THREE: u32 = 0x4040_0000;

/// A scene: one camera, the lights in order, and the root of the graph.
#[derive(Debug)]
pub struct Scene {
    pub lights: Vec<Light>,
    pub camera: Camera,
    pub root: Object3D,
}

/// A scene as a value.
pub struct SceneView {
    pub lights: Seq<Light>,
    pub camera: Camera,
    pub root: Object3DView,
}

impl View for Scene {
    type V = SceneView;

    open spec fn view(&self) -> SceneView {
        SceneView { lights: self.lights@, camera: self.camera, root: self.root@ }
    }
}

/// The scene without lights whose root is empty, seen by a perspective
/// camera at the identity with the near plane at a tenth, the far plane at
/// three and a square window.
pub open spec fn fresh_scene() -> SceneView {
    SceneView {
        lights: Seq::empty(),
        camera: Camera::PerspectiveCamera {
            world_to_local: identity(),
            near: TENTH,
            far: THREE,
            aspect: ONE,
        },
        root: empty_node(),
    }
}

/// The first `upto` of `lights` and the uploads after each of them has been
/// written, in order.
pub open spec fn lights_written(
    lights: Seq<Light>,
    layout: BindGroupLayout,
    uploads: Uploads,
    upto: nat,
) -> (Seq<Light>, Uploads)
    decreases upto,
{
    if upto == 0 || upto > lights.len() {
        (Seq::empty(), uploads)
    } else {
        let before = lights_written(lights, layout, uploads, (upto - 1) as nat);
        let light = light_written(lights[upto - 1], layout, before.1);
        (before.0.push(light.0), light.1)
    }
}

/// The first `upto` of `lights` and the uploads after the viewer's position
/// has been written for each of them, in order.
pub open spec fn view_infos_written(
    lights: Seq<Light>,
    view_info: ViewInfoData,
    layout: BindGroupLayout,
    uploads: Uploads,
    upto: nat,
) -> (Seq<Light>, Uploads)
    decreases upto,
{
    if upto == 0 || upto > lights.len() {
        (Seq::empty(), uploads)
    } else {
        let before = view_infos_written(lights, view_info, layout, uploads, (upto - 1) as nat);
        let light = view_info_written(lights[upto - 1], view_info, layout, before.1);
        (before.0.push(light.0), light.1)
    }
}

impl Scene {
    /// The fresh scene.
    pub fn new() -> (scene: Scene)
        ensures
            scene@.lights.len() == 0,
            scene@ == fresh_scene(),
    {
        let camera = Camera::PerspectiveCamera {
            world_to_local: identity_matrix(),
            near: TENTH,
            far: THREE,
            aspect: ONE,
        };
        let scene = Scene { lights: Vec::new(), camera, root: Object3D::create_empty() };
        assert(scene@.lights =~= Seq::empty());
        scene
    }

    /// Writes every light of the scene, in order. The catalog is filled.
    pub fn write_lights(
        &mut self,
        wgpu_handles: &mut WgpuHandles,
        material_manager: &MaterialManager,
        staging_buffer: &mut StagingBeltAndCommandEncoder,
    )
        requires
            material_manager.point_light_bind_group_layout is Some,
        ensures
            final(self)@.lights == lights_written(
                old(self)@.lights,
                material_manager.point_light_bind_group_layout->0,
                Uploads { device: old(wgpu_handles).device@, writes: old(staging_buffer)@.writes },
                old(self)@.lights.len(),
            ).0,
            (Uploads { device: final(wgpu_handles).device@, writes: final(staging_buffer)@.writes })
                == lights_written(
                old(self)@.lights,
                material_manager.point_light_bind_group_layout->0,
                Uploads { device: old(wgpu_handles).device@, writes: old(staging_buffer)@.writes },
                old(self)@.lights.len(),
            ).1,
            final(self).camera == old(self).camera,
            final(self).root == old(self).root,
            final(staging_buffer)@.render_passes == old(staging_buffer)@.render_passes,
    {
        let ghost lights = old(self)@.lights;
        let ghost layout = material_manager.point_light_bind_group_layout->0;
        let ghost uploads = Uploads {
            device: old(wgpu_handles).device@,
            writes: old(staging_buffer)@.writes,
        };
        let n: usize = self.lights.len();
        let mut i: usize = 0;
        while i < n
            invariant
                i <= n,
                n == lights.len(),
                n == self.lights@.len(),
                material_manager.point_light_bind_group_layout == Some(layout),
                self.camera == old(self).camera,
                self.root == old(self).root,
                staging_buffer@.render_passes == old(staging_buffer)@.render_passes,
                self.lights@.take(i as int) == lights_written(lights, layout, uploads, i as nat).0,
                (Uploads { device: wgpu_handles.device@, writes: staging_buffer@.writes })
                    == lights_written(lights, layout, uploads, i as nat).1,
                forall|j: int| i <= j < n ==> self.lights@[j] == lights[j],
            decreases n - i,
        {
            let ghost taken = self.lights@.take(i as int);
            material_manager.write_light(&mut self.lights[i], wgpu_handles, staging_buffer);
            assert(self.lights@.take(i as int + 1) =~= taken.push(self.lights@[i as int]));
            i += 1;
        }
        assert(self.lights@.take(n as int) =~= self.lights@);
    }

    /// Writes the viewer's position for every light of the scene, in order.
    /// The catalog is filled.
    pub fn write_view_info(
        &mut self,
        view_info: &ViewInfoData,
        wgpu_handles: &mut WgpuHandles,
        material_manager: &MaterialManager,
        staging_buffer: &mut StagingBeltAndCommandEncoder,
    )
        requires
            material_manager.point_light_bind_group_layout is Some,
        ensures
            final(self)@.lights == view_infos_written(
                old(self)@.lights,
                *view_info,
                material_manager.point_light_bind_group_layout->0,
                Uploads { device: old(wgpu_handles).device@, writes: old(staging_buffer)@.writes },
                old(self)@.lights.len(),
            ).0,
            (Uploads { device: final(wgpu_handles).device@, writes: final(staging_buffer)@.writes })
                == view_infos_written(
                old(self)@.lights,
                *view_info,
                material_manager.point_light_bind_group_layout->0,
                Uploads { device: old(wgpu_handles).device@, writes: old(staging_buffer)@.writes },
                old(self)@.lights.len(),
            ).1,
            final(self).camera == old(self).camera,
            final(self).root == old(self).root,
            final(staging_buffer)@.render_passes == old(staging_buffer)@.render_passes,
    {
        let ghost lights = old(self)@.lights;
        let ghost layout = material_manager.point_light_bind_group_layout->0;
        let ghost uploads = Uploads {
            device: old(wgpu_handles).device@,
            writes: old(staging_buffer)@.writes,
        };
        let n: usize = self.lights.len();
        let mut i: usize = 0;
        while i < n
            invariant
                i <= n,
                n == lights.len(),
                n == self.lights@.len(),
                material_manager.point_light_bind_group_layout == Some(layout),
                self.camera == old(self).camera,
                self.root == old(self).root,
                staging_buffer@.render_passes == old(staging_buffer)@.render_passes,
                self.lights@.take(i as int) == view_infos_written(
                    lights,
                    *view_info,
                    layout,
                    uploads,
                    i as nat,
                ).0,
                (Uploads { device: wgpu_handles.device@, writes: staging_buffer@.writes })
                    == view_infos_written(lights, *view_info, layout, uploads, i as nat).1,
                forall|j: int| i <= j < n ==> self.lights@[j] == lights[j],
            decreases n - i,
        {
            let ghost taken = self.lights@.take(i as int);
            material_manager.write_view_info(
                &mut self.lights[i],
                view_info,
                wgpu_handles,
                staging_buffer,
            );
            assert(self.lights@.take(i as int + 1) =~= taken.push(self.lights@[i as int]));
            i += 1;
        }
        assert(self.lights@.take(n as int) =~= self.lights@);
    }
}

impl Default for Scene {
    /// The same scene as `new` makes.
    fn default() -> (scene: Scene)
        ensures
            scene@ == fresh_scene(),
    {
        Self::new()
    }
}

} // verus!
