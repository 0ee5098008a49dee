use vstd::prelude::*;
use crate::renderer::material::MaterialManager;
use crate::renderer::staging_belt_and_command_encoder::{
    words_write, StagingBeltAndCommandEncoder, Uploads,
};
use crate::renderer::wgpu_handles::{
    uniform_buffer, BindGroup, BindGroupDescriptor, BindGroupEntry, BindGroupLabel,
    BindGroupLayout, Buffer, BufferLabel, DeviceView, WgpuHandles,
};

verus! {

/// What the shader reads of a point light: where it is in the world and what
/// colour it has, each number held by its single-precision bit pattern.
#[derive(Clone, Copy, Debug, PartialEq, Eq)]
pub struct PointLightData {
    pub position: [u32; 4],
    pub color: [u32; 3],
}

impl PointLightData {
    /// The seven words of the light: position, then colour.
    pub open spec fn words(self) -> Seq<u32> {
        self.position@ + self.color@
    }

    /// The light as the shader reads it.
    pub fn to_words(&self) -> (words: [u32; 7])
        ensures
            words@ == self.words(),
    {
        let words: [u32; 7] = [
            self.position[0],
            self.position[1],
            self.position[2],
            self.position[3],
            self.color[0],
            self.color[1],
            self.color[2],
        ];
        assert(words@ =~= self.words());
        words
    }
}

/// What the shader reads of the viewer: the position of the eye in the
/// world, as the camera of the frame gives it.
#[derive(Clone, Copy, Debug, PartialEq, Eq)]
pub struct ViewInfoData {
    pub position: [u32; 4],
}

/// The buffer that carries the viewer's position for one light.
#[derive(Clone, Copy, Debug, PartialEq, Eq, Structural)]
pub struct ViewInfo {
    pub view_info_buffer: Option<Buffer>,
}

/// A point light with what carries it on the device.
#[derive(Clone, Copy, Debug, PartialEq, Eq)]
pub struct PointLight {
    pub data: PointLightData,
    pub buffer: Option<Buffer>,
    pub bind_group: Option<BindGroup>,
    pub view_info: ViewInfo,
}

/// A light of the scene.
#[derive(Clone, Copy, Debug, PartialEq, Eq)]
pub enum Light {
    PointLight(PointLight),
}

impl Light {
    /// A point light at `position` of the colour `color`, with nothing on
    /// the device yet.
    pub fn point_light(position: [u32; 4], color: [u32; 3]) -> (light: Light)
        ensures
            light == Light::PointLight(
                PointLight {
                    data: PointLightData { position, color },
                    buffer: None,
                    bind_group: None,
                    view_info: ViewInfo { view_info_buffer: None },
                },
            ),
    {
        Light::PointLight(
            PointLight {
                data: PointLightData { position, color },
                buffer: None,
                bind_group: None,
                view_info: ViewInfo { view_info_buffer: None },
            },
        )
    }
}

/// Whether a light can get its bind group now: it has none, and both its
/// buffers are there.
pub open spec fn bind_group_due(light: Light) -> bool {
    &&& light->PointLight_0.bind_group is None
    &&& light->PointLight_0.buffer is Some
    &&& light->PointLight_0.view_info.view_info_buffer is Some
}

/// The bind group of a point light: the light's own buffer at the binding
/// zero, the viewer's at the binding one, each as a whole.
pub open spec fn point_light_bindings(
    layout: BindGroupLayout,
    buffer: Buffer,
    view_info_buffer: Buffer,
) -> BindGroupDescriptor {
    BindGroupDescriptor {
        label: BindGroupLabel::PointLightBindGroup,
        layout,
        first: BindGroupEntry { binding: 0, buffer, offset: 0, size: None },
        second: Some(BindGroupEntry { binding: 1, buffer: view_info_buffer, offset: 0, size: None }),
    }
}

/// A light and the device after the light has been given its bind group if
/// that was due.
pub open spec fn light_bound(light: Light, layout: BindGroupLayout, device: DeviceView) -> (
    Light,
    DeviceView,
) {
    if bind_group_due(light) {
        (
            Light::PointLight(
                PointLight {
                    bind_group: Some(BindGroup { id: device.bind_groups.len() as usize }),
                    ..light->PointLight_0
                },
            ),
            device.with_bind_group(
                point_light_bindings(
                    layout,
                    light->PointLight_0.buffer->0,
                    light->PointLight_0.view_info.view_info_buffer->0,
                ),
            ),
        )
    } else {
        (light, device)
    }
}

/// A light and the uploads after the light has been written: it makes sure
/// of its buffer of 40 bytes, its seven words are written to the start of
/// the buffer, and it gets its bind group if that is due by then.
pub open spec fn light_written(light: Light, layout: BindGroupLayout, uploads: Uploads) -> (
    Light,
    Uploads,
) {
    let buffer = uploads.device.buffer_or_new(light->PointLight_0.buffer);
    let with_buffer = uploads.device.ensuring_buffer(
        light->PointLight_0.buffer,
        uniform_buffer(BufferLabel::PointLightBuffer, 40),
    );
    let bound = light_bound(
        Light::PointLight(PointLight { buffer: Some(buffer), ..light->PointLight_0 }),
        layout,
        with_buffer,
    );
    (
        bound.0,
        Uploads {
            device: bound.1,
            writes: uploads.writes.push(words_write(buffer, 0, light->PointLight_0.data.words())),
        },
    )
}

/// A light and the uploads after the viewer's position has been written for
/// the light: the light makes sure of its view buffer of 16 bytes, the four
/// words of the position are written to the start of that buffer, and the
/// light gets its bind group if that is due by then.
pub open spec fn view_info_written(
    light: Light,
    view_info: ViewInfoData,
    layout: BindGroupLayout,
    uploads: Uploads,
) -> (Light, Uploads) {
    let buffer = uploads.device.buffer_or_new(light->PointLight_0.view_info.view_info_buffer);
    let with_buffer = uploads.device.ensuring_buffer(
        light->PointLight_0.view_info.view_info_buffer,
        uniform_buffer(BufferLabel::ViewInfoBuffer, 16),
    );
    let bound = light_bound(
        Light::PointLight(
            PointLight {
                view_info: ViewInfo { view_info_buffer: Some(buffer) },
                ..light->PointLight_0
            },
        ),
        layout,
        with_buffer,
    );
    (
        bound.0,
        Uploads {
            device: bound.1,
            writes: uploads.writes.push(words_write(buffer, 0, view_info.position@)),
        },
    )
}

/// Gives a light its bind group if it has none and both its buffers are
/// there; otherwise nothing happens. Where the group is due, the layout is
/// there to make it from.
pub fn set_bind_group(
    light: &mut Light,
    point_light_bind_group_layout: &Option<BindGroupLayout>,
    wgpu_handles: &mut WgpuHandles,
)
    requires
        bind_group_due(*old(light)) ==> *point_light_bind_group_layout is Some,
    ensures
        *final(light) == light_bound(
            *old(light),
            point_light_bind_group_layout->0,
            old(wgpu_handles).device@,
        ).0,
        final(wgpu_handles).device@ == light_bound(
            *old(light),
            point_light_bind_group_layout->0,
            old(wgpu_handles).device@,
        ).1,
{
    match light {
        Light::PointLight(light) => {
            if light.bind_group.is_none() && light.buffer.is_some()
                && light.view_info.view_info_buffer.is_some() {
                let group = wgpu_handles.device.create_bind_group(
                    BindGroupDescriptor {
                        label: BindGroupLabel::PointLightBindGroup,
                        layout: point_light_bind_group_layout.unwrap(),
                        first: BindGroupEntry {
                            binding: 0,
                            buffer: light.buffer.unwrap(),
                            offset: 0,
                            size: None,
                        },
                        second: Some(
                            BindGroupEntry {
                                binding: 1,
                                buffer: light.view_info.view_info_buffer.unwrap(),
                                offset: 0,
                                size: None,
                            },
                        ),
                    },
                );
                light.bind_group = Some(group);
            }
        },
    }
}

impl MaterialManager {
    /// Writes a light's uniforms, making its buffer first if it is not
    /// there, and gives the light its bind group once both its buffers are.
    /// The catalog is filled.
    pub fn write_light(
        &self,
        light: &mut Light,
        wgpu_handles: &mut WgpuHandles,
        staging_buffer: &mut StagingBeltAndCommandEncoder,
    )
        requires
            self.point_light_bind_group_layout is Some,
        ensures
            *final(light) == light_written(
                *old(light),
                self.point_light_bind_group_layout->0,
                Uploads { device: old(wgpu_handles).device@, writes: old(staging_buffer)@.writes },
            ).0,
            (Uploads { device: final(wgpu_handles).device@, writes: final(staging_buffer)@.writes })
                == light_written(
                *old(light),
                self.point_light_bind_group_layout->0,
                Uploads { device: old(wgpu_handles).device@, writes: old(staging_buffer)@.writes },
            ).1,
            final(staging_buffer)@.render_passes == old(staging_buffer)@.render_passes,
    {
        match light {
            Light::PointLight(light) => {
                let buffer = wgpu_handles.device.buffer_or_create(
                    &mut light.buffer,
                    BufferLabel::PointLightBuffer,
                    40,
                );
                let words = light.data.to_words();
                staging_buffer.write_buffer(&buffer, 0, words.as_slice());
            },
        }
        set_bind_group(light, &self.point_light_bind_group_layout, wgpu_handles);
    }

    /// Writes the viewer's position for a light, making the light's view
    /// buffer first if it is not there, and gives the light its bind group
    /// once both its buffers are. The catalog is filled.
    pub fn write_view_info(
        &self,
        light: &mut Light,
        view_info: &ViewInfoData,
        wgpu_handles: &mut WgpuHandles,
        staging_buffer: &mut StagingBeltAndCommandEncoder,
    )
        requires
            self.point_light_bind_group_layout is Some,
        ensures
            *final(light) == view_info_written(
                *old(light),
                *view_info,
                self.point_light_bind_group_layout->0,
                Uploads { device: old(wgpu_handles).device@, writes: old(staging_buffer)@.writes },
            ).0,
            (Uploads { device: final(wgpu_handles).device@, writes: final(staging_buffer)@.writes })
                == view_info_written(
                *old(light),
                *view_info,
                self.point_light_bind_group_layout->0,
                Uploads { device: old(wgpu_handles).device@, writes: old(staging_buffer)@.writes },
            ).1,
            final(staging_buffer)@.render_passes == old(staging_buffer)@.render_passes,
    {
        match light {
            Light::PointLight(light) => {
                let buffer = wgpu_handles.device.buffer_or_create(
                    &mut light.view_info.view_info_buffer,
                    BufferLabel::ViewInfoBuffer,
                    16,
                );
                staging_buffer.write_buffer(&buffer, 0, view_info.position.as_slice());
            },
        }
        set_bind_group(light, &self.point_light_bind_group_layout, wgpu_handles);
    }
}

} // verus!
