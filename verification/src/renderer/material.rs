use vstd::prelude::*;
use crate::renderer::staging_belt_and_command_encoder::{
    words_write, StagingBeltAndCommandEncoder, Uploads,
};
use crate::renderer::wgpu_handles::{
    single_binding, uniform_buffer, BindGroup, BindGroupLabel, BindGroupLayout,
    BindGroupLayoutDescriptor, BindGroupLayoutEntry, BindGroupLayoutLabel, Buffer, BufferLabel,
    Device, DeviceView, PrimitiveState, RenderPipeline, RenderPipelineDescriptor, ShaderModule,
    ShaderSource, ShaderStages, SurfaceCapabilities, VertexAttribute, WgpuHandles,
};

verus! {

/// The shading models, one pipeline each.
#[derive(Clone, Copy, Debug, PartialEq, Eq, Structural)]
pub enum MaterialType {
    PhongMaterial,
    PhongMaterialWithTexture,
}

/// The uniforms of Phong shading: ambient, diffuse and specular colour and
/// the shininess, each number held by its single-precision bit pattern.
#[derive(Clone, Copy, Debug, PartialEq, Eq)]
pub struct PhongMaterialData {
    pub ka: [u32; 3],
    pub kd: [u32; 3],
    pub ks: [u32; 3],
    pub shininess: u32,
}

impl PhongMaterialData {
    /// The twelve words the shader reads: each colour padded to four words,
    /// the shininess in the padding of the last.
    pub open spec fn words(self) -> Seq<u32> {
        seq![
            self.ka@[0],
            self.ka@[1],
            self.ka@[2],
            0u32,
            self.kd@[0],
            self.kd@[1],
            self.kd@[2],
            0u32,
            self.ks@[0],
            self.ks@[1],
            self.ks@[2],
            self.shininess,
        ]
    }

    /// The uniforms as the shader reads them.
    pub fn to_words(&self) -> (words: [u32; 12])
        ensures
            words@ == self.words(),
    {
        let words: [u32; 12] = [
            self.ka[0],
            self.ka[1],
            self.ka[2],
            0,
            self.kd[0],
            self.kd[1],
            self.kd[2],
            0,
            self.ks[0],
            self.ks[1],
            self.ks[2],
            self.shininess,
        ];
        assert(words@ =~= self.words());
        words
    }
}

/// A Phong material without texture, with the buffer and bind group that
/// carry its uniforms once it has been written.
#[derive(Clone, Copy, Debug, PartialEq, Eq)]
pub struct PhongMaterial {
    pub data: PhongMaterialData,
    pub buffer: Option<Buffer>,
    pub bind_group: Option<BindGroup>,
}

/// A Phong material whose diffuse colour comes from the texture at `map_kd`.
#[derive(Debug)]
pub struct PhongMaterialWithTexture {
    pub data: PhongMaterialData,
    pub map_kd: String,
    pub texture_loaded: bool,
    pub buffer: Option<Buffer>,
    pub bind_group: Option<BindGroup>,
}

/// A textured material as a value.
pub struct PhongMaterialWithTextureView {
    pub data: PhongMaterialData,
    pub map_kd: Seq<char>,
    pub texture_loaded: bool,
    pub buffer: Option<Buffer>,
    pub bind_group: Option<BindGroup>,
}

impl View for PhongMaterialWithTexture {
    type V = PhongMaterialWithTextureView;

    open spec fn view(&self) -> PhongMaterialWithTextureView {
        PhongMaterialWithTextureView {
            data: self.data,
            map_kd: self.map_kd@,
            texture_loaded: self.texture_loaded,
            buffer: self.buffer,
            bind_group: self.bind_group,
        }
    }
}

/// The material of a mesh.
#[derive(Debug)]
pub enum Material {
    PhongMaterial(PhongMaterial),
    PhongMaterialWithTexture(PhongMaterialWithTexture),
}

/// A material as a value.
pub enum MaterialView {
    PhongMaterial(PhongMaterial),
    PhongMaterialWithTexture(PhongMaterialWithTextureView),
}

impl View for Material {
    type V = MaterialView;

    open spec fn view(&self) -> MaterialView {
        match self {
            Material::PhongMaterial(m) => MaterialView::PhongMaterial(*m),
            Material::PhongMaterialWithTexture(m) => MaterialView::PhongMaterialWithTexture(m@),
        }
    }
}

impl MaterialView {
    /// The shading model of the material.
    pub open spec fn material_type(self) -> MaterialType {
        match self {
            MaterialView::PhongMaterial(_) => MaterialType::PhongMaterial,
            MaterialView::PhongMaterialWithTexture(_) => MaterialType::PhongMaterialWithTexture,
        }
    }
}

impl Material {
    /// Whether the material is shaded by the model `compare_to`.
    pub fn is_of_type(&self, compare_to: &MaterialType) -> (r: bool)
        ensures
            r == (self@.material_type() == *compare_to),
    {
        match (self, compare_to) {
            (Material::PhongMaterial(_), MaterialType::PhongMaterial) => true,
            (Material::PhongMaterialWithTexture(_), MaterialType::PhongMaterialWithTexture) => true,
            _ => false,
        }
    }
}

impl PhongMaterial {
    /// A material without texture that has not been written yet.
    pub fn new_without_texture(ka: [u32; 3], kd: [u32; 3], ks: [u32; 3], shininess: u32) -> (m: Self)
        ensures
            m == (PhongMaterial {
                data: PhongMaterialData { ka, kd, ks, shininess },
                buffer: None,
                bind_group: None,
            }),
    {
        PhongMaterial {
            data: PhongMaterialData { ka, kd, ks, shininess },
            buffer: None,
            bind_group: None,
        }
    }

    /// A textured material that has not been written yet and whose texture
    /// has not been loaded.
    pub fn new_with_texture(
        ka: [u32; 3],
        kd: [u32; 3],
        ks: [u32; 3],
        shininess: u32,
        map_kd: &String,
    ) -> (m: PhongMaterialWithTexture)
        ensures
            m@ == (PhongMaterialWithTextureView {
                data: PhongMaterialData { ka, kd, ks, shininess },
                map_kd: map_kd@,
                texture_loaded: false,
                buffer: None,
                bind_group: None,
            }),
    {
        PhongMaterialWithTexture {
            data: PhongMaterialData { ka, kd, ks, shininess },
            map_kd: map_kd.clone(),
            texture_loaded: false,
            buffer: None,
            bind_group: None,
        }
    }
}

} // verus!

verus! {

/// The catalog of what the materials need on the device: the pipelines by
/// shading model, the layouts of the bind groups, and the textures by path.
/// It is filled once, by `populate`, before the first frame.
#[derive(Debug)]
pub struct MaterialManager {
    pub shaders: Vec<ShaderModule>,
    pub render_pipelines: Vec<RenderPipeline>,
    pub material_bind_group_layouts: Vec<BindGroupLayout>,
    pub matrix_bind_group_layout: Option<BindGroupLayout>,
    pub point_light_bind_group_layout: Option<BindGroupLayout>,
    pub view_info_buffer: Option<Buffer>,
    pub view_info_bind_group: Option<BindGroup>,
    pub textures: Vec<String>,
}

/// The layout of a node's transform: the matrix and its inverse, for both
/// shader stages.
pub open spec fn matrix_layout() -> BindGroupLayoutDescriptor {
    BindGroupLayoutDescriptor {
        label: BindGroupLayoutLabel::MatrixBindGroupLayout,
        first: BindGroupLayoutEntry {
            binding: 0,
            visibility: ShaderStages::VertexFragment,
            min_binding_size: 128,
        },
        second: None,
    }
}

/// The layout of a point light: the light for both stages, the viewer's
/// position for the vertex stage.
pub open spec fn point_light_layout() -> BindGroupLayoutDescriptor {
    BindGroupLayoutDescriptor {
        label: BindGroupLayoutLabel::PointLightBindGroupLayout,
        first: BindGroupLayoutEntry {
            binding: 0,
            visibility: ShaderStages::VertexFragment,
            min_binding_size: 32,
        },
        second: Some(
            BindGroupLayoutEntry { binding: 1, visibility: ShaderStages::Vertex, min_binding_size: 16 },
        ),
    }
}

/// The layout of a Phong material's uniforms, for the fragment stage.
pub open spec fn phong_material_layout() -> BindGroupLayoutDescriptor {
    BindGroupLayoutDescriptor {
        label: BindGroupLayoutLabel::PhongMaterialBindGroupLayout,
        first: BindGroupLayoutEntry {
            binding: 0,
            visibility: ShaderStages::Fragment,
            min_binding_size: 64,
        },
        second: None,
    }
}

/// The pipeline of Phong shading: transform, material and light in the
/// groups zero, one and two; vertices of forty-eight bytes with position,
/// normal and texture coordinates sixteen bytes apart; triangles listed one
/// by one, counter-clockwise ones facing front, back faces culled.
pub open spec fn phong_pipeline(
    transform_layout: BindGroupLayout,
    material_layout: BindGroupLayout,
    light_layout: BindGroupLayout,
    module: ShaderModule,
    target: crate::renderer::wgpu_handles::TextureFormat,
) -> RenderPipelineDescriptor {
    RenderPipelineDescriptor {
        transform_layout,
        material_layout,
        light_layout,
        module,
        array_stride: 48,
        position: VertexAttribute { offset: 0, shader_location: 0 },
        normal: VertexAttribute { offset: 16, shader_location: 1 },
        uv: VertexAttribute { offset: 32, shader_location: 2 },
        target,
        primitive: PrimitiveState {
            triangle_list: true,
            front_face_counter_clockwise: true,
            cull_back_faces: true,
        },
    }
}

impl MaterialManager {
    /// Whether the catalog has been filled: the two shared layouts are
    /// there, and a pipeline and a material layout for Phong shading.
    pub open spec fn populated(&self) -> bool {
        &&& self.matrix_bind_group_layout is Some
        &&& self.point_light_bind_group_layout is Some
        &&& self.material_bind_group_layouts@.len() > 0
        &&& self.render_pipelines@.len() > 0
    }

    /// Whether the catalog has been filled.
    pub fn is_populated(&self) -> (r: bool)
        ensures
            r == self.populated(),
    {
        self.matrix_bind_group_layout.is_some() && self.point_light_bind_group_layout.is_some()
            && self.material_bind_group_layouts.len() > 0 && self.render_pipelines.len() > 0
    }

    /// An empty catalog.
    pub fn new() -> (catalog: MaterialManager)
        ensures
            catalog.shaders@.len() == 0,
            catalog.render_pipelines@.len() == 0,
            catalog.material_bind_group_layouts@.len() == 0,
            catalog.matrix_bind_group_layout is None,
            catalog.point_light_bind_group_layout is None,
            catalog.view_info_buffer is None,
            catalog.view_info_bind_group is None,
            catalog.textures@.len() == 0,
    {
        MaterialManager {
            shaders: Vec::new(),
            render_pipelines: Vec::new(),
            material_bind_group_layouts: Vec::new(),
            matrix_bind_group_layout: None,
            point_light_bind_group_layout: None,
            view_info_buffer: None,
            view_info_bind_group: None,
            textures: Vec::new(),
        }
    }

    /// Asks the device for the layout of a point light's bind group.
    pub fn get_point_light_bind_group_layout(&self, device: &mut Device) -> (layout: BindGroupLayout)
        ensures
            layout.id == old(device)@.bind_group_layouts.len(),
            final(device)@ == (DeviceView {
                bind_group_layouts: old(device)@.bind_group_layouts.push(point_light_layout()),
                ..old(device)@
            }),
    {
        device.create_bind_group_layout(
            BindGroupLayoutDescriptor {
                label: BindGroupLayoutLabel::PointLightBindGroupLayout,
                first: BindGroupLayoutEntry {
                    binding: 0,
                    visibility: ShaderStages::VertexFragment,
                    min_binding_size: 32,
                },
                second: Some(
                    BindGroupLayoutEntry {
                        binding: 1,
                        visibility: ShaderStages::Vertex,
                        min_binding_size: 16,
                    },
                ),
            },
        )
    }

    /// Asks the device for the two layouts every pipeline shares, that of a
    /// node's transform and that of a point light, and keeps them.
    pub fn create_common_bind_group_layouts(&mut self, device: &mut Device)
        ensures
            final(self).matrix_bind_group_layout == Some(
                BindGroupLayout { id: old(device)@.bind_group_layouts.len() as usize },
            ),
            final(self).point_light_bind_group_layout == Some(
                BindGroupLayout { id: (old(device)@.bind_group_layouts.len() + 1) as usize },
            ),
            final(device)@ == (DeviceView {
                bind_group_layouts: old(device)@.bind_group_layouts.push(matrix_layout()).push(
                    point_light_layout(),
                ),
                ..old(device)@
            }),
            final(self).shaders == old(self).shaders,
            final(self).render_pipelines == old(self).render_pipelines,
            final(self).material_bind_group_layouts == old(self).material_bind_group_layouts,
            final(self).view_info_buffer == old(self).view_info_buffer,
            final(self).view_info_bind_group == old(self).view_info_bind_group,
            final(self).textures == old(self).textures,
    {
        let matrix = device.create_bind_group_layout(
            BindGroupLayoutDescriptor {
                label: BindGroupLayoutLabel::MatrixBindGroupLayout,
                first: BindGroupLayoutEntry {
                    binding: 0,
                    visibility: ShaderStages::VertexFragment,
                    min_binding_size: 128,
                },
                second: None,
            },
        );
        self.matrix_bind_group_layout = Some(matrix);
        let light = self.get_point_light_bind_group_layout(device);
        self.point_light_bind_group_layout = Some(light);
    }

    /// Asks the device for what Phong shading needs, the shader, the layout
    /// of the material's uniforms and the pipeline onto the surface's
    /// preferred colour format, and keeps layout and pipeline. The two
    /// shared layouts are there already.
    pub fn add_phong_material(&mut self, device: &mut Device, surface_capabilities: &SurfaceCapabilities)
        requires
            old(self).matrix_bind_group_layout is Some,
            old(self).point_light_bind_group_layout is Some,
            surface_capabilities.formats@.len() > 0,
        ensures
            final(device)@ == (DeviceView {
                shader_modules: old(device)@.shader_modules.push(ShaderSource::PhongModel),
                bind_group_layouts: old(device)@.bind_group_layouts.push(phong_material_layout()),
                render_pipelines: old(device)@.render_pipelines.push(
                    phong_pipeline(
                        old(self).matrix_bind_group_layout->0,
                        BindGroupLayout { id: old(device)@.bind_group_layouts.len() as usize },
                        old(self).point_light_bind_group_layout->0,
                        ShaderModule { id: old(device)@.shader_modules.len() as usize },
                        surface_capabilities.formats@[0],
                    ),
                ),
                ..old(device)@
            }),
            final(self).render_pipelines@ == old(self).render_pipelines@.push(
                RenderPipeline { id: old(device)@.render_pipelines.len() as usize },
            ),
            final(self).material_bind_group_layouts@ == old(self).material_bind_group_layouts@.push(
                BindGroupLayout { id: old(device)@.bind_group_layouts.len() as usize },
            ),
            final(self).shaders == old(self).shaders,
            final(self).matrix_bind_group_layout == old(self).matrix_bind_group_layout,
            final(self).point_light_bind_group_layout == old(self).point_light_bind_group_layout,
            final(self).view_info_buffer == old(self).view_info_buffer,
            final(self).view_info_bind_group == old(self).view_info_bind_group,
            final(self).textures == old(self).textures,
    {
        let shader_module = device.create_shader_module(ShaderSource::PhongModel);
        let transform_layout = self.matrix_bind_group_layout.unwrap();
        let light_layout = self.point_light_bind_group_layout.unwrap();
        let material_layout = device.create_bind_group_layout(
            BindGroupLayoutDescriptor {
                label: BindGroupLayoutLabel::PhongMaterialBindGroupLayout,
                first: BindGroupLayoutEntry {
                    binding: 0,
                    visibility: ShaderStages::Fragment,
                    min_binding_size: 64,
                },
                second: None,
            },
        );
        let render_pipeline = device.create_render_pipeline(
            RenderPipelineDescriptor {
                transform_layout,
                material_layout,
                light_layout,
                module: shader_module,
                array_stride: 48,
                position: VertexAttribute { offset: 0, shader_location: 0 },
                normal: VertexAttribute { offset: 16, shader_location: 1 },
                uv: VertexAttribute { offset: 32, shader_location: 2 },
                target: surface_capabilities.formats[0],
                primitive: PrimitiveState {
                    triangle_list: true,
                    front_face_counter_clockwise: true,
                    cull_back_faces: true,
                },
            },
        );
        self.render_pipelines.push(render_pipeline);
        self.material_bind_group_layouts.push(material_layout);
    }

    /// Fills the catalog: the shared layouts first, then what Phong shading
    /// needs. The surface offers at least one colour format, and the first
    /// becomes the pipeline's target.
    pub fn populate(&mut self, device: &mut Device, surface_capabilities: &SurfaceCapabilities)
        requires
            surface_capabilities.formats@.len() > 0,
        ensures
            final(self).populated(),
            final(self).matrix_bind_group_layout == Some(
                BindGroupLayout { id: old(device)@.bind_group_layouts.len() as usize },
            ),
            final(self).point_light_bind_group_layout == Some(
                BindGroupLayout { id: (old(device)@.bind_group_layouts.len() + 1) as usize },
            ),
            final(self).material_bind_group_layouts@ == old(self).material_bind_group_layouts@.push(
                BindGroupLayout { id: (old(device)@.bind_group_layouts.len() + 2) as usize },
            ),
            final(self).render_pipelines@ == old(self).render_pipelines@.push(
                RenderPipeline { id: old(device)@.render_pipelines.len() as usize },
            ),
            final(device)@ == (DeviceView {
                shader_modules: old(device)@.shader_modules.push(ShaderSource::PhongModel),
                bind_group_layouts: old(device)@.bind_group_layouts.push(matrix_layout()).push(
                    point_light_layout(),
                ).push(phong_material_layout()),
                render_pipelines: old(device)@.render_pipelines.push(
                    phong_pipeline(
                        BindGroupLayout { id: old(device)@.bind_group_layouts.len() as usize },
                        BindGroupLayout { id: (old(device)@.bind_group_layouts.len() + 2) as usize },
                        BindGroupLayout { id: (old(device)@.bind_group_layouts.len() + 1) as usize },
                        ShaderModule { id: old(device)@.shader_modules.len() as usize },
                        surface_capabilities.formats@[0],
                    ),
                ),
                ..old(device)@
            }),
            final(self).shaders == old(self).shaders,
            final(self).view_info_buffer == old(self).view_info_buffer,
            final(self).view_info_bind_group == old(self).view_info_bind_group,
            final(self).textures == old(self).textures,
    {
        self.create_common_bind_group_layouts(device);
        self.add_phong_material(device, surface_capabilities);
    }

    /// The pipeline of a shading model. Only Phong shading without texture
    /// has one, and only a filled catalog holds it.
    pub fn get_pipeline_for_material_type(&self, material_type: &MaterialType) -> (pipeline: &RenderPipeline)
        requires
            *material_type == MaterialType::PhongMaterial,
            self.render_pipelines@.len() > 0,
        ensures
            *pipeline == self.render_pipelines@[0],
    {
        &self.render_pipelines[0]
    }
}

} // verus!

verus! {

/// A material and the uploads after the material has been written. A Phong
/// material makes sure of its buffer of 64 bytes and of its bind group onto
/// the whole of that buffer, and then its twelve words of uniforms are
/// written to the start of the buffer, whether they have changed or not.
pub open spec fn material_written(
    material: MaterialView,
    layout: BindGroupLayout,
    uploads: Uploads,
) -> (MaterialView, Uploads) {
    match material {
        MaterialView::PhongMaterial(mat) => {
            let buffer = uploads.device.buffer_or_new(mat.buffer);
            let with_buffer = uploads.device.ensuring_buffer(
                mat.buffer,
                uniform_buffer(BufferLabel::PhongMaterialBuffer, 64),
            );
            let group = with_buffer.bind_group_or_new(mat.bind_group);
            (
                MaterialView::PhongMaterial(
                    PhongMaterial { data: mat.data, buffer: Some(buffer), bind_group: Some(group) },
                ),
                Uploads {
                    device: with_buffer.ensuring_bind_group(
                        mat.bind_group,
                        single_binding(BindGroupLabel::PhongMaterialBindGroup, layout, buffer, None),
                    ),
                    writes: uploads.writes.push(words_write(buffer, 0, mat.data.words())),
                },
            )
        },
        MaterialView::PhongMaterialWithTexture(_) => (material, uploads),
    }
}

impl MaterialManager {
    /// Writes a material's uniforms, making its buffer and bind group first
    /// if they are not there. Textured materials cannot be written: the
    /// material is a Phong material without texture. The catalog is filled.
    pub fn write_material(
        &self,
        material: &mut Material,
        wgpu_handles: &mut WgpuHandles,
        staging_belt: &mut StagingBeltAndCommandEncoder,
    )
        requires
            old(material)@ is PhongMaterial,
            self.material_bind_group_layouts@.len() > 0,
        ensures
            final(material)@ == material_written(
                old(material)@,
                self.material_bind_group_layouts@[0],
                Uploads { device: old(wgpu_handles).device@, writes: old(staging_belt)@.writes },
            ).0,
            (Uploads { device: final(wgpu_handles).device@, writes: final(staging_belt)@.writes })
                == material_written(
                old(material)@,
                self.material_bind_group_layouts@[0],
                Uploads { device: old(wgpu_handles).device@, writes: old(staging_belt)@.writes },
            ).1,
            final(staging_belt)@.render_passes == old(staging_belt)@.render_passes,
    {
        match material {
            Material::PhongMaterial(mat) => {
                let buffer = wgpu_handles.device.buffer_or_create(
                    &mut mat.buffer,
                    BufferLabel::PhongMaterialBuffer,
                    64,
                );
                wgpu_handles.device.bind_group_or_create(
                    &mut mat.bind_group,
                    BindGroupLabel::PhongMaterialBindGroup,
                    self.material_bind_group_layouts[0],
                    buffer,
                    None,
                );
                let words = mat.data.to_words();
                staging_belt.write_buffer(&buffer, 0, words.as_slice());
            },
            Material::PhongMaterialWithTexture(_) => {},
        }
    }
}

} // verus!

verus! {

/// Whether a bit pattern is that of a single-precision number and not of a
/// failed computation.
pub open spec fn is_number(bits: u32) -> bool {
    bits & 0x7fff_ffff <= 0x7f80_0000
}

/// Whether two single-precision bit patterns are equal as numbers: both are
/// numbers, and they are the same pattern or both are zero, of whatever
/// sign.
pub open spec fn same_number(a: u32, b: u32) -> bool {
    is_number(a) && is_number(b) && (a == b || (a & 0x7fff_ffff == 0 && b & 0x7fff_ffff == 0))
}

/// Whether two colours are equal as numbers, channel by channel.
pub open spec fn same_color(a: [u32; 3], b: [u32; 3]) -> bool {
    same_number(a@[0], b@[0]) && same_number(a@[1], b@[1]) && same_number(a@[2], b@[2])
}

/// Whether two single-precision bit patterns are equal as numbers.
pub fn numbers_equal(a: u32, b: u32) -> (r: bool)
    ensures
        r == same_number(a, b),
{
    (a & 0x7fff_ffff) <= 0x7f80_0000 && (b & 0x7fff_ffff) <= 0x7f80_0000 && (a == b || ((a
        & 0x7fff_ffff) == 0 && (b & 0x7fff_ffff) == 0))
}

/// Whether two colours are equal as numbers, channel by channel.
pub fn colors_equal(a: &[u32; 3], b: &[u32; 3]) -> (r: bool)
    ensures
        r == same_color(*a, *b),
{
    numbers_equal(a[0], b[0]) && numbers_equal(a[1], b[1]) && numbers_equal(a[2], b[2])
}

impl PartialEq for PhongMaterialWithTexture {
    /// Two textured materials are equal when they name the same texture and
    /// their colours and shininess are equal as numbers. What they hold on
    /// the device does not count.
    fn eq(&self, other: &Self) -> (r: bool) {
        self.map_kd == other.map_kd && colors_equal(&self.data.ka, &other.data.ka) && colors_equal(
            &self.data.kd,
            &other.data.kd,
        ) && colors_equal(&self.data.ks, &other.data.ks) && numbers_equal(
            self.data.shininess,
            other.data.shininess,
        )
    }
}

impl vstd::std_specs::cmp::PartialEqSpecImpl for PhongMaterialWithTexture {
    open spec fn obeys_eq_spec() -> bool {
        true
    }

    open spec fn eq_spec(&self, other: &Self) -> bool {
        self.map_kd@ == other.map_kd@ && same_color(self.data.ka, other.data.ka) && same_color(
            self.data.kd,
            other.data.kd,
        ) && same_color(self.data.ks, other.data.ks) && same_number(
            self.data.shininess,
            other.data.shininess,
        )
    }
}

} // verus!
