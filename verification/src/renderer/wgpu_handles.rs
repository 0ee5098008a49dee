use vstd::prelude::*;

verus! {

/// A buffer of the device, known by its place in the device's buffer table.
#[derive(Clone, Copy, Debug, PartialEq, Eq, Structural)]
pub struct Buffer {
    pub id: usize,
}

/// A bind group of the device, known by its place in the bind-group table.
#[derive(Clone, Copy, Debug, PartialEq, Eq, Structural)]
pub struct BindGroup {
    pub id: usize,
}

/// A bind-group layout, known by its place in the layout table.
#[derive(Clone, Copy, Debug, PartialEq, Eq, Structural)]
pub struct BindGroupLayout {
    pub id: usize,
}

/// A shader module, known by its place in the shader table.
#[derive(Clone, Copy, Debug, PartialEq, Eq, Structural)]
pub struct ShaderModule {
    pub id: usize,
}

/// A render pipeline, known by its place in the pipeline table.
#[derive(Clone, Copy, Debug, PartialEq, Eq, Structural)]
pub struct RenderPipeline {
    pub id: usize,
}

/// What a buffer is for; the device labels it accordingly.
#[derive(Clone, Copy, Debug, PartialEq, Eq, Structural)]
pub enum BufferLabel {
    MatrixBuffer,
    MeshVertexBuffer,
    MeshIndexBuffer,
    PhongMaterialBuffer,
    PointLightBuffer,
    ViewInfoBuffer,
}

/// How a buffer may be used.
#[derive(Clone, Copy, Debug, PartialEq, Eq, Structural)]
pub struct BufferUsages {
    pub vertex: bool,
    pub index: bool,
    pub uniform: bool,
    pub copy_dst: bool,
}

/// A request for an empty buffer of `size` bytes.
#[derive(Clone, Copy, Debug, PartialEq, Eq, Structural)]
pub struct BufferDescriptor {
    pub label: BufferLabel,
    pub size: u64,
    pub usage: BufferUsages,
}

/// A request for a buffer that holds `contents` from its creation on and is
/// as large as they are.
#[derive(Debug, PartialEq, Eq)]
pub struct BufferInitDescriptor {
    pub label: BufferLabel,
    pub contents: Vec<u32>,
    pub usage: BufferUsages,
}

/// A request for a filled buffer as a value.
pub struct BufferInitDescriptorView {
    pub label: BufferLabel,
    pub contents: Seq<u32>,
    pub usage: BufferUsages,
}

impl View for BufferInitDescriptor {
    type V = BufferInitDescriptorView;

    open spec fn view(&self) -> BufferInitDescriptorView {
        BufferInitDescriptorView { label: self.label, contents: self.contents@, usage: self.usage }
    }
}

/// A request for a buffer, empty or filled.
#[derive(Debug, PartialEq, Eq)]
pub enum BufferRequest {
    Empty(BufferDescriptor),
    Filled(BufferInitDescriptor),
}

/// A buffer request as a value.
pub enum BufferRequestView {
    Empty(BufferDescriptor),
    Filled(BufferInitDescriptorView),
}

impl View for BufferRequest {
    type V = BufferRequestView;

    open spec fn view(&self) -> BufferRequestView {
        match self {
            BufferRequest::Empty(desc) => BufferRequestView::Empty(*desc),
            BufferRequest::Filled(desc) => BufferRequestView::Filled(desc@),
        }
    }
}

/// One binding of a bind group: a range of a buffer. Without a `size` the
/// range runs to the end of the buffer.
#[derive(Clone, Copy, Debug, PartialEq, Eq, Structural)]
pub struct BindGroupEntry {
    pub binding: u32,
    pub buffer: Buffer,
    pub offset: u64,
    pub size: Option<u64>,
}

/// What a bind group is for.
#[derive(Clone, Copy, Debug, PartialEq, Eq, Structural)]
pub enum BindGroupLabel {
    MatrixBindGroup,
    PhongMaterialBindGroup,
    PointLightBindGroup,
}

/// A request for a bind group of one or two bindings.
#[derive(Clone, Copy, Debug, PartialEq, Eq, Structural)]
pub struct BindGroupDescriptor {
    pub label: BindGroupLabel,
    pub layout: BindGroupLayout,
    pub first: BindGroupEntry,
    pub second: Option<BindGroupEntry>,
}

/// The shader stages that see a binding.
#[derive(Clone, Copy, Debug, PartialEq, Eq, Structural)]
pub enum ShaderStages {
    Vertex,
    Fragment,
    VertexFragment,
}

/// One binding of a layout: a uniform buffer without dynamic offset, of at
/// least `min_binding_size` bytes.
#[derive(Clone, Copy, Debug, PartialEq, Eq, Structural)]
pub struct BindGroupLayoutEntry {
    pub binding: u32,
    pub visibility: ShaderStages,
    pub min_binding_size: u64,
}

/// What a layout is for.
#[derive(Clone, Copy, Debug, PartialEq, Eq, Structural)]
pub enum BindGroupLayoutLabel {
    MatrixBindGroupLayout,
    PointLightBindGroupLayout,
    PhongMaterialBindGroupLayout,
}

/// A request for a bind-group layout of one or two bindings.
#[derive(Clone, Copy, Debug, PartialEq, Eq, Structural)]
pub struct BindGroupLayoutDescriptor {
    pub label: BindGroupLayoutLabel,
    pub first: BindGroupLayoutEntry,
    pub second: Option<BindGroupLayoutEntry>,
}

/// The shader programs the device can be asked to compile.
#[derive(Clone, Copy, Debug, PartialEq, Eq, Structural)]
pub enum ShaderSource {
    PhongModel,
}

/// A colour format of the output surface, by the code the presentation layer
/// gave it.
#[derive(Clone, Copy, Debug, PartialEq, Eq, Structural)]
pub struct TextureFormat {
    pub code: u32,
}

/// What the output surface can do: its colour formats, the preferred first.
#[derive(Debug, PartialEq, Eq)]
pub struct SurfaceCapabilities {
    pub formats: Vec<TextureFormat>,
}

/// One attribute of a vertex: four single-precision numbers at `offset`
/// bytes into the vertex, read by the shader at `shader_location`.
#[derive(Clone, Copy, Debug, PartialEq, Eq, Structural)]
pub struct VertexAttribute {
    pub offset: u64,
    pub shader_location: u32,
}

/// How triangles are assembled and culled.
#[derive(Clone, Copy, Debug, PartialEq, Eq, Structural)]
pub struct PrimitiveState {
    pub triangle_list: bool,
    pub front_face_counter_clockwise: bool,
    pub cull_back_faces: bool,
}

/// A request for a render pipeline: three bind-group layouts for the groups
/// zero to two, one shader module for both stages, one vertex buffer whose
/// vertices are `array_stride` bytes apart and have three attributes, one
/// colour target, no depth buffer, no multisampling.
#[derive(Clone, Copy, Debug, PartialEq, Eq, Structural)]
pub struct RenderPipelineDescriptor {
    pub transform_layout: BindGroupLayout,
    pub material_layout: BindGroupLayout,
    pub light_layout: BindGroupLayout,
    pub module: ShaderModule,
    pub array_stride: u64,
    pub position: VertexAttribute,
    pub normal: VertexAttribute,
    pub uv: VertexAttribute,
    pub target: TextureFormat,
    pub primitive: PrimitiveState,
}

/// The device as the library sees it: a table for each kind of resource.
/// Asking for a resource appends its request to the table; the resource is
/// known from then on by its place there. Nothing is ever removed, so a
/// handle stays good for the lifetime of the device.
#[derive(Debug)]
pub struct Device {
    pub buffers: Vec<BufferRequest>,
    pub bind_groups: Vec<BindGroupDescriptor>,
    pub bind_group_layouts: Vec<BindGroupLayoutDescriptor>,
    pub shader_modules: Vec<ShaderSource>,
    pub render_pipelines: Vec<RenderPipelineDescriptor>,
}

/// The device's tables as values.
pub struct DeviceView {
    pub buffers: Seq<BufferRequestView>,
    pub bind_groups: Seq<BindGroupDescriptor>,
    pub bind_group_layouts: Seq<BindGroupLayoutDescriptor>,
    pub shader_modules: Seq<ShaderSource>,
    pub render_pipelines: Seq<RenderPipelineDescriptor>,
}

impl View for Device {
    type V = DeviceView;

    open spec fn view(&self) -> DeviceView {
        DeviceView {
            buffers: Seq::new(self.buffers@.len(), |i: int| self.buffers@[i]@),
            bind_groups: self.bind_groups@,
            bind_group_layouts: self.bind_group_layouts@,
            shader_modules: self.shader_modules@,
            render_pipelines: self.render_pipelines@,
        }
    }
}

impl DeviceView {
    /// The tables after a request for a buffer.
    pub open spec fn with_buffer(self, desc: BufferRequestView) -> DeviceView {
        DeviceView { buffers: self.buffers.push(desc), ..self }
    }

    /// The tables after a request for a bind group.
    pub open spec fn with_bind_group(self, desc: BindGroupDescriptor) -> DeviceView {
        DeviceView { bind_groups: self.bind_groups.push(desc), ..self }
    }
}

/// The usage of a buffer of uniforms that is written by copying.
pub open spec fn uniform_usage() -> BufferUsages {
    BufferUsages { vertex: false, index: false, uniform: true, copy_dst: true }
}

/// The usage of a vertex buffer that can be written by copying.
pub open spec fn vertex_usage() -> BufferUsages {
    BufferUsages { vertex: true, index: false, uniform: false, copy_dst: true }
}

/// The usage of an index buffer that can be written by copying.
pub open spec fn index_usage() -> BufferUsages {
    BufferUsages { vertex: false, index: true, uniform: false, copy_dst: true }
}

/// The request for an empty buffer of `size` bytes that holds uniforms.
pub open spec fn uniform_buffer(label: BufferLabel, size: u64) -> BufferRequestView {
    BufferRequestView::Empty(BufferDescriptor { label, size, usage: uniform_usage() })
}

/// The request for a buffer that holds `words` from its creation on.
pub open spec fn filled_buffer(
    label: BufferLabel,
    usage: BufferUsages,
    words: Seq<u32>,
) -> BufferRequestView {
    BufferRequestView::Filled(BufferInitDescriptorView { label, contents: words, usage })
}

impl Device {
    /// A device nothing has been asked of yet.
    pub fn new() -> (device: Device)
        ensures
            device@.buffers.len() == 0,
            device@.bind_groups.len() == 0,
            device@.bind_group_layouts.len() == 0,
            device@.shader_modules.len() == 0,
            device@.render_pipelines.len() == 0,
    {
        Device {
            buffers: Vec::new(),
            bind_groups: Vec::new(),
            bind_group_layouts: Vec::new(),
            shader_modules: Vec::new(),
            render_pipelines: Vec::new(),
        }
    }

    /// Asks for a buffer of `size` bytes for uniforms. The buffer is new: its
    /// place is the end of the table.
    pub fn create_buffer(&mut self, label: BufferLabel, size: u64) -> (buffer: Buffer)
        ensures
            buffer.id == old(self)@.buffers.len(),
            final(self)@ == old(self)@.with_buffer(uniform_buffer(label, size)),
    {
        let id: usize = self.buffers.len();
        self.buffers.push(
            BufferRequest::Empty(
                BufferDescriptor {
                    label,
                    size,
                    usage: BufferUsages { vertex: false, index: false, uniform: true, copy_dst: true },
                },
            ),
        );
        assert(self@.buffers =~= old(self)@.buffers.push(uniform_buffer(label, size)));
        Buffer { id }
    }

    /// Asks for a buffer that holds a snapshot of `words` from its creation
    /// on. The buffer is new: its place is the end of the table.
    pub fn create_buffer_init(&mut self, label: BufferLabel, usage: BufferUsages, words: &Vec<u32>) -> (buffer: Buffer)
        ensures
            buffer.id == old(self)@.buffers.len(),
            final(self)@ == old(self)@.with_buffer(filled_buffer(label, usage, words@)),
    {
        let id: usize = self.buffers.len();
        let mut contents: Vec<u32> = Vec::new();
        let mut i: usize = 0;
        while i < words.len()
            invariant
                i <= words@.len(),
                contents@ == words@.take(i as int),
            decreases words@.len() - i,
        {
            contents.push(words[i]);
            assert(words@.take(i as int + 1) =~= words@.take(i as int).push(words@[i as int]));
            i += 1;
        }
        assert(contents@ =~= words@);
        self.buffers.push(BufferRequest::Filled(BufferInitDescriptor { label, contents, usage }));
        assert(self@.buffers =~= old(self)@.buffers.push(filled_buffer(label, usage, words@)));
        Buffer { id }
    }

    /// Asks for a bind group. The group is new: its place is the end of the
    /// table.
    pub fn create_bind_group(&mut self, desc: BindGroupDescriptor) -> (group: BindGroup)
        ensures
            group.id == old(self)@.bind_groups.len(),
            final(self)@ == old(self)@.with_bind_group(desc),
    {
        let id: usize = self.bind_groups.len();
        self.bind_groups.push(desc);
        assert(self@.buffers =~= old(self)@.buffers);
        BindGroup { id }
    }

    /// Asks for a bind-group layout. The layout is new: its place is the end
    /// of the table.
    pub fn create_bind_group_layout(&mut self, desc: BindGroupLayoutDescriptor) -> (layout: BindGroupLayout)
        ensures
            layout.id == old(self)@.bind_group_layouts.len(),
            final(self)@ == (DeviceView {
                bind_group_layouts: old(self)@.bind_group_layouts.push(desc),
                ..old(self)@
            }),
    {
        let id: usize = self.bind_group_layouts.len();
        self.bind_group_layouts.push(desc);
        assert(self@.buffers =~= old(self)@.buffers);
        BindGroupLayout { id }
    }

    /// Asks for a shader to be compiled. The module is new: its place is the
    /// end of the table.
    pub fn create_shader_module(&mut self, source: ShaderSource) -> (module: ShaderModule)
        ensures
            module.id == old(self)@.shader_modules.len(),
            final(self)@ == (DeviceView {
                shader_modules: old(self)@.shader_modules.push(source),
                ..old(self)@
            }),
    {
        let id: usize = self.shader_modules.len();
        self.shader_modules.push(source);
        assert(self@.buffers =~= old(self)@.buffers);
        ShaderModule { id }
    }

    /// Asks for a render pipeline. The pipeline is new: its place is the end
    /// of the table.
    pub fn create_render_pipeline(&mut self, desc: RenderPipelineDescriptor) -> (pipeline: RenderPipeline)
        ensures
            pipeline.id == old(self)@.render_pipelines.len(),
            final(self)@ == (DeviceView {
                render_pipelines: old(self)@.render_pipelines.push(desc),
                ..old(self)@
            }),
    {
        let id: usize = self.render_pipelines.len();
        self.render_pipelines.push(desc);
        assert(self@.buffers =~= old(self)@.buffers);
        RenderPipeline { id }
    }
}

/// What the renderer holds of the graphics system.
#[derive(Debug)]
pub struct WgpuHandles {
    pub device: Device,
}

} // verus!

verus! {

impl DeviceView {
    /// The buffer a holder ends up with: the one it has, or else the next
    /// new one.
    pub open spec fn buffer_or_new(self, existing: Option<Buffer>) -> Buffer {
        match existing {
            Some(buffer) => buffer,
            None => Buffer { id: self.buffers.len() as usize },
        }
    }

    /// The tables after a holder has made sure of its buffer: unchanged if it
    /// had one, with the request appended if not.
    pub open spec fn ensuring_buffer(
        self,
        existing: Option<Buffer>,
        desc: BufferRequestView,
    ) -> DeviceView {
        if existing is Some {
            self
        } else {
            self.with_buffer(desc)
        }
    }

    /// The bind group a holder ends up with: the one it has, or else the
    /// next new one.
    pub open spec fn bind_group_or_new(self, existing: Option<BindGroup>) -> BindGroup {
        match existing {
            Some(group) => group,
            None => BindGroup { id: self.bind_groups.len() as usize },
        }
    }

    /// The tables after a holder has made sure of its bind group.
    pub open spec fn ensuring_bind_group(
        self,
        existing: Option<BindGroup>,
        desc: BindGroupDescriptor,
    ) -> DeviceView {
        if existing is Some {
            self
        } else {
            self.with_bind_group(desc)
        }
    }
}

/// The bind group of one binding, number zero, that starts at the start of
/// `buffer`.
pub open spec fn single_binding(
    label: BindGroupLabel,
    layout: BindGroupLayout,
    buffer: Buffer,
    size: Option<u64>,
) -> BindGroupDescriptor {
    BindGroupDescriptor {
        label,
        layout,
        first: BindGroupEntry { binding: 0, buffer, offset: 0, size },
        second: None,
    }
}

impl Device {
    /// Fills `slot` with a new uniform buffer of `size` bytes if it is empty,
    /// and leaves slot and device alone if it is not. Either way the buffer
    /// in the slot comes back.
    pub fn buffer_or_create(
        &mut self,
        slot: &mut Option<Buffer>,
        label: BufferLabel,
        size: u64,
    ) -> (buffer: Buffer)
        ensures
            buffer == old(self)@.buffer_or_new(*old(slot)),
            *final(slot) == Some(buffer),
            final(self)@ == old(self)@.ensuring_buffer(*old(slot), uniform_buffer(label, size)),
    {
        match *slot {
            Some(buffer) => buffer,
            None => {
                let buffer = self.create_buffer(label, size);
                *slot = Some(buffer);
                buffer
            },
        }
    }

    /// Fills `slot` with a new bind group of one binding if it is empty, and
    /// leaves slot and device alone if it is not. Either way the group in
    /// the slot comes back.
    pub fn bind_group_or_create(
        &mut self,
        slot: &mut Option<BindGroup>,
        label: BindGroupLabel,
        layout: BindGroupLayout,
        buffer: Buffer,
        size: Option<u64>,
    ) -> (group: BindGroup)
        ensures
            group == old(self)@.bind_group_or_new(*old(slot)),
            *final(slot) == Some(group),
            final(self)@ == old(self)@.ensuring_bind_group(
                *old(slot),
                single_binding(label, layout, buffer, size),
            ),
    {
        match *slot {
            Some(group) => group,
            None => {
                let group = self.create_bind_group(
                    BindGroupDescriptor {
                        label,
                        layout,
                        first: BindGroupEntry { binding: 0, buffer, offset: 0, size },
                        second: None,
                    },
                );
                *slot = Some(group);
                group
            },
        }
    }
}

} // verus!
