//! A capability object standing in for the process-wide GPU binding table.
//!
//! Every graphics call the renderer makes is recorded as a [`GpuCommand`] in
//! an ordered log, and every GPU resource (shader, program, buffer, vertex
//! array, texture, uniform location) is named by a handle drawn from a
//! monotone counter, so distinct allocations always receive distinct handles.
//! A host program replays the log against a real graphics context, mapping
//! model handles to driver handles as the creation commands go by.

use vstd::prelude::*;

verus! {

/// Per-instance attribute record pushed to the GPU before each draw.
///
/// Pixel lengths are stored in hundredths of a device pixel: a value `v`
/// stands for `v / 100` physical pixels. This keeps scaling by the device
/// pixel ratio (itself in hundredths) in exact integer arithmetic; the host
/// divides by `100.0` when it uploads the record.
#[derive(Debug, Clone, Copy, PartialEq, Eq, Structural)]
pub struct InstanceAttr {
    /// Grid column of the cell (x coordinate for the shader).
    pub col: u32,
    /// Grid row of the cell (y coordinate for the shader).
    pub row: u32,
    /// Width of the glyph's bounding box, hundredths of a device pixel.
    pub uv_width: i64,
    /// Height of the glyph's bounding box, hundredths of a device pixel.
    pub uv_height: i64,
    /// Horizontal offset of the bounding box origin.
    pub uv_offset_x: i64,
    /// Vertical offset of the bounding box origin.
    pub uv_offset_y: i64,
    /// Baseline offset shared by every glyph of the cell's font.
    pub baseline: i64,
}

/// Which stage a shader source belongs to.
#[derive(Debug, Clone, Copy, PartialEq, Eq, Structural)]
pub enum ShaderKind {
    Vertex,
    Fragment,
}

/// How a draw command rasterizes the quad.
#[derive(Debug, Clone, Copy, PartialEq, Eq, Structural)]
pub enum DrawKind {
    /// Filled triangles: the glyph quad itself.
    FilledTriangles,
    /// A wireframe line loop: the diagnostic outlines.
    OutlineLoop,
}

/// The uniforms of the grid shader program, by name. The GLSL identifiers
/// are `cellSize` (vec2, clip-space per-cell size), `windowSize` (vec2,
/// window pixel size) and `drawFlag` (int, selecting the draw pass's fill
/// semantics); the host resolves each to the driver's location.
#[derive(Debug, Clone, Copy, PartialEq, Eq, Structural)]
pub enum UniformName {
    CellSize,
    WindowSize,
    DrawFlag,
}

/// One vertex-attribute binding of a cell's buffer layout.
#[derive(Debug, Clone, Copy, PartialEq, Eq, Structural)]
pub struct AttribPointer {
    /// Attribute index declared in the shader.
    pub index: u32,
    /// Number of components.
    pub size: u32,
    /// Byte offset of the attribute inside the record.
    pub offset: u32,
    /// Byte stride of the whole record.
    pub stride: u32,
}

/// One recorded graphics call.
#[derive(Debug, Clone)]
pub enum GpuCommand {
    /// Clear the color and depth buffers.
    Clear,
    /// Activate a program; program 0 deactivates any program.
    UseProgram { program: u64 },
    /// Resize the viewport to the window's pixel dimensions.
    Viewport { width: u32, height: u32 },
    /// Set an integer uniform.
    UniformInt { location: i64, value: i32 },
    /// Set the per-cell clip-space size uniform to `(2 / columns, 2 / lines)`.
    UniformCellSize { location: i64, columns: u32, lines: u32 },
    /// Set the window pixel size uniform.
    UniformWindowSize { location: i64, width: u32, height: u32 },
    /// Compile a shader stage from source.
    CreateShader { shader: u64, kind: ShaderKind, source: String },
    /// Link two compiled stages into a program.
    CreateProgram { program: u64, vertex: u64, fragment: u64 },
    /// Resolve a named uniform of a program to a location.
    UniformLocation { program: u64, location: i64, name: UniformName },
    /// Create a vertex array object.
    CreateVertexArray { vao: u64 },
    /// Create a buffer object.
    CreateBuffer { buffer: u64 },
    /// Fill an index buffer with the fixed six-index quad topology
    /// `[0, 1, 2, 3, 0, 2]`: all six indices draw the two triangles of the
    /// filled quad, while the first four alone trace the unfilled
    /// rectangle outline.
    UploadQuadIndices { buffer: u64 },
    /// Declare one per-instance attribute binding of a vertex array,
    /// reading from the named vertex buffer.
    DefineAttrib { vao: u64, buffer: u64, attrib: AttribPointer },
    /// Create a texture and upload a bitmap into it.
    CreateTexture { texture: u64, width: i32, height: i32, colored: bool, data: Vec<u8> },
    /// Upload a cell's instance-attribute record into its vertex buffer.
    UploadAttr { buffer: u64, attr: InstanceAttr },
    /// Delete a vertex array object; its handle is never reused.
    DeleteVertexArray { vao: u64 },
    /// Delete a buffer object; its handle is never reused.
    DeleteBuffer { buffer: u64 },
    /// Issue one instanced draw call.
    Draw { vao: u64, texture: u64, kind: DrawKind, index_count: u32 },
}

/// The GPU capability: handle counters and the ordered command log.
///
/// Handle 0 is reserved as the null handle in every namespace, so counters
/// start at 1; uniform locations start at 0.
pub struct Gpu {
    next_shader: u64,
    next_program: u64,
    next_vao: u64,
    next_buffer: u64,
    next_texture: u64,
    next_location: i64,
    log: Vec<GpuCommand>,
}

impl Gpu {
    /// The commands recorded so far, oldest first.
    pub closed spec fn log(&self) -> Seq<GpuCommand> {
        self.log@
    }

    /// The handle the next shader allocation will receive.
    pub closed spec fn next_shader(&self) -> u64 {
        self.next_shader
    }

    /// The handle the next program allocation will receive.
    pub closed spec fn next_program(&self) -> u64 {
        self.next_program
    }

    /// The handle the next vertex-array allocation will receive.
    pub closed spec fn next_vao(&self) -> u64 {
        self.next_vao
    }

    /// The handle the next buffer allocation will receive.
    pub closed spec fn next_buffer(&self) -> u64 {
        self.next_buffer
    }

    /// The handle the next texture allocation will receive.
    pub closed spec fn next_texture(&self) -> u64 {
        self.next_texture
    }

    /// The location the next uniform resolution will receive.
    pub closed spec fn next_location(&self) -> i64 {
        self.next_location
    }

    /// Handle 0 stays reserved in every namespace.
    pub open spec fn wf(&self) -> bool {
        &&& self.next_shader() >= 1
        &&& self.next_program() >= 1
        &&& self.next_vao() >= 1
        &&& self.next_buffer() >= 1
        &&& self.next_texture() >= 1
        &&& self.next_location() >= 0
    }

    /// Two states agree on every handle counter.
    pub open spec fn same_handles(a: &Gpu, b: &Gpu) -> bool {
        &&& a.next_shader() == b.next_shader()
        &&& a.next_program() == b.next_program()
        &&& a.next_vao() == b.next_vao()
        &&& a.next_buffer() == b.next_buffer()
        &&& a.next_texture() == b.next_texture()
        &&& a.next_location() == b.next_location()
    }

    /// Record a clear of the color and depth buffers.
    pub fn clear(&mut self)
        ensures
            Gpu::same_handles(old(self), final(self)),
            final(self).log() == old(self).log().push(GpuCommand::Clear),
    {
        self.log.push(GpuCommand::Clear);
    }

    /// Record activation of a program.
    pub fn use_program(&mut self, program: u64)
        ensures
            Gpu::same_handles(old(self), final(self)),
            final(self).log() == old(self).log().push(GpuCommand::UseProgram { program }),
    {
        self.log.push(GpuCommand::UseProgram { program });
    }

    /// Record a viewport change.
    pub fn viewport(&mut self, width: u32, height: u32)
        ensures
            Gpu::same_handles(old(self), final(self)),
            final(self).log() == old(self).log().push(GpuCommand::Viewport { width, height }),
    {
        self.log.push(GpuCommand::Viewport { width, height });
    }

    /// Record an integer uniform update.
    pub fn uniform_int(&mut self, location: i64, value: i32)
        ensures
            Gpu::same_handles(old(self), final(self)),
            final(self).log() == old(self).log().push(
                GpuCommand::UniformInt { location, value },
            ),
    {
        self.log.push(GpuCommand::UniformInt { location, value });
    }

    /// Record an update of the clip-space cell size uniform.
    pub fn uniform_cell_size(&mut self, location: i64, columns: u32, lines: u32)
        ensures
            Gpu::same_handles(old(self), final(self)),
            final(self).log() == old(self).log().push(
                GpuCommand::UniformCellSize { location, columns, lines },
            ),
    {
        self.log.push(GpuCommand::UniformCellSize { location, columns, lines });
    }

    /// Record an update of the window pixel size uniform.
    pub fn uniform_window_size(&mut self, location: i64, width: u32, height: u32)
        ensures
            Gpu::same_handles(old(self), final(self)),
            final(self).log() == old(self).log().push(
                GpuCommand::UniformWindowSize { location, width, height },
            ),
    {
        self.log.push(GpuCommand::UniformWindowSize { location, width, height });
    }

    /// Allocate a shader handle and record its compilation.
    pub fn create_shader(&mut self, kind: ShaderKind, source: String) -> (shader: u64)
        requires
            old(self).next_shader() < u64::MAX,
        ensures
            shader == old(self).next_shader(),
            final(self).next_shader() == old(self).next_shader() + 1,
            final(self).next_program() == old(self).next_program(),
            final(self).next_vao() == old(self).next_vao(),
            final(self).next_buffer() == old(self).next_buffer(),
            final(self).next_texture() == old(self).next_texture(),
            final(self).next_location() == old(self).next_location(),
            final(self).log() == old(self).log().push(
                GpuCommand::CreateShader { shader, kind, source },
            ),
    {
        let shader: u64 = self.next_shader;
        self.next_shader = self.next_shader + 1;
        self.log.push(GpuCommand::CreateShader { shader, kind, source });
        shader
    }

    /// Allocate a program handle and record the link of two stages.
    pub fn create_program(&mut self, vertex: u64, fragment: u64) -> (program: u64)
        requires
            old(self).next_program() < u64::MAX,
        ensures
            program == old(self).next_program(),
            final(self).next_program() == old(self).next_program() + 1,
            final(self).next_shader() == old(self).next_shader(),
            final(self).next_vao() == old(self).next_vao(),
            final(self).next_buffer() == old(self).next_buffer(),
            final(self).next_texture() == old(self).next_texture(),
            final(self).next_location() == old(self).next_location(),
            final(self).log() == old(self).log().push(
                GpuCommand::CreateProgram { program, vertex, fragment },
            ),
    {
        let program: u64 = self.next_program;
        self.next_program = self.next_program + 1;
        self.log.push(GpuCommand::CreateProgram { program, vertex, fragment });
        program
    }

    /// Resolve a uniform name of a program to a fresh location.
    pub fn uniform_location(&mut self, program: u64, name: UniformName) -> (location: i64)
        requires
            old(self).next_location() < i64::MAX,
        ensures
            location == old(self).next_location(),
            final(self).next_location() == old(self).next_location() + 1,
            final(self).next_shader() == old(self).next_shader(),
            final(self).next_program() == old(self).next_program(),
            final(self).next_vao() == old(self).next_vao(),
            final(self).next_buffer() == old(self).next_buffer(),
            final(self).next_texture() == old(self).next_texture(),
            final(self).log() == old(self).log().push(
                GpuCommand::UniformLocation { program, location, name },
            ),
    {
        let location: i64 = self.next_location;
        self.next_location = self.next_location + 1;
        self.log.push(GpuCommand::UniformLocation { program, location, name });
        location
    }

    /// Allocate a vertex array handle.
    pub fn create_vertex_array(&mut self) -> (vao: u64)
        requires
            old(self).next_vao() < u64::MAX,
        ensures
            vao == old(self).next_vao(),
            final(self).next_vao() == old(self).next_vao() + 1,
            final(self).next_shader() == old(self).next_shader(),
            final(self).next_program() == old(self).next_program(),
            final(self).next_buffer() == old(self).next_buffer(),
            final(self).next_texture() == old(self).next_texture(),
            final(self).next_location() == old(self).next_location(),
            final(self).log() == old(self).log().push(GpuCommand::CreateVertexArray { vao }),
    {
        let vao: u64 = self.next_vao;
        self.next_vao = self.next_vao + 1;
        self.log.push(GpuCommand::CreateVertexArray { vao });
        vao
    }

    /// Allocate a buffer handle.
    pub fn create_buffer(&mut self) -> (buffer: u64)
        requires
            old(self).next_buffer() < u64::MAX,
        ensures
            buffer == old(self).next_buffer(),
            final(self).next_buffer() == old(self).next_buffer() + 1,
            final(self).next_shader() == old(self).next_shader(),
            final(self).next_program() == old(self).next_program(),
            final(self).next_vao() == old(self).next_vao(),
            final(self).next_texture() == old(self).next_texture(),
            final(self).next_location() == old(self).next_location(),
            final(self).log() == old(self).log().push(GpuCommand::CreateBuffer { buffer }),
    {
        let buffer: u64 = self.next_buffer;
        self.next_buffer = self.next_buffer + 1;
        self.log.push(GpuCommand::CreateBuffer { buffer });
        buffer
    }

    /// Record the upload of the fixed quad topology into an index buffer.
    pub fn upload_quad_indices(&mut self, buffer: u64)
        ensures
            Gpu::same_handles(old(self), final(self)),
            final(self).log() == old(self).log().push(
                GpuCommand::UploadQuadIndices { buffer },
            ),
    {
        self.log.push(GpuCommand::UploadQuadIndices { buffer });
    }

    /// Record one attribute binding of a vertex array over a vertex
    /// buffer.
    pub fn define_attrib(&mut self, vao: u64, buffer: u64, attrib: AttribPointer)
        ensures
            Gpu::same_handles(old(self), final(self)),
            final(self).log() == old(self).log().push(
                GpuCommand::DefineAttrib { vao, buffer, attrib },
            ),
    {
        self.log.push(GpuCommand::DefineAttrib { vao, buffer, attrib });
    }

    /// Allocate a texture handle and record the bitmap upload into it.
    /// The buffer must cover the upload: the host reads one byte per
    /// channel per pixel — four channels for a colored (RGBA) texture,
    /// three otherwise — whenever the dimensions are positive.
    pub fn create_texture(
        &mut self,
        width: i32,
        height: i32,
        colored: bool,
        data: Vec<u8>,
    ) -> (texture: u64)
        requires
            old(self).next_texture() < u64::MAX,
            data@.len() >= width * height * (if colored {
                4int
            } else {
                3int
            }),
        ensures
            texture == old(self).next_texture(),
            final(self).next_texture() == old(self).next_texture() + 1,
            final(self).next_shader() == old(self).next_shader(),
            final(self).next_program() == old(self).next_program(),
            final(self).next_vao() == old(self).next_vao(),
            final(self).next_buffer() == old(self).next_buffer(),
            final(self).next_location() == old(self).next_location(),
            final(self).log() == old(self).log().push(
                GpuCommand::CreateTexture { texture, width, height, colored, data },
            ),
    {
        let texture: u64 = self.next_texture;
        self.next_texture = self.next_texture + 1;
        self.log.push(GpuCommand::CreateTexture { texture, width, height, colored, data });
        texture
    }

    /// Record an instance-attribute upload.
    pub fn upload_attr(&mut self, buffer: u64, attr: InstanceAttr)
        ensures
            Gpu::same_handles(old(self), final(self)),
            final(self).log() == old(self).log().push(GpuCommand::UploadAttr { buffer, attr }),
    {
        self.log.push(GpuCommand::UploadAttr { buffer, attr });
    }

    /// Record the deletion of a vertex array; the counters stay put, so
    /// the handle is retired for good.
    pub fn delete_vertex_array(&mut self, vao: u64)
        ensures
            Gpu::same_handles(old(self), final(self)),
            final(self).log() == old(self).log().push(GpuCommand::DeleteVertexArray { vao }),
    {
        self.log.push(GpuCommand::DeleteVertexArray { vao });
    }

    /// Record the deletion of a buffer; the counters stay put, so the
    /// handle is retired for good.
    pub fn delete_buffer(&mut self, buffer: u64)
        ensures
            Gpu::same_handles(old(self), final(self)),
            final(self).log() == old(self).log().push(GpuCommand::DeleteBuffer { buffer }),
    {
        self.log.push(GpuCommand::DeleteBuffer { buffer });
    }

    /// Record one instanced draw call.
    pub fn draw(&mut self, vao: u64, texture: u64, kind: DrawKind, index_count: u32)
        ensures
            Gpu::same_handles(old(self), final(self)),
            final(self).log() == old(self).log().push(
                GpuCommand::Draw { vao, texture, kind, index_count },
            ),
    {
        self.log.push(GpuCommand::Draw { vao, texture, kind, index_count });
    }

    /// The next vertex-array, buffer and texture handles to be drawn, in
    /// that order, for hosts that check a call's allocation headroom
    /// before making it.
    pub fn counters(&self) -> (counters: (u64, u64, u64))
        ensures
            counters.0 == self.next_vao(),
            counters.1 == self.next_buffer(),
            counters.2 == self.next_texture(),
    {
        (self.next_vao, self.next_buffer, self.next_texture)
    }

    /// Hand the recorded commands to the host for execution, leaving the
    /// log empty; handle counters are untouched, so handles stay unique
    /// across the whole lifetime of the capability.
    pub fn take_commands(&mut self) -> (commands: Vec<GpuCommand>)
        ensures
            Gpu::same_handles(old(self), final(self)),
            final(self).log() == Seq::<GpuCommand>::empty(),
            commands@ == old(self).log(),
    {
        let mut commands: Vec<GpuCommand> = Vec::new();
        std::mem::swap(&mut commands, &mut self.log);
        commands
    }
}

/// Create the GPU capability for a freshly current graphics context.
///
/// This stands where loading the binding table for the context would: it
/// must happen once the context is current, and the value it returns is the
/// sole gateway to the GPU for everything built on top of it.
pub fn setup_opengl() -> (gpu: Gpu)
    ensures
        gpu.wf(),
        gpu.log() == Seq::<GpuCommand>::empty(),
        gpu.next_shader() == 1,
        gpu.next_program() == 1,
        gpu.next_vao() == 1,
        gpu.next_buffer() == 1,
        gpu.next_texture() == 1,
        gpu.next_location() == 0,
{
    Gpu {
        next_shader: 1,
        next_program: 1,
        next_vao: 1,
        next_buffer: 1,
        next_texture: 1,
        next_location: 0,
        log: Vec::new(),
    }
}

} // verus!
