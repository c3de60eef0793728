//! One drawable grid cell: exclusive vertex-array, vertex and index
//! buffers created once at grid allocation, the character on display, and
//! the instance-attribute record pushed to the GPU before each draw.
//!
//! The attribute layout a cell declares at creation — grid coordinates,
//! UV box, baseline, in that order at indices 0, 1 and 2 — is the wire
//! contract with the shader's per-instance inputs and never changes.

use vstd::prelude::*;

use crate::glyph::Glyph;
use crate::gpu::{AttribPointer, DrawKind, Gpu, GpuCommand, InstanceAttr};

verus! {

/// Stride of the instance-attribute record: seven 4-byte lanes.
pub const ATTR_STRIDE: u32 = 28;

/// A cell's buffers never fit more than `i64` scaling would allow: scaling
/// any value of magnitude at most 2^32 by a ratio of at most 10000
/// hundredths stays far inside `i64`.
proof fn lemma_scale_in_range(v: int, scale: int)
    requires
        -0x1_0000_0000 <= v <= 0x1_0000_0000,
        0 <= scale <= 10000,
    ensures
        -0x8000_0000_0000_0000 <= v * scale <= 0x7fff_ffff_ffff_ffff,
{
    assert(-0x8000_0000_0000_0000 <= v * scale <= 0x7fff_ffff_ffff_ffff) by (nonlinear_arith)
        requires
            -0x1_0000_0000 <= v <= 0x1_0000_0000,
            0 <= scale <= 10000,
    ;
}

/// The atomic drawable unit of the grid.
#[derive(Debug, Clone)]
pub struct Cell {
    vao: u64,
    vbo: u64,
    ebo: u64,
    texture: u64,
    ch: char,
    attr: InstanceAttr,
}

impl Cell {
    /// The cell's vertex-array handle.
    pub closed spec fn vao(&self) -> u64 {
        self.vao
    }

    /// The cell's vertex-buffer handle.
    pub closed spec fn vbo(&self) -> u64 {
        self.vbo
    }

    /// The cell's index-buffer handle.
    pub closed spec fn ebo(&self) -> u64 {
        self.ebo
    }

    /// The texture handle borrowed from the glyph cache, 0 when blank.
    pub closed spec fn texture(&self) -> u64 {
        self.texture
    }

    /// The character on display.
    pub closed spec fn character(&self) -> char {
        self.ch
    }

    /// The instance-attribute record as last recomputed.
    pub closed spec fn attr(&self) -> InstanceAttr {
        self.attr
    }

    /// The commands creating a cell's GPU objects: the vertex array, the
    /// index buffer with the quad topology, the vertex buffer, and the
    /// fixed attribute layout — grid coordinates, UV box, baseline.
    pub open spec fn creation_commands(&self) -> Seq<GpuCommand> {
        seq![
            GpuCommand::CreateVertexArray { vao: self.vao() },
            GpuCommand::CreateBuffer { buffer: self.ebo() },
            GpuCommand::UploadQuadIndices { buffer: self.ebo() },
            GpuCommand::CreateBuffer { buffer: self.vbo() },
            GpuCommand::DefineAttrib {
                vao: self.vao(),
                buffer: self.vbo(),
                attrib: (AttribPointer { index: 0u32, size: 2u32, offset: 0u32, stride: ATTR_STRIDE }),
            },
            GpuCommand::DefineAttrib {
                vao: self.vao(),
                buffer: self.vbo(),
                attrib: (AttribPointer { index: 1u32, size: 4u32, offset: 8u32, stride: ATTR_STRIDE }),
            },
            GpuCommand::DefineAttrib {
                vao: self.vao(),
                buffer: self.vbo(),
                attrib: (AttribPointer { index: 2u32, size: 1u32, offset: 24u32, stride: ATTR_STRIDE }),
            },
        ]
    }

    /// Allocate the GPU objects of the cell at grid position
    /// (`row`, `col`) and declare its attribute layout.
    pub fn new(row: usize, col: usize, gpu: &mut Gpu) -> (cell: Cell)
        requires
            row <= u32::MAX,
            col <= u32::MAX,
            old(gpu).next_vao() < u64::MAX,
            old(gpu).next_buffer() + 2 <= u64::MAX,
        ensures
            cell.vao() == old(gpu).next_vao(),
            cell.ebo() == old(gpu).next_buffer(),
            cell.vbo() == old(gpu).next_buffer() + 1,
            cell.texture() == 0,
            cell.character() == '\0',
            cell.attr() == (InstanceAttr {
                col: col as u32,
                row: row as u32,
                uv_width: 0i64,
                uv_height: 0i64,
                uv_offset_x: 0i64,
                uv_offset_y: 0i64,
                baseline: 0i64,
            }),
            final(gpu).next_vao() == old(gpu).next_vao() + 1,
            final(gpu).next_buffer() == old(gpu).next_buffer() + 2,
            final(gpu).next_shader() == old(gpu).next_shader(),
            final(gpu).next_program() == old(gpu).next_program(),
            final(gpu).next_texture() == old(gpu).next_texture(),
            final(gpu).next_location() == old(gpu).next_location(),
            final(gpu).log() == old(gpu).log() + cell.creation_commands(),
    {
        let vao: u64 = gpu.create_vertex_array();
        let ebo: u64 = gpu.create_buffer();
        gpu.upload_quad_indices(ebo);
        let vbo: u64 = gpu.create_buffer();
        gpu.define_attrib(
            vao,
            vbo,
            AttribPointer { index: 0, size: 2, offset: 0, stride: ATTR_STRIDE },
        );
        gpu.define_attrib(
            vao,
            vbo,
            AttribPointer { index: 1, size: 4, offset: 8, stride: ATTR_STRIDE },
        );
        gpu.define_attrib(
            vao,
            vbo,
            AttribPointer { index: 2, size: 1, offset: 24, stride: ATTR_STRIDE },
        );
        let cell = Cell {
            vao,
            vbo,
            ebo,
            texture: 0,
            ch: '\0',
            attr: InstanceAttr {
                col: col as u32,
                row: row as u32,
                uv_width: 0,
                uv_height: 0,
                uv_offset_x: 0,
                uv_offset_y: 0,
                baseline: 0,
            },
        };
        proof {
            assert(gpu.log() =~= old(gpu).log() + cell.creation_commands());
        }
        cell
    }

    /// Store the character and its glyph, and recompute the instance
    /// attributes: the glyph box scaled by the device pixel ratio (in
    /// hundredths), the vertical offset lifted by the cell's descent so
    /// glyphs share a baseline, and the baseline itself.
    pub fn set_text(&mut self, ch: char, glyph: &Glyph, dpr: u32, cell_descent: i32)
        requires
            1 <= dpr <= 10000,
        ensures
            final(self).vao() == old(self).vao(),
            final(self).vbo() == old(self).vbo(),
            final(self).ebo() == old(self).ebo(),
            final(self).character() == ch,
            final(self).texture() == glyph.texture,
            final(self).attr().col == old(self).attr().col,
            final(self).attr().row == old(self).attr().row,
            final(self).attr().uv_width == glyph.width * dpr,
            final(self).attr().uv_height == glyph.height * dpr,
            final(self).attr().uv_offset_x == glyph.left * dpr,
            final(self).attr().uv_offset_y == (glyph.top + cell_descent) * dpr,
            final(self).attr().baseline == cell_descent * dpr,
    {
        proof {
            lemma_scale_in_range(glyph.width as int, dpr as int);
            lemma_scale_in_range(glyph.height as int, dpr as int);
            lemma_scale_in_range(glyph.left as int, dpr as int);
            lemma_scale_in_range(glyph.top + cell_descent, dpr as int);
            lemma_scale_in_range(cell_descent as int, dpr as int);
        }
        let scale: i64 = dpr as i64;
        self.ch = ch;
        self.texture = glyph.texture;
        self.attr.uv_width = (glyph.width as i64) * scale;
        self.attr.uv_height = (glyph.height as i64) * scale;
        self.attr.uv_offset_x = (glyph.left as i64) * scale;
        self.attr.uv_offset_y = ((glyph.top as i64) + (cell_descent as i64)) * scale;
        self.attr.baseline = (cell_descent as i64) * scale;
    }

    /// The fill mode a pass draws with: pass 0 fills the glyph quad, every
    /// other pass draws a wireframe outline.
    pub open spec fn draw_kind_of(pass: u8) -> DrawKind {
        if pass == 0 {
            DrawKind::FilledTriangles
        } else {
            DrawKind::OutlineLoop
        }
    }

    /// How many of the quad indices a pass uses: all six for the filled
    /// quad, the first four for an outline.
    pub open spec fn index_count_of(pass: u8) -> u32 {
        if pass == 0 {
            6u32
        } else {
            4u32
        }
    }

    /// The two commands of one draw pass over this cell: upload the
    /// attribute record, then one instanced draw call.
    pub open spec fn draw_commands(&self, pass: u8) -> Seq<GpuCommand> {
        seq![
            GpuCommand::UploadAttr { buffer: self.vbo(), attr: self.attr() },
            GpuCommand::Draw {
                vao: self.vao(),
                texture: self.texture(),
                kind: Self::draw_kind_of(pass),
                index_count: Self::index_count_of(pass),
            },
        ]
    }

    /// Upload the current attribute record and issue one instanced draw:
    /// pass 0 draws the filled glyph quad, pass 1 the glyph bounding box,
    /// pass 2 the cell box and pass 3 the baseline, the outlines all in
    /// wireframe over the first four quad indices.
    pub fn draw(&self, pass: u8, gpu: &mut Gpu)
        ensures
            Gpu::same_handles(old(gpu), final(gpu)),
            final(gpu).log() == old(gpu).log() + self.draw_commands(pass),
    {
        gpu.upload_attr(self.vbo, self.attr);
        match pass {
            0 => gpu.draw(self.vao, self.texture, DrawKind::FilledTriangles, 6),
            1 | 2 => gpu.draw(self.vao, self.texture, DrawKind::OutlineLoop, 4),
            _ => gpu.draw(self.vao, self.texture, DrawKind::OutlineLoop, 4),
        }
        proof {
            assert(gpu.log() =~= old(gpu).log() + self.draw_commands(pass));
        }
    }

    /// The commands releasing the cell's GPU objects when the grid that
    /// owns it is discarded.
    pub open spec fn release_commands(&self) -> Seq<GpuCommand> {
        seq![
            GpuCommand::DeleteVertexArray { vao: self.vao() },
            GpuCommand::DeleteBuffer { buffer: self.ebo() },
            GpuCommand::DeleteBuffer { buffer: self.vbo() },
        ]
    }

    /// Release the cell's GPU objects. The grid renderer calls this
    /// exactly once per cell, right before discarding a grid; the glyph
    /// texture is not touched, since the cell only borrows it from the
    /// cache.
    pub fn release(&self, gpu: &mut Gpu)
        ensures
            Gpu::same_handles(old(gpu), final(gpu)),
            final(gpu).log() == old(gpu).log() + self.release_commands(),
    {
        gpu.delete_vertex_array(self.vao);
        gpu.delete_buffer(self.ebo);
        gpu.delete_buffer(self.vbo);
        proof {
            assert(gpu.log() =~= old(gpu).log() + self.release_commands());
        }
    }

    /// The character on display, for the host and for tests.
    pub fn displayed_character(&self) -> (ch: char)
        ensures
            ch == self.character(),
    {
        self.ch
    }

    /// The texture handle the cell borrows, 0 when blank.
    pub fn glyph_texture(&self) -> (texture: u64)
        ensures
            texture == self.texture(),
    {
        self.texture
    }
}

} // verus!
