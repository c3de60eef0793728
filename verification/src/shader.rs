//! The grid renderer: the compiled shader program, the two-dimensional
//! array of cells, and the per-frame and per-resize orchestration over
//! them.
//!
//! The grid fills the whole clip-space viewport: `set_size` pushes
//! `(2 / columns, 2 / lines)` as the per-cell size uniform and reallocates
//! the cell array wholesale; `resize` reflows the shape as the floor of
//! window pixels over cell pixels; `draw_frame` walks the grid in
//! row-major order issuing all four draw passes per cell, setting the
//! shared pass uniform before each.

use vstd::prelude::*;

use crate::cell::Cell;
use crate::font::{Font, FontError, FontMetrics};
use crate::glyph::{Glyph, GlyphCache, GlyphKey};
use crate::gpu::{Gpu, GpuCommand, ShaderKind, UniformName};

verus! {

/// Why renderer construction failed; construction is the only fallible
/// operation, and failure is terminal for the instance.
#[derive(Debug)]
pub enum CreationError {
    /// Reading a shader source failed with no embedded fallback to fall
    /// back to; reported by a host whose deployment lacks one.
    Io(String),
    /// A shader stage failed to compile, per the host's build report:
    /// the stage's source path and the compiler's log.
    Compile(String, String),
    /// The program failed to link, per the host's build report: the
    /// linker's log.
    Link(String),
    /// Neither the requested font nor the fallback could be loaded.
    Font(FontError),
}

/// The host's report of one build stage: whether the driver accepted it,
/// and the driver's information log.
#[derive(Debug, Clone)]
pub struct StageReport {
    pub success: bool,
    pub log: String,
}

impl From<FontError> for CreationError {
    fn from(err: FontError) -> (converted: CreationError) {
        CreationError::Font(err)
    }
}

impl vstd::std_specs::convert::FromSpecImpl<FontError> for CreationError {
    open spec fn obeys_from_spec() -> bool {
        true
    }

    open spec fn from_spec(err: FontError) -> CreationError {
        CreationError::Font(err)
    }
}

/// The shape of the grid in cells.
#[derive(Debug, Clone, Copy, PartialEq, Eq, Structural)]
pub struct GridSize {
    pub lines: usize,
    pub columns: usize,
}

/// The sequence of row views of the cell array.
pub open spec fn views_of(rows: Seq<Vec<Cell>>) -> Seq<Seq<Cell>> {
    Seq::new(rows.len(), |i: int| rows[i]@)
}

/// The commands that create every cell of a grid, row after row.
pub open spec fn grid_creation_commands(grid: Seq<Seq<Cell>>) -> Seq<GpuCommand>
    decreases grid.len(),
{
    if grid.len() == 0 {
        Seq::empty()
    } else {
        grid_creation_commands(grid.drop_last()) + row_creation_commands(grid.last())
    }
}

/// The commands that create every cell of one row.
pub open spec fn row_creation_commands(row: Seq<Cell>) -> Seq<GpuCommand>
    decreases row.len(),
{
    if row.len() == 0 {
        Seq::empty()
    } else {
        row_creation_commands(row.drop_last()) + row.last().creation_commands()
    }
}

/// The commands that release every cell of a discarded grid, row after
/// row; each cell's buffers are deleted exactly once.
pub open spec fn grid_release_commands(grid: Seq<Seq<Cell>>) -> Seq<GpuCommand>
    decreases grid.len(),
{
    if grid.len() == 0 {
        Seq::empty()
    } else {
        grid_release_commands(grid.drop_last()) + row_release_commands(grid.last())
    }
}

/// The commands that release every cell of one row.
pub open spec fn row_release_commands(row: Seq<Cell>) -> Seq<GpuCommand>
    decreases row.len(),
{
    if row.len() == 0 {
        Seq::empty()
    } else {
        row_release_commands(row.drop_last()) + row.last().release_commands()
    }
}

/// One cell's slice of a frame: the four passes in order, the shared pass
/// uniform set before each.
pub open spec fn cell_frame_commands(cell: Cell, flag_location: i64) -> Seq<GpuCommand> {
    seq![GpuCommand::UniformInt { location: flag_location, value: 0i32 }] + cell.draw_commands(0)
        + seq![GpuCommand::UniformInt { location: flag_location, value: 1i32 }]
        + cell.draw_commands(1) + seq![
        GpuCommand::UniformInt { location: flag_location, value: 2i32 },
    ] + cell.draw_commands(2) + seq![
        GpuCommand::UniformInt { location: flag_location, value: 3i32 },
    ] + cell.draw_commands(3)
}

/// One row's slice of a frame, cell after cell.
pub open spec fn row_frame_commands(row: Seq<Cell>, flag_location: i64) -> Seq<GpuCommand>
    decreases row.len(),
{
    if row.len() == 0 {
        Seq::empty()
    } else {
        row_frame_commands(row.drop_last(), flag_location) + cell_frame_commands(
            row.last(),
            flag_location,
        )
    }
}

/// A whole frame's draw commands over the grid, row-major: every cell is
/// drawn in all four passes before the next cell is touched.
pub open spec fn grid_frame_commands(grid: Seq<Seq<Cell>>, flag_location: i64) -> Seq<GpuCommand>
    decreases grid.len(),
{
    if grid.len() == 0 {
        Seq::empty()
    } else {
        grid_frame_commands(grid.drop_last(), flag_location) + row_frame_commands(
            grid.last(),
            flag_location,
        )
    }
}

/// The commands of renderer construction: compile both stages, link and
/// activate the program, and resolve its three uniforms.
pub open spec fn setup_commands(g: Gpu, vertex_source: String, fragment_source: String) -> Seq<
    GpuCommand,
> {
    seq![
        GpuCommand::CreateShader {
            shader: g.next_shader(),
            kind: ShaderKind::Vertex,
            source: vertex_source,
        },
        GpuCommand::CreateShader {
            shader: (g.next_shader() + 1) as u64,
            kind: ShaderKind::Fragment,
            source: fragment_source,
        },
        GpuCommand::CreateProgram {
            program: g.next_program(),
            vertex: g.next_shader(),
            fragment: (g.next_shader() + 1) as u64,
        },
        GpuCommand::UseProgram { program: g.next_program() },
        GpuCommand::UniformLocation {
            program: g.next_program(),
            location: g.next_location(),
            name: UniformName::CellSize,
        },
        GpuCommand::UniformLocation {
            program: g.next_program(),
            location: (g.next_location() + 1) as i64,
            name: UniformName::WindowSize,
        },
        GpuCommand::UniformLocation {
            program: g.next_program(),
            location: (g.next_location() + 2) as i64,
            name: UniformName::DrawFlag,
        },
    ]
}

/// The grid renderer.
pub struct TextShader {
    program: u64,
    u_cell_size: i64,
    u_window_size: i64,
    u_draw_flag: i64,
    cells: Vec<Vec<Cell>>,
    dpr: u32,
    cell_width: u32,
    cell_height: u32,
    cell_descent: i32,
    glyph_cache: GlyphCache,
    font_id: u32,
    gpu: Gpu,
}

impl TextShader {
    /// The grid as a sequence of rows of cells.
    pub closed spec fn grid(&self) -> Seq<Seq<Cell>> {
        views_of(self.cells@)
    }

    /// How many lines the grid has.
    pub open spec fn lines(&self) -> nat {
        self.grid().len()
    }

    /// How many columns the grid has.
    pub open spec fn columns(&self) -> nat {
        if self.grid().len() == 0 {
            0
        } else {
            self.grid()[0].len()
        }
    }

    /// The character displayed at a grid position.
    pub open spec fn char_at(&self, row: int, col: int) -> char {
        self.grid()[row][col].character()
    }

    /// The device pixel ratio, in hundredths.
    pub closed spec fn spec_dpr(&self) -> u32 {
        self.dpr
    }

    /// Width of one cell in device pixels.
    pub closed spec fn spec_cell_width(&self) -> u32 {
        self.cell_width
    }

    /// Height of one cell in device pixels.
    pub closed spec fn spec_cell_height(&self) -> u32 {
        self.cell_height
    }

    /// The font's descent below the baseline, in device pixels.
    pub closed spec fn spec_cell_descent(&self) -> i32 {
        self.cell_descent
    }

    /// The linked program's handle.
    pub closed spec fn spec_program(&self) -> u64 {
        self.program
    }

    /// Location of the per-cell clip-space size uniform.
    pub closed spec fn spec_u_cell_size(&self) -> i64 {
        self.u_cell_size
    }

    /// Location of the window pixel size uniform.
    pub closed spec fn spec_u_window_size(&self) -> i64 {
        self.u_window_size
    }

    /// Location of the draw pass uniform.
    pub closed spec fn spec_u_draw_flag(&self) -> i64 {
        self.u_draw_flag
    }

    /// The renderer's identifier for its single regular font.
    pub closed spec fn spec_font_id(&self) -> u32 {
        self.font_id
    }

    /// The GPU capability the renderer owns.
    pub closed spec fn gpu(&self) -> Gpu {
        self.gpu
    }

    /// The glyph cache the renderer owns.
    pub closed spec fn cache(&self) -> GlyphCache {
        self.glyph_cache
    }

    /// The cache key a character resolves to: the renderer's font, the
    /// character, and the font's point size.
    pub open spec fn glyph_key_for(&self, ch: char) -> GlyphKey {
        GlyphKey {
            font: self.spec_font_id(),
            character: ch,
            size: self.cache().spec_font().point_size(),
        }
    }

    /// Two renderer states agree on everything but the grid, the cache and
    /// the GPU: the program, its uniforms, the cell geometry and the font
    /// identifier.
    pub open spec fn same_config(a: &TextShader, b: &TextShader) -> bool {
        &&& a.spec_dpr() == b.spec_dpr()
        &&& a.spec_cell_width() == b.spec_cell_width()
        &&& a.spec_cell_height() == b.spec_cell_height()
        &&& a.spec_cell_descent() == b.spec_cell_descent()
        &&& a.spec_program() == b.spec_program()
        &&& a.spec_u_cell_size() == b.spec_u_cell_size()
        &&& a.spec_u_window_size() == b.spec_u_window_size()
        &&& a.spec_u_draw_flag() == b.spec_u_draw_flag()
        &&& a.spec_font_id() == b.spec_font_id()
    }

    /// The renderer's invariant: the GPU capability is well formed, the
    /// device pixel ratio and cell geometry are in range, the grid is
    /// rectangular with every cell carrying its own coordinates, and the
    /// glyph cache's textures lie below the GPU's texture counter.
    pub closed spec fn wf(&self) -> bool {
        &&& self.gpu.wf()
        &&& 1 <= self.dpr <= 10000
        &&& self.cell_width >= 1
        &&& self.cell_height >= 1
        &&& self.lines() <= u32::MAX
        &&& self.columns() <= u32::MAX
        &&& forall|r: int|
            0 <= r < self.grid().len() ==> (#[trigger] self.grid()[r]).len() == self.columns()
        &&& forall|r: int, c: int|
            0 <= r < self.lines() && 0 <= c < self.columns() ==> (#[trigger] self.grid()[r][c]).attr().row
                == r && self.grid()[r][c].attr().col == c
        &&& self.glyph_cache.wf(self.gpu.next_texture())
        &&& self.glyph_cache.spec_font().has_regular_key()
    }

    /// Cell pixel geometry from font metrics: the descent as given, the
    /// advance and line height clamped up to at least one pixel each.
    pub open spec fn spec_cell_width_of(metrics: FontMetrics) -> u32 {
        if metrics.average_advance >= 1 {
            metrics.average_advance as u32
        } else {
            1u32
        }
    }

    /// See [`Self::spec_cell_width_of`].
    pub open spec fn spec_cell_height_of(metrics: FontMetrics) -> u32 {
        if metrics.line_height >= 1 {
            metrics.line_height as u32
        } else {
            1u32
        }
    }

    /// Compute the cell's pixel size from the font's metrics; a cell is
    /// never smaller than one pixel in either direction.
    fn compute_cell_size(metrics: &FontMetrics) -> (geometry: (i32, u32, u32))
        ensures
            geometry.0 == metrics.descent,
            geometry.1 == Self::spec_cell_width_of(*metrics),
            geometry.2 == Self::spec_cell_height_of(*metrics),
    {
        let cell_width: u32 = if metrics.average_advance >= 1 {
            metrics.average_advance as u32
        } else {
            1
        };
        let cell_height: u32 = if metrics.line_height >= 1 {
            metrics.line_height as u32
        } else {
            1
        };
        (metrics.descent, cell_width, cell_height)
    }

    /// Build the renderer around a font whose regular face is already
    /// loaded: compile and link the shader program, resolve its uniforms,
    /// size the cell from the metrics, and start with an empty glyph cache
    /// and an empty grid.
    pub fn with_loaded_font(
        gpu: Gpu,
        dpr: u32,
        font: Font,
        metrics: &FontMetrics,
        vertex_source: String,
        fragment_source: String,
    ) -> (shader: TextShader)
        requires
            gpu.wf(),
            font.has_regular_key(),
            1 <= dpr <= 10000,
            gpu.next_shader() + 2 <= u64::MAX,
            gpu.next_program() < u64::MAX,
            gpu.next_location() + 3 <= i64::MAX,
        ensures
            shader.wf(),
            shader.lines() == 0,
            shader.columns() == 0,
            shader.spec_dpr() == dpr,
            shader.spec_cell_width() == Self::spec_cell_width_of(*metrics),
            shader.spec_cell_height() == Self::spec_cell_height_of(*metrics),
            shader.spec_cell_descent() == metrics.descent,
            shader.cache()@ == Map::<u128, Glyph>::empty(),
            shader.cache().spec_font() == font,
            shader.spec_font_id() == 0,
            shader.spec_program() == gpu.next_program(),
            shader.spec_u_cell_size() == gpu.next_location(),
            shader.spec_u_window_size() == gpu.next_location() + 1,
            shader.spec_u_draw_flag() == gpu.next_location() + 2,
            shader.gpu().next_shader() == gpu.next_shader() + 2,
            shader.gpu().next_program() == gpu.next_program() + 1,
            shader.gpu().next_location() == gpu.next_location() + 3,
            shader.gpu().next_vao() == gpu.next_vao(),
            shader.gpu().next_buffer() == gpu.next_buffer(),
            shader.gpu().next_texture() == gpu.next_texture(),
            shader.gpu().log() == gpu.log() + setup_commands(gpu, vertex_source, fragment_source),
    {
        let mut gpu = gpu;
        let ghost gpu0 = gpu;
        let vertex_shader: u64 = gpu.create_shader(ShaderKind::Vertex, vertex_source);
        let fragment_shader: u64 = gpu.create_shader(ShaderKind::Fragment, fragment_source);
        let program: u64 = gpu.create_program(vertex_shader, fragment_shader);
        gpu.use_program(program);
        let u_cell_size: i64 = gpu.uniform_location(program, UniformName::CellSize);
        let u_window_size: i64 = gpu.uniform_location(program, UniformName::WindowSize);
        let u_draw_flag: i64 = gpu.uniform_location(program, UniformName::DrawFlag);
        let (cell_descent, cell_width, cell_height) = Self::compute_cell_size(metrics);
        let glyph_cache: GlyphCache = match GlyphCache::new(font) {
            Ok(cache) => cache,
            Err(_) => vstd::pervasive::unreached(),
        };
        let shader = TextShader {
            program,
            u_cell_size,
            u_window_size,
            u_draw_flag,
            cells: Vec::new(),
            dpr,
            cell_width,
            cell_height,
            cell_descent,
            glyph_cache,
            font_id: 0,
            gpu,
        };
        proof {
            assert(shader.grid() =~= Seq::<Seq<Cell>>::empty());
            assert(shader.gpu().log() =~= gpu0.log() + setup_commands(
                gpu0,
                vertex_source,
                fragment_source,
            ));
        }
        shader
    }

    /// Build the renderer: resolve the regular font's key — falling back
    /// to the default family, and failing with a font error when that
    /// fails too — then proceed as [`Self::with_loaded_font`]. Construction
    /// is all-or-nothing: there is no partial-success state.
    pub fn new(
        gpu: Gpu,
        dpr: u32,
        font: Font,
        metrics: &FontMetrics,
        vertex_source: String,
        fragment_source: String,
    ) -> (result: Result<TextShader, CreationError>)
        requires
            gpu.wf(),
            1 <= dpr <= 10000,
            gpu.next_shader() + 2 <= u64::MAX,
            gpu.next_program() < u64::MAX,
            gpu.next_location() + 3 <= i64::MAX,
        ensures
            result matches Ok(shader) ==> {
                &&& shader.wf()
                &&& shader.lines() == 0
                &&& shader.columns() == 0
                &&& shader.spec_dpr() == dpr
                &&& shader.spec_cell_width() == Self::spec_cell_width_of(*metrics)
                &&& shader.spec_cell_height() == Self::spec_cell_height_of(*metrics)
                &&& shader.spec_cell_descent() == metrics.descent
                &&& shader.cache()@ == Map::<u128, Glyph>::empty()
                &&& shader.cache().spec_font().description() == font.description()
                &&& shader.cache().spec_font().point_size() == font.point_size()
                &&& shader.spec_font_id() == 0
                &&& shader.gpu().log() == gpu.log() + setup_commands(
                    gpu,
                    vertex_source,
                    fragment_source,
                )
            },
            result matches Err(err) ==> err is Font,
    {
        let mut font = font;
        match font.compute_font_keys() {
            Ok(_) => {},
            Err(err) => {
                return Err(CreationError::Font(err));
            },
        };
        Ok(Self::with_loaded_font(gpu, dpr, font, metrics, vertex_source, fragment_source))
    }

    /// Reshape the grid. A request with zero lines or columns is rejected
    /// as a no-op on the prior grid. Otherwise the per-cell clip-space
    /// size `(2 / columns, 2 / lines)` is pushed through the cell size
    /// uniform — the grid fills the whole `[-1, 1] × [-1, 1]` viewport —
    /// and the cell array is reallocated wholesale at the new shape,
    /// discarding the previous cells; every new cell carries its own grid
    /// coordinates and starts blank.
    pub fn set_size(&mut self, lines: usize, columns: usize)
        requires
            old(self).wf(),
            lines <= u32::MAX,
            columns <= u32::MAX,
            old(self).gpu().next_vao() + lines * columns <= u64::MAX,
            old(self).gpu().next_buffer() + 2 * (lines * columns) <= u64::MAX,
        ensures
            final(self).wf(),
            lines == 0 || columns == 0 ==> *final(self) == *old(self),
            lines >= 1 && columns >= 1 ==> {
                &&& final(self).lines() == lines
                &&& final(self).columns() == columns
                &&& forall|r: int, c: int|
                    0 <= r < lines && 0 <= c < columns ==> (#[trigger] final(self).grid()[r][c]).attr().row
                        == r && final(self).grid()[r][c].attr().col == c
                        && final(self).grid()[r][c].character() == '\0'
                        && final(self).grid()[r][c].texture() == 0
                &&& TextShader::same_config(old(self), final(self))
                &&& final(self).cache() == old(self).cache()
                &&& final(self).gpu().next_texture() == old(self).gpu().next_texture()
                &&& final(self).gpu().next_shader() == old(self).gpu().next_shader()
                &&& final(self).gpu().next_program() == old(self).gpu().next_program()
                &&& final(self).gpu().next_location() == old(self).gpu().next_location()
                &&& final(self).gpu().next_vao() == old(self).gpu().next_vao() + lines * columns
                &&& final(self).gpu().next_buffer() == old(self).gpu().next_buffer() + 2 * (
                lines * columns)
                &&& final(self).gpu().log() == old(self).gpu().log() + seq![
                    GpuCommand::UseProgram { program: old(self).spec_program() },
                    GpuCommand::UniformCellSize {
                        location: old(self).spec_u_cell_size(),
                        columns: columns as u32,
                        lines: lines as u32,
                    },
                ] + grid_release_commands(old(self).grid()) + grid_creation_commands(
                    final(self).grid(),
                ) + seq![GpuCommand::UseProgram { program: 0u64 }]
            },
    {
        if lines == 0 || columns == 0 {
            return ;
        }
        let program: u64 = self.program;
        let cell_size_location: i64 = self.u_cell_size;
        self.gpu.use_program(program);
        self.gpu.uniform_cell_size(cell_size_location, columns as u32, lines as u32);
        let ghost pre_release_log = self.gpu.log();
        let ghost old_grid = self.grid();
        proof {
            assert(pre_release_log =~= old(self).gpu().log() + seq![
                GpuCommand::UseProgram { program: old(self).spec_program() },
                GpuCommand::UniformCellSize {
                    location: old(self).spec_u_cell_size(),
                    columns: columns as u32,
                    lines: lines as u32,
                },
            ]);
        }
        let mut ry: usize = 0;
        while ry < self.cells.len()
            invariant
                self.cells == old(self).cells,
                self.program == old(self).spec_program(),
                self.u_cell_size == old(self).spec_u_cell_size(),
                self.u_window_size == old(self).spec_u_window_size(),
                self.u_draw_flag == old(self).spec_u_draw_flag(),
                self.dpr == old(self).spec_dpr(),
                1 <= self.dpr <= 10000,
                self.cell_width == old(self).spec_cell_width(),
                self.cell_height == old(self).spec_cell_height(),
                self.cell_descent == old(self).spec_cell_descent(),
                self.font_id == old(self).spec_font_id(),
                self.cell_width >= 1,
                self.cell_height >= 1,
                self.glyph_cache == old(self).cache(),
                self.glyph_cache.wf(self.gpu.next_texture()),
                self.glyph_cache.spec_font().has_regular_key(),
                ry <= self.cells@.len(),
                old_grid == old(self).grid(),
                Gpu::same_handles(&old(self).gpu(), &self.gpu),
                self.gpu.wf(),
                self.gpu.log() == pre_release_log + grid_release_commands(
                    old_grid.take(ry as int),
                ),
            decreases self.cells@.len() - ry,
        {
            let ghost rrow_base = self.gpu.log();
            let rcolumns: usize = self.cells[ry].len();
            let mut rx: usize = 0;
            while rx < rcolumns
                invariant
                    self.cells == old(self).cells,
                    self.program == old(self).spec_program(),
                    self.u_cell_size == old(self).spec_u_cell_size(),
                    self.u_window_size == old(self).spec_u_window_size(),
                    self.u_draw_flag == old(self).spec_u_draw_flag(),
                    self.dpr == old(self).spec_dpr(),
                    1 <= self.dpr <= 10000,
                    self.cell_width == old(self).spec_cell_width(),
                    self.cell_height == old(self).spec_cell_height(),
                    self.cell_descent == old(self).spec_cell_descent(),
                    self.font_id == old(self).spec_font_id(),
                    self.cell_width >= 1,
                    self.cell_height >= 1,
                    self.glyph_cache == old(self).cache(),
                    self.glyph_cache.wf(self.gpu.next_texture()),
                    self.glyph_cache.spec_font().has_regular_key(),
                    ry < self.cells@.len(),
                    rcolumns == self.cells@[ry as int]@.len(),
                    rx <= rcolumns,
                    old_grid == old(self).grid(),
                    rrow_base == pre_release_log + grid_release_commands(
                        old_grid.take(ry as int),
                    ),
                    Gpu::same_handles(&old(self).gpu(), &self.gpu),
                    self.gpu.wf(),
                    self.gpu.log() == rrow_base + row_release_commands(
                        old_grid[ry as int].take(rx as int),
                    ),
                decreases rcolumns - rx,
            {
                self.cells[ry][rx].release(&mut self.gpu);
                proof {
                    let cell = old_grid[ry as int][rx as int];
                    assert(self.cells@[ry as int]@[rx as int] == cell);
                    assert(old_grid[ry as int].take(rx as int + 1).drop_last() =~= old_grid[
                        ry as int
                    ].take(rx as int));
                    assert(old_grid[ry as int].take(rx as int + 1).last() == cell);
                    assert(self.gpu.log() =~= rrow_base + row_release_commands(
                        old_grid[ry as int].take(rx as int + 1),
                    ));
                }
                rx = rx + 1;
            }
            proof {
                assert(old_grid[ry as int].take(rcolumns as int) =~= old_grid[ry as int]);
                assert(old_grid.take(ry as int + 1).drop_last() =~= old_grid.take(ry as int));
                assert(old_grid.take(ry as int + 1).last() == old_grid[ry as int]);
                assert(self.gpu.log() =~= pre_release_log + grid_release_commands(
                    old_grid.take(ry as int + 1),
                ));
            }
            ry = ry + 1;
        }
        let ghost base_log = self.gpu.log();
        let ghost vao0 = self.gpu.next_vao();
        let ghost buf0 = self.gpu.next_buffer();
        proof {
            assert(old_grid.take(self.cells@.len() as int) =~= old_grid);
            assert(base_log =~= pre_release_log + grid_release_commands(old(self).grid()));
        }
        let mut cells: Vec<Vec<Cell>> = Vec::new();
        let mut y: usize = 0;
        while y < lines
            invariant
                1 <= lines <= u32::MAX,
                1 <= columns <= u32::MAX,
                y <= lines,
                vao0 + lines * columns <= u64::MAX,
                buf0 + 2 * (lines * columns) <= u64::MAX,
                cells@.len() == y,
                forall|r: int| 0 <= r < y ==> (#[trigger] views_of(cells@)[r]).len() == columns,
                forall|r: int, c: int|
                    0 <= r < y && 0 <= c < columns ==> (#[trigger] views_of(cells@)[r][c]).attr().row
                        == r && views_of(cells@)[r][c].attr().col == c && views_of(
                        cells@,
                    )[r][c].character() == '\0' && views_of(cells@)[r][c].texture() == 0,
                self.gpu.wf(),
                self.gpu.next_vao() == vao0 + y * columns,
                self.gpu.next_buffer() == buf0 + 2 * (y * columns),
                self.gpu.next_texture() == old(self).gpu().next_texture(),
                self.gpu.next_shader() == old(self).gpu().next_shader(),
                self.gpu.next_program() == old(self).gpu().next_program(),
                self.gpu.next_location() == old(self).gpu().next_location(),
                self.gpu.log() == base_log + grid_creation_commands(views_of(cells@)),
                base_log == old(self).gpu().log() + seq![
                    GpuCommand::UseProgram { program: old(self).spec_program() },
                    GpuCommand::UniformCellSize {
                        location: old(self).spec_u_cell_size(),
                        columns: columns as u32,
                        lines: lines as u32,
                    },
                ] + grid_release_commands(old(self).grid()),
                vao0 == old(self).gpu().next_vao(),
                buf0 == old(self).gpu().next_buffer(),
                self.program == old(self).spec_program(),
                self.u_cell_size == old(self).spec_u_cell_size(),
                self.u_window_size == old(self).spec_u_window_size(),
                self.u_draw_flag == old(self).spec_u_draw_flag(),
                self.dpr == old(self).spec_dpr(),
                1 <= self.dpr <= 10000,
                self.cell_width == old(self).spec_cell_width(),
                self.cell_height == old(self).spec_cell_height(),
                self.cell_descent == old(self).spec_cell_descent(),
                self.font_id == old(self).spec_font_id(),
                self.cell_width >= 1,
                self.cell_height >= 1,
                self.glyph_cache == old(self).cache(),
                self.glyph_cache.wf(self.gpu.next_texture()),
            decreases lines - y,
        {
            proof {
                assert((y + 1) * columns <= lines * columns) by (nonlinear_arith)
                    requires
                        0 <= y < lines,
                        columns >= 0,
                ;
            }
            let ghost row_base = self.gpu.log();
            let ghost cells_snap = cells@;
            let mut row: Vec<Cell> = Vec::new();
            let mut x: usize = 0;
            while x < columns
                invariant
                    1 <= lines <= u32::MAX,
                    1 <= columns <= u32::MAX,
                    y < lines,
                    x <= columns,
                    vao0 + lines * columns <= u64::MAX,
                    buf0 + 2 * (lines * columns) <= u64::MAX,
                    (y + 1) * columns <= lines * columns,
                    row@.len() == x,
                    forall|c: int|
                        0 <= c < x ==> (#[trigger] row@[c]).attr().row == y && row@[c].attr().col
                            == c && row@[c].character() == '\0' && row@[c].texture() == 0,
                    self.gpu.wf(),
                    self.gpu.next_vao() == vao0 + y * columns + x,
                    self.gpu.next_buffer() == buf0 + 2 * (y * columns + x),
                    self.gpu.next_texture() == old(self).gpu().next_texture(),
                    self.gpu.next_shader() == old(self).gpu().next_shader(),
                    self.gpu.next_program() == old(self).gpu().next_program(),
                    self.gpu.next_location() == old(self).gpu().next_location(),
                    self.gpu.log() == row_base + row_creation_commands(row@),
                    cells@ == cells_snap,
                    self.program == old(self).spec_program(),
                    self.u_cell_size == old(self).spec_u_cell_size(),
                    self.u_window_size == old(self).spec_u_window_size(),
                    self.u_draw_flag == old(self).spec_u_draw_flag(),
                    self.dpr == old(self).spec_dpr(),
                    1 <= self.dpr <= 10000,
                    self.cell_width == old(self).spec_cell_width(),
                    self.cell_height == old(self).spec_cell_height(),
                    self.cell_descent == old(self).spec_cell_descent(),
                    self.font_id == old(self).spec_font_id(),
                    self.cell_width >= 1,
                    self.cell_height >= 1,
                    self.glyph_cache == old(self).cache(),
                    self.glyph_cache.wf(self.gpu.next_texture()),
                decreases columns - x,
            {
                proof {
                    assert(y * columns + x < lines * columns) by (nonlinear_arith)
                        requires
                            0 <= y,
                            0 <= x < columns,
                            (y + 1) * columns <= lines * columns,
                    ;
                }
                let ghost prev_row = row@;
                let cell = Cell::new(y, x, &mut self.gpu);
                row.push(cell);
                proof {
                    assert(row@.drop_last() =~= prev_row);
                    assert(self.gpu.log() =~= row_base + row_creation_commands(row@));
                }
                x = x + 1;
            }
            cells.push(row);
            proof {
                assert((y + 1) * columns == y * columns + columns) by (nonlinear_arith);
                assert(views_of(cells@).drop_last() =~= views_of(cells_snap));
                assert(self.gpu.log() =~= base_log + grid_creation_commands(views_of(cells@)));
                assert forall|r: int| 0 <= r < cells@.len() implies (#[trigger] views_of(
                    cells@,
                )[r]).len() == columns by {
                    if r < cells_snap.len() {
                        assert(views_of(cells@)[r] =~= views_of(cells_snap)[r]);
                    } else {
                        assert(views_of(cells@)[r] =~= row@);
                    }
                }
                assert forall|r: int, c: int|
                    0 <= r < cells@.len() && 0 <= c < columns implies (#[trigger] views_of(
                    cells@,
                )[r][c]).attr().row == r && views_of(cells@)[r][c].attr().col == c && views_of(
                    cells@,
                )[r][c].character() == '\0' && views_of(cells@)[r][c].texture() == 0 by {
                    if r < cells_snap.len() {
                        assert(views_of(cells@)[r] =~= views_of(cells_snap)[r]);
                    }
                }
            }
            y = y + 1;
        }
        self.cells = cells;
        self.gpu.use_program(0);
        proof {
            assert(self.grid() =~= views_of(self.cells@));
            assert(self.gpu.log() =~= old(self).gpu().log() + seq![
                GpuCommand::UseProgram { program: old(self).spec_program() },
                GpuCommand::UniformCellSize {
                    location: old(self).spec_u_cell_size(),
                    columns: columns as u32,
                    lines: lines as u32,
                },
            ] + grid_release_commands(old(self).grid()) + grid_creation_commands(self.grid())
                + seq![GpuCommand::UseProgram { program: 0u64 }]);
        }
    }

    /// Display a character at a grid position: resolve its glyph through
    /// the cache — rasterizing and uploading on first use — and push it
    /// into the cell's instance attributes.
    ///
    /// Out-of-range coordinates are ignored outright, mutating nothing:
    /// such writes arise from expected races between resize notifications
    /// and in-flight content updates.
    pub fn set_text(&mut self, row: usize, col: usize, ch: char)
        requires
            old(self).wf(),
            old(self).gpu().next_texture() < u64::MAX,
        ensures
            final(self).wf(),
            row >= old(self).lines() || col >= old(self).columns() ==> *final(self) == *old(self),
            row < old(self).lines() && col < old(self).columns() ==> {
                let code = old(self).glyph_key_for(ch).code();
                let glyph = final(self).cache()@[code];
                let attr = final(self).grid()[row as int][col as int].attr();
                &&& final(self).lines() == old(self).lines()
                &&& final(self).columns() == old(self).columns()
                &&& TextShader::same_config(old(self), final(self))
                &&& final(self).char_at(row as int, col as int) == ch
                &&& forall|r: int, c: int|
                    0 <= r < old(self).lines() && 0 <= c < old(self).columns() && !(r == row && c
                        == col) ==> #[trigger] final(self).grid()[r][c] == old(self).grid()[r][c]
                &&& final(self).cache()@.contains_key(code)
                &&& final(self).cache().spec_font().description() == old(
                    self,
                ).cache().spec_font().description()
                &&& final(self).cache().spec_font().point_size() == old(
                    self,
                ).cache().spec_font().point_size()
                &&& final(self).cache().spec_font().spec_raster_size() == old(
                    self,
                ).cache().spec_font().spec_raster_size()
                &&& final(self).grid()[row as int][col as int].texture() == glyph.texture
                &&& attr.row == row && attr.col == col
                &&& attr.uv_width == glyph.width * old(self).spec_dpr()
                &&& attr.uv_height == glyph.height * old(self).spec_dpr()
                &&& attr.uv_offset_x == glyph.left * old(self).spec_dpr()
                &&& attr.uv_offset_y == (glyph.top + old(self).spec_cell_descent()) * old(
                    self,
                ).spec_dpr()
                &&& attr.baseline == old(self).spec_cell_descent() * old(self).spec_dpr()
                &&& old(self).cache()@.contains_key(code) ==> final(self).cache()@ == old(
                    self,
                ).cache()@ && final(self).gpu() == old(self).gpu()
                &&& !old(self).cache()@.contains_key(code) ==> final(self).cache()@ == old(
                    self,
                ).cache()@.insert(code, glyph)
                &&& final(self).gpu().next_shader() == old(self).gpu().next_shader()
                &&& final(self).gpu().next_program() == old(self).gpu().next_program()
                &&& final(self).gpu().next_vao() == old(self).gpu().next_vao()
                &&& final(self).gpu().next_buffer() == old(self).gpu().next_buffer()
                &&& final(self).gpu().next_location() == old(self).gpu().next_location()
                &&& old(self).gpu().next_texture() <= final(self).gpu().next_texture() <= old(
                    self,
                ).gpu().next_texture() + 1
                &&& final(self).gpu().log().len() <= old(self).gpu().log().len() + 1
                &&& final(self).gpu().log().take(old(self).gpu().log().len() as int) == old(
                    self,
                ).gpu().log()
            },
    {
        if row >= self.cells.len() {
            return ;
        }
        proof {
            assert((#[trigger] old(self).grid()[row as int]).len() == old(self).columns());
        }
        if col >= self.cells[row].len() {
            return ;
        }
        let dpr: u32 = self.dpr;
        let descent: i32 = self.cell_descent;
        let font_id: u32 = self.font_id;
        let size: u32 = self.glyph_cache.font_size();
        let key = GlyphKey { font: font_id, character: ch, size };
        let glyph: Glyph = self.glyph_cache.get(key, &mut self.gpu);
        let line: &mut Vec<Cell> = &mut self.cells[row];
        let cell: &mut Cell = &mut line[col];
        cell.set_text(ch, &glyph, dpr, descent);
        proof {
            assert(self.cells@.len() == old(self).cells@.len());
            assert(self.cells@[row as int]@.len() == old(self).cells@[row as int]@.len());
            assert forall|r: int|
                0 <= r < self.grid().len() implies (#[trigger] self.grid()[r]).len() == old(
                self,
            ).columns() by {
                assert(self.grid()[r] == self.cells@[r]@);
                assert(old(self).grid()[r] == old(self).cells@[r]@);
                if r != row {
                    assert(self.cells@[r] == old(self).cells@[r]);
                }
                assert(old(self).grid()[r].len() == old(self).columns());
            }
            assert(self.gpu.log().take(old(self).gpu().log().len() as int) =~= old(
                self,
            ).gpu().log());
            assert forall|r: int, c: int|
                0 <= r < self.lines() && 0 <= c < self.columns() implies (#[trigger] self.grid()[r][c]).attr().row
                == r && self.grid()[r][c].attr().col == c by {
                if r != row {
                    assert(self.grid()[r] =~= old(self).grid()[r]);
                    assert(old(self).grid()[r][c].attr().row == r);
                } else if c != col {
                    assert(self.grid()[r][c] == old(self).grid()[r][c]);
                    assert(old(self).grid()[r][c].attr().row == r);
                } else {
                    assert(old(self).grid()[r][c].attr().row == r);
                }
            }
        }
    }

    /// How many columns a window of the given pixel width reflows to.
    pub open spec fn reflow_columns(&self, width: u32) -> int {
        width as int / self.spec_cell_width() as int
    }

    /// How many lines a window of the given pixel height reflows to.
    pub open spec fn reflow_lines(&self, height: u32) -> int {
        height as int / self.spec_cell_height() as int
    }

    /// Reflow the grid to a window's pixel size: update the viewport and
    /// the window size uniform, recompute the shape as the floor of window
    /// pixels over cell pixels in each direction, and reshape the grid to
    /// it. A window resize always reflows the shape; it never scales cell
    /// content.
    pub fn resize(&mut self, width: u32, height: u32)
        requires
            old(self).wf(),
            old(self).gpu().next_vao() + old(self).reflow_lines(height) * old(
                self,
            ).reflow_columns(width) <= u64::MAX,
            old(self).gpu().next_buffer() + 2 * (old(self).reflow_lines(height) * old(
                self,
            ).reflow_columns(width)) <= u64::MAX,
        ensures
            final(self).wf(),
            TextShader::same_config(old(self), final(self)),
            final(self).cache() == old(self).cache(),
            final(self).gpu().next_texture() == old(self).gpu().next_texture(),
            final(self).gpu().next_shader() == old(self).gpu().next_shader(),
            final(self).gpu().next_program() == old(self).gpu().next_program(),
            final(self).gpu().next_location() == old(self).gpu().next_location(),
            old(self).reflow_lines(height) >= 1 && old(self).reflow_columns(width) >= 1 ==> {
                &&& final(self).lines() == old(self).reflow_lines(height)
                &&& final(self).columns() == old(self).reflow_columns(width)
                &&& forall|r: int, c: int|
                    0 <= r < final(self).lines() && 0 <= c < final(self).columns() ==> (
                    #[trigger] final(self).grid()[r][c]).character() == '\0'
                        && final(self).grid()[r][c].texture() == 0
                &&& final(self).gpu().log() == old(self).gpu().log() + seq![
                    GpuCommand::Viewport { width, height },
                    GpuCommand::UniformWindowSize {
                        location: old(self).spec_u_window_size(),
                        width,
                        height,
                    },
                    GpuCommand::UseProgram { program: old(self).spec_program() },
                    GpuCommand::UniformCellSize {
                        location: old(self).spec_u_cell_size(),
                        columns: old(self).reflow_columns(width) as u32,
                        lines: old(self).reflow_lines(height) as u32,
                    },
                ] + grid_release_commands(old(self).grid()) + grid_creation_commands(
                    final(self).grid(),
                ) + seq![GpuCommand::UseProgram { program: 0u64 }]
            },
            old(self).reflow_lines(height) == 0 || old(self).reflow_columns(width) == 0 ==> {
                &&& final(self).grid() == old(self).grid()
                &&& final(self).cache() == old(self).cache()
                &&& final(self).gpu().log() == old(self).gpu().log() + seq![
                    GpuCommand::Viewport { width, height },
                    GpuCommand::UniformWindowSize {
                        location: old(self).spec_u_window_size(),
                        width,
                        height,
                    },
                ]
            },
    {
        let window_size_location: i64 = self.u_window_size;
        self.gpu.viewport(width, height);
        self.gpu.uniform_window_size(window_size_location, width, height);
        let columns: usize = (width / self.cell_width) as usize;
        let lines: usize = (height / self.cell_height) as usize;
        self.set_size(lines, columns);
        proof {
            if lines >= 1 && columns >= 1 {
                assert(self.gpu().log() =~= old(self).gpu().log() + seq![
                    GpuCommand::Viewport { width, height },
                    GpuCommand::UniformWindowSize {
                        location: old(self).spec_u_window_size(),
                        width,
                        height,
                    },
                    GpuCommand::UseProgram { program: old(self).spec_program() },
                    GpuCommand::UniformCellSize {
                        location: old(self).spec_u_cell_size(),
                        columns: columns as u32,
                        lines: lines as u32,
                    },
                ] + grid_release_commands(old(self).grid()) + grid_creation_commands(self.grid())
                    + seq![GpuCommand::UseProgram { program: 0u64 }]);
            } else {
                assert(self.gpu().log() =~= old(self).gpu().log() + seq![
                    GpuCommand::Viewport { width, height },
                    GpuCommand::UniformWindowSize {
                        location: old(self).spec_u_window_size(),
                        width,
                        height,
                    },
                ]);
            }
        }
    }

    /// Draw one frame: clear the color and depth buffers, activate the
    /// program, then walk the grid in row-major order issuing all four
    /// draw passes for each cell, the shared pass uniform set before every
    /// pass — a cell's passes are complete before the next cell is
    /// touched.
    pub fn draw_frame(&mut self)
        requires
            old(self).wf(),
        ensures
            final(self).wf(),
            TextShader::same_config(old(self), final(self)),
            final(self).grid() == old(self).grid(),
            final(self).cache() == old(self).cache(),
            Gpu::same_handles(&old(self).gpu(), &final(self).gpu()),
            final(self).gpu().log() == old(self).gpu().log() + seq![
                GpuCommand::Clear,
                GpuCommand::UseProgram { program: old(self).spec_program() },
            ] + grid_frame_commands(old(self).grid(), old(self).spec_u_draw_flag()),
    {
        let program: u64 = self.program;
        let flag_location: i64 = self.u_draw_flag;
        self.gpu.clear();
        self.gpu.use_program(program);
        let ghost base_log = self.gpu.log();
        let ghost grid0 = self.grid();
        let mut y: usize = 0;
        while y < self.cells.len()
            invariant
                self.cells == old(self).cells,
                self.program == old(self).spec_program(),
                self.u_cell_size == old(self).spec_u_cell_size(),
                self.u_window_size == old(self).spec_u_window_size(),
                self.u_draw_flag == old(self).spec_u_draw_flag(),
                self.dpr == old(self).spec_dpr(),
                1 <= self.dpr <= 10000,
                self.cell_width == old(self).spec_cell_width(),
                self.cell_height == old(self).spec_cell_height(),
                self.cell_descent == old(self).spec_cell_descent(),
                self.font_id == old(self).spec_font_id(),
                self.cell_width >= 1,
                self.cell_height >= 1,
                self.glyph_cache == old(self).cache(),
                self.glyph_cache.wf(self.gpu.next_texture()),
                flag_location == old(self).spec_u_draw_flag(),
                program == old(self).spec_program(),
                y <= self.cells@.len(),
                grid0 == old(self).grid(),
                old(self).lines() <= u32::MAX,
                old(self).columns() <= u32::MAX,
                forall|r: int|
                    0 <= r < grid0.len() ==> (#[trigger] grid0[r]).len() == old(self).columns(),
                base_log == old(self).gpu().log().push(GpuCommand::Clear).push(
                    GpuCommand::UseProgram { program: old(self).spec_program() },
                ),
                Gpu::same_handles(&old(self).gpu(), &self.gpu),
                self.gpu.wf(),
                self.gpu.log() == base_log + grid_frame_commands(
                    grid0.take(y as int),
                    flag_location,
                ),
            decreases self.cells@.len() - y,
        {
            let ghost row_base = self.gpu.log();
            let columns: usize = self.cells[y].len();
            let mut x: usize = 0;
            while x < columns
                invariant
                    self.cells == old(self).cells,
                    self.program == old(self).spec_program(),
                    self.u_cell_size == old(self).spec_u_cell_size(),
                    self.u_window_size == old(self).spec_u_window_size(),
                    self.u_draw_flag == old(self).spec_u_draw_flag(),
                    self.dpr == old(self).spec_dpr(),
                    1 <= self.dpr <= 10000,
                    self.cell_width == old(self).spec_cell_width(),
                    self.cell_height == old(self).spec_cell_height(),
                    self.cell_descent == old(self).spec_cell_descent(),
                    self.font_id == old(self).spec_font_id(),
                    self.cell_width >= 1,
                    self.cell_height >= 1,
                    self.glyph_cache == old(self).cache(),
                    self.glyph_cache.wf(self.gpu.next_texture()),
                    flag_location == old(self).spec_u_draw_flag(),
                    y < self.cells@.len(),
                    columns == self.cells@[y as int]@.len(),
                    x <= columns,
                    grid0 == old(self).grid(),
                    row_base == base_log + grid_frame_commands(
                        grid0.take(y as int),
                        flag_location,
                    ),
                    Gpu::same_handles(&old(self).gpu(), &self.gpu),
                    self.gpu.wf(),
                    self.gpu.log() == row_base + row_frame_commands(
                        grid0[y as int].take(x as int),
                        flag_location,
                    ),
                decreases columns - x,
            {
                let ghost cell_base = self.gpu.log();
                self.gpu.uniform_int(flag_location, 0);
                self.cells[y][x].draw(0, &mut self.gpu);
                self.gpu.uniform_int(flag_location, 1);
                self.cells[y][x].draw(1, &mut self.gpu);
                self.gpu.uniform_int(flag_location, 2);
                self.cells[y][x].draw(2, &mut self.gpu);
                self.gpu.uniform_int(flag_location, 3);
                self.cells[y][x].draw(3, &mut self.gpu);
                proof {
                    let cell = grid0[y as int][x as int];
                    assert(self.cells@[y as int]@[x as int] == cell);
                    assert(self.gpu.log() =~= cell_base + cell_frame_commands(
                        cell,
                        flag_location,
                    ));
                    assert(grid0[y as int].take(x as int + 1).drop_last() =~= grid0[y as int].take(
                        x as int,
                    ));
                    assert(grid0[y as int].take(x as int + 1).last() == cell);
                    assert(self.gpu.log() =~= row_base + row_frame_commands(
                        grid0[y as int].take(x as int + 1),
                        flag_location,
                    ));
                }
                x = x + 1;
            }
            proof {
                assert(grid0[y as int].take(columns as int) =~= grid0[y as int]);
                assert(grid0.take(y as int + 1).drop_last() =~= grid0.take(y as int));
                assert(grid0.take(y as int + 1).last() == grid0[y as int]);
                assert(self.gpu.log() =~= base_log + grid_frame_commands(
                    grid0.take(y as int + 1),
                    flag_location,
                ));
            }
            y = y + 1;
        }
        proof {
            assert(grid0.take(self.cells@.len() as int) =~= grid0);
            assert(self.gpu.log() =~= old(self).gpu().log() + seq![
                GpuCommand::Clear,
                GpuCommand::UseProgram { program: old(self).spec_program() },
            ] + grid_frame_commands(grid0, flag_location));
        }
    }

    /// Write one line of text into a row, left to right from column zero:
    /// text beyond the last column is dropped, and a row beyond the grid
    /// is ignored outright.
    pub fn set_line(&mut self, row: usize, text: &Vec<char>)
        requires
            old(self).wf(),
            old(self).gpu().next_texture() + text@.len() <= u64::MAX,
        ensures
            final(self).wf(),
            row >= old(self).lines() ==> *final(self) == *old(self),
            row < old(self).lines() ==> {
                &&& final(self).lines() == old(self).lines()
                &&& final(self).columns() == old(self).columns()
                &&& TextShader::same_config(old(self), final(self))
                &&& forall|c: int|
                    0 <= c < text@.len() && c < old(self).columns() ==> final(self).char_at(
                        row as int,
                        c,
                    ) == text@[c]
                &&& forall|r: int, c: int|
                    0 <= r < old(self).lines() && 0 <= c < old(self).columns() && (r != row || c
                        >= text@.len()) ==> #[trigger] final(self).grid()[r][c] == old(
                        self,
                    ).grid()[r][c]
            },
    {
        if row >= self.cells.len() {
            return ;
        }
        let mut x: usize = 0;
        while x < text.len()
            invariant
                row < old(self).lines(),
                x <= text@.len(),
                self.wf(),
                self.lines() == old(self).lines(),
                self.columns() == old(self).columns(),
                TextShader::same_config(old(self), self),
                old(self).gpu().next_texture() + text@.len() <= u64::MAX,
                self.gpu().next_texture() <= old(self).gpu().next_texture() + x,
                self.cache().spec_font().point_size() == old(self).cache().spec_font().point_size(),
                forall|c: int|
                    0 <= c < x && c < self.columns() ==> self.char_at(row as int, c) == text@[c],
                forall|r: int, c: int|
                    0 <= r < self.lines() && 0 <= c < self.columns() && (r != row || c >= x)
                        ==> #[trigger] self.grid()[r][c] == old(self).grid()[r][c],
            decreases text@.len() - x,
        {
            let ghost before = *self;
            let ch: char = text[x];
            self.set_text(row, x, ch);
            proof {
                assert forall|r: int, c: int|
                    0 <= r < self.lines() && 0 <= c < self.columns() && (r != row || c >= x + 1)
                        implies #[trigger] self.grid()[r][c] == old(self).grid()[r][c] by {
                    assert(self.grid()[r][c] == before.grid()[r][c]);
                    assert(before.grid()[r][c] == old(self).grid()[r][c]);
                }
            }
            x = x + 1;
        }
    }

    /// Decide construction's fate from the host's build reports, after
    /// the host has executed the setup commands: compile and link
    /// failures are terminal for the renderer — the host must abandon it.
    /// A compile failure carries its stage's source path and the
    /// compiler's log; a link failure carries the linker's log; a
    /// vertex-stage failure is reported before a fragment-stage one,
    /// which is reported before a link failure.
    pub fn check_build(
        vertex: StageReport,
        fragment: StageReport,
        program: StageReport,
        vertex_path: String,
        fragment_path: String,
    ) -> (result: Result<(), CreationError>)
        ensures
            result is Ok <==> (vertex.success && fragment.success && program.success),
            !vertex.success ==> ({
                &&& result matches Err(CreationError::Compile(path, log))
                &&& path == vertex_path
                &&& log == vertex.log
            }),
            vertex.success && !fragment.success ==> ({
                &&& result matches Err(CreationError::Compile(path, log))
                &&& path == fragment_path
                &&& log == fragment.log
            }),
            vertex.success && fragment.success && !program.success ==> ({
                &&& result matches Err(CreationError::Link(log))
                &&& log == program.log
            }),
    {
        if !vertex.success {
            return Err(CreationError::Compile(vertex_path, vertex.log));
        }
        if !fragment.success {
            return Err(CreationError::Compile(fragment_path, fragment.log));
        }
        if !program.success {
            return Err(CreationError::Link(program.log));
        }
        Ok(())
    }

    /// The GPU's next vertex-array, buffer and texture handles, for
    /// hosts that check a call's allocation headroom before making it.
    pub fn gpu_counters(&self) -> (counters: (u64, u64, u64))
        ensures
            counters.0 == self.gpu().next_vao(),
            counters.1 == self.gpu().next_buffer(),
            counters.2 == self.gpu().next_texture(),
    {
        self.gpu.counters()
    }

    /// Whether the cache already holds the glyph a character resolves to.
    pub fn has_cached_glyph(&self, ch: char) -> (cached: bool)
        ensures
            cached == self.cache()@.contains_key(self.glyph_key_for(ch).code()),
    {
        let size: u32 = self.glyph_cache.font_size();
        let key = GlyphKey { font: self.font_id, character: ch, size };
        self.glyph_cache.contains(key)
    }

    /// The grid's shape.
    pub fn grid_size(&self) -> (size: GridSize)
        ensures
            size.lines == self.lines(),
            size.columns == self.columns(),
    {
        if self.cells.len() == 0 {
            GridSize { lines: 0, columns: 0 }
        } else {
            GridSize { lines: self.cells.len(), columns: self.cells[0].len() }
        }
    }

    /// The character displayed at a position, when it is on the grid.
    pub fn character_at(&self, row: usize, col: usize) -> (ch: Option<char>)
        requires
            self.wf(),
        ensures
            row < self.lines() && col < self.columns() ==> ch == Some(
                self.char_at(row as int, col as int),
            ),
            row >= self.lines() || col >= self.columns() ==> ch is None,
    {
        if row < self.cells.len() {
            let line: &Vec<Cell> = &self.cells[row];
            if col < line.len() {
                return Some(line[col].displayed_character());
            }
        }
        None
    }

    /// Hand the commands recorded so far to the host, leaving the log
    /// empty; the renderer's state is otherwise untouched.
    pub fn take_commands(&mut self) -> (commands: Vec<GpuCommand>)
        requires
            old(self).wf(),
        ensures
            final(self).wf(),
            commands@ == old(self).gpu().log(),
            final(self).gpu().log() == Seq::<GpuCommand>::empty(),
            Gpu::same_handles(&old(self).gpu(), &final(self).gpu()),
            TextShader::same_config(old(self), final(self)),
            final(self).grid() == old(self).grid(),
            final(self).cache() == old(self).cache(),
    {
        self.gpu.take_commands()
    }
}

} // verus!
