//! Renderer-level behavior: grid shape, bounds, reflow, draw order, and
//! construction.

use peppa::cell::Cell;
use peppa::font::{Font, FontMetrics};
use peppa::glyph::Glyph;
use peppa::gpu::{DrawKind, GpuCommand, ShaderKind, UniformName};
use peppa::setup_opengl;
use peppa::shader::{CreationError, GridSize, StageReport, TextShader};

fn test_font() -> Font {
    let mut font = Font::new("Peppa Test Sans", 14, crossfont::Size::new(14.0))
        .expect("the platform rasterizer should start");
    font.compute_font_keys().expect("some regular font should resolve");
    font
}

/// A renderer around a 10 x 8 pixel cell at device pixel ratio 1.0.
fn test_shader() -> TextShader {
    let gpu = setup_opengl();
    let metrics = FontMetrics { average_advance: 10, line_height: 8, descent: -2 };
    TextShader::with_loaded_font(
        gpu,
        100,
        test_font(),
        &metrics,
        String::from("vertex source"),
        String::from("fragment source"),
    )
}

#[test]
fn construction_compiles_links_and_resolves_uniforms() {
    let mut shader = test_shader();
    let commands = shader.take_commands();
    assert_eq!(commands.len(), 7);
    assert!(matches!(&commands[0], GpuCommand::CreateShader { kind: ShaderKind::Vertex, .. }));
    assert!(matches!(&commands[1], GpuCommand::CreateShader { kind: ShaderKind::Fragment, .. }));
    assert!(matches!(&commands[2], GpuCommand::CreateProgram { .. }));
    assert!(matches!(&commands[3], GpuCommand::UseProgram { .. }));
    assert!(matches!(
        &commands[4],
        GpuCommand::UniformLocation { name: UniformName::CellSize, .. }
    ));
    assert!(matches!(
        &commands[5],
        GpuCommand::UniformLocation { name: UniformName::WindowSize, .. }
    ));
    assert!(matches!(
        &commands[6],
        GpuCommand::UniformLocation { name: UniformName::DrawFlag, .. }
    ));
    assert_eq!(shader.grid_size(), GridSize { lines: 0, columns: 0 });
}

#[test]
fn cell_size_is_clamped_to_at_least_one_pixel() {
    let gpu = setup_opengl();
    let metrics = FontMetrics { average_advance: 0, line_height: -3, descent: 0 };
    let mut shader = TextShader::with_loaded_font(
        gpu,
        100,
        test_font(),
        &metrics,
        String::from("v"),
        String::from("f"),
    );
    shader.resize(5, 4);
    assert_eq!(shader.grid_size(), GridSize { lines: 4, columns: 5 });
}

#[test]
fn set_size_allocates_the_exact_grid() {
    let mut shader = test_shader();
    shader.set_size(3, 5);
    assert_eq!(shader.grid_size(), GridSize { lines: 3, columns: 5 });
    let mut row: usize = 0;
    while row < 3 {
        let mut col: usize = 0;
        while col < 5 {
            assert_eq!(shader.character_at(row, col), Some('\0'));
            col += 1;
        }
        row += 1;
    }
    assert_eq!(shader.character_at(3, 0), None);
    assert_eq!(shader.character_at(0, 5), None);
}

#[test]
fn zero_sized_requests_keep_the_prior_grid() {
    let mut shader = test_shader();
    shader.set_size(2, 2);
    shader.set_text(0, 0, 'Q');
    shader.set_size(0, 7);
    shader.set_size(4, 0);
    assert_eq!(shader.grid_size(), GridSize { lines: 2, columns: 2 });
    assert_eq!(shader.character_at(0, 0), Some('Q'));
}

#[test]
fn set_size_pushes_the_cell_size_uniform_and_rebuilds_cells() {
    let mut shader = test_shader();
    shader.take_commands();
    shader.set_size(2, 4);
    let commands = shader.take_commands();
    assert!(matches!(&commands[0], GpuCommand::UseProgram { .. }));
    assert!(matches!(&commands[1], GpuCommand::UniformCellSize { columns: 4, lines: 2, .. }));
    // eight cells, seven creation commands each, then the program is released
    assert_eq!(commands.len(), 2 + 8 * 7 + 1);
    assert!(matches!(&commands[commands.len() - 1], GpuCommand::UseProgram { program: 0 }));
}

#[test]
fn reallocation_releases_the_old_cells_exactly_once() {
    let mut shader = test_shader();
    shader.set_size(1, 1);
    shader.take_commands();
    shader.set_size(1, 2);
    let commands = shader.take_commands();
    // the program and the cell size uniform, three deletions for the one
    // old cell, two new cells of seven commands each, and the program
    // released again
    assert_eq!(commands.len(), 2 + 3 + 2 * 7 + 1);
    assert!(matches!(&commands[2], GpuCommand::DeleteVertexArray { .. }));
    assert!(matches!(&commands[3], GpuCommand::DeleteBuffer { .. }));
    assert!(matches!(&commands[4], GpuCommand::DeleteBuffer { .. }));
    assert!(matches!(&commands[5], GpuCommand::CreateVertexArray { .. }));
}

#[test]
fn out_of_range_set_text_mutates_nothing() {
    let mut shader = test_shader();
    shader.set_size(2, 3);
    shader.set_text(0, 0, 'x');
    shader.take_commands();

    shader.set_text(2, 0, 'y');
    shader.set_text(0, 3, 'z');
    shader.set_text(100, 100, 'w');

    assert!(shader.take_commands().is_empty());
    assert_eq!(shader.grid_size(), GridSize { lines: 2, columns: 3 });
    assert_eq!(shader.character_at(0, 0), Some('x'));
    let mut row: usize = 0;
    while row < 2 {
        let mut col: usize = 0;
        while col < 3 {
            if !(row == 0 && col == 0) {
                assert_eq!(shader.character_at(row, col), Some('\0'));
            }
            col += 1;
        }
        row += 1;
    }
}

#[test]
fn first_use_of_a_character_uploads_its_glyph() {
    let mut shader = test_shader();
    shader.set_size(1, 1);
    shader.take_commands();
    shader.set_text(0, 0, 'A');
    let commands = shader.take_commands();
    assert_eq!(commands.len(), 1);
    assert!(matches!(&commands[0], GpuCommand::CreateTexture { .. }));
}

#[test]
fn resize_reflows_by_floor_division() {
    let mut shader = test_shader();
    shader.resize(800, 600);
    assert_eq!(shader.grid_size(), GridSize { lines: 75, columns: 80 });
}

#[test]
fn resize_floors_away_partial_cells() {
    let mut shader = test_shader();
    shader.resize(109, 87);
    assert_eq!(shader.grid_size(), GridSize { lines: 10, columns: 10 });
}

#[test]
fn overwriting_a_cell_keeps_the_latest_character_and_both_cache_entries() {
    let mut shader = test_shader();
    shader.set_size(1, 1);
    shader.set_text(0, 0, 'A');
    shader.set_text(0, 0, 'B');
    assert_eq!(shader.character_at(0, 0), Some('B'));
    assert!(shader.has_cached_glyph('A'));
    assert!(shader.has_cached_glyph('B'));
}

#[test]
fn set_line_writes_up_to_the_last_column() {
    let mut shader = test_shader();
    shader.set_size(2, 3);
    let text: Vec<char> = vec!['h', 'i', '!', '?'];
    shader.set_line(0, &text);
    assert_eq!(shader.character_at(0, 0), Some('h'));
    assert_eq!(shader.character_at(0, 1), Some('i'));
    assert_eq!(shader.character_at(0, 2), Some('!'));
    assert_eq!(shader.character_at(1, 0), Some('\0'));

    shader.set_line(5, &text);
    assert_eq!(shader.character_at(0, 0), Some('h'));
    assert_eq!(shader.grid_size(), GridSize { lines: 2, columns: 3 });
}

#[test]
fn a_frame_draws_all_four_passes_per_cell_in_order() {
    let mut shader = test_shader();
    shader.set_size(1, 2);
    shader.take_commands();
    shader.draw_frame();
    let commands = shader.take_commands();

    // Clear, UseProgram, then per cell: (pass uniform, attribute upload,
    // draw) for each of the four passes.
    assert_eq!(commands.len(), 2 + 2 * 12);
    assert!(matches!(&commands[0], GpuCommand::Clear));
    assert!(matches!(&commands[1], GpuCommand::UseProgram { .. }));
    let mut cell_index: usize = 0;
    while cell_index < 2 {
        let base = 2 + cell_index * 12;
        let mut pass: usize = 0;
        while pass < 4 {
            let at = base + pass * 3;
            match &commands[at] {
                GpuCommand::UniformInt { value, .. } => assert_eq!(*value, pass as i32),
                other => panic!("expected a pass uniform, found {:?}", other),
            }
            assert!(matches!(&commands[at + 1], GpuCommand::UploadAttr { .. }));
            match &commands[at + 2] {
                GpuCommand::Draw { kind, index_count, .. } => {
                    if pass == 0 {
                        assert!(matches!(kind, DrawKind::FilledTriangles));
                        assert_eq!(*index_count, 6);
                    } else {
                        assert!(matches!(kind, DrawKind::OutlineLoop));
                        assert_eq!(*index_count, 4);
                    }
                },
                other => panic!("expected a draw call, found {:?}", other),
            }
            pass += 1;
        }
        cell_index += 1;
    }
}

#[test]
fn instance_attributes_scale_by_the_device_pixel_ratio() {
    let mut gpu = setup_opengl();
    let mut cell = Cell::new(1, 2, &mut gpu);
    let glyph = Glyph { texture: 9, top: 6, left: 3, width: 10, height: 12, colored: false };
    cell.set_text('W', &glyph, 150, -4);
    assert_eq!(cell.displayed_character(), 'W');
    assert_eq!(cell.glyph_texture(), 9);

    gpu.take_commands();
    cell.draw(0, &mut gpu);
    let commands = gpu.take_commands();
    match &commands[0] {
        GpuCommand::UploadAttr { attr, .. } => {
            assert_eq!(attr.row, 1);
            assert_eq!(attr.col, 2);
            assert_eq!(attr.uv_width, 1500);
            assert_eq!(attr.uv_height, 1800);
            assert_eq!(attr.uv_offset_x, 450);
            assert_eq!(attr.uv_offset_y, 300);
            assert_eq!(attr.baseline, -600);
        },
        other => panic!("expected an attribute upload, found {:?}", other),
    }
    assert!(matches!(
        &commands[1],
        GpuCommand::Draw { texture: 9, kind: DrawKind::FilledTriangles, index_count: 6, .. }
    ));
}

#[test]
fn build_failures_are_terminal_with_the_owed_variant() {
    let ok = || StageReport { success: true, log: String::new() };
    let broken = || StageReport { success: false, log: String::from("syntax error") };
    let paths = || (String::from("v path"), String::from("f path"));

    let (v, f) = paths();
    assert!(TextShader::check_build(ok(), ok(), ok(), v, f).is_ok());

    let (v, f) = paths();
    match TextShader::check_build(broken(), ok(), ok(), v, f) {
        Err(CreationError::Compile(path, log)) => {
            assert_eq!(path, "v path");
            assert_eq!(log, "syntax error");
        },
        other => panic!("a vertex compile failure must be terminal, found {:?}", other),
    }

    let (v, f) = paths();
    match TextShader::check_build(ok(), broken(), ok(), v, f) {
        Err(CreationError::Compile(path, log)) => {
            assert_eq!(path, "f path");
            assert_eq!(log, "syntax error");
        },
        other => panic!("a fragment compile failure must be terminal, found {:?}", other),
    }

    let (v, f) = paths();
    let failed_link = StageReport { success: false, log: String::from("link error") };
    match TextShader::check_build(ok(), ok(), failed_link, v, f) {
        Err(CreationError::Link(log)) => assert_eq!(log, "link error"),
        other => panic!("a link failure must be terminal, found {:?}", other),
    }
}

#[test]
fn construction_falls_back_before_failing_with_a_font_error() {
    let gpu = setup_opengl();
    let font = Font::new("No Such Family Anywhere 1977", 14, crossfont::Size::new(14.0))
        .expect("the platform rasterizer should start");
    let metrics = FontMetrics { average_advance: 10, line_height: 8, descent: -2 };
    match TextShader::new(gpu, 100, font, &metrics, String::from("v"), String::from("f")) {
        // some family — the fallback at the latest — could be loaded
        Ok(_) => {},
        // no family at all could be loaded: the failure must be a font error
        Err(CreationError::Font(_)) => {},
        Err(other) => panic!("construction may only fail with a font error, found {:?}", other),
    }
}
