//! Fonts and the text renderer, exercised against an instrumented counting
//! rasterizer and an instrumented fake graphics context.

use babo_engine::context::GraphicsContext;
use babo_engine::font_renderer::Character;
use babo_engine::font_renderer::Font;
use babo_engine::font_renderer::FontError;
use babo_engine::font_renderer::FontFace;
use babo_engine::font_renderer::FontRenderer;
use babo_engine::font_renderer::GlyphBitmap;
use babo_engine::font_renderer::advance_pen;
use babo_engine::font_renderer::glyph_quad;
use babo_engine::texture::TextureTrait;

/// A minimal fake driver for the text path: hands out handles, reports no
/// errors, knows the text shader's uniforms, and counts what matters.
struct FakeGl {
    next_handle: u32,
    draw_calls: usize,
    sub_data: Vec<Vec<i64>>,
    ortho_uploads: Vec<(i32, [i64; 6])>,
    known_uniforms: Vec<(String, i32)>,
    calls: Vec<String>,
    deleted_textures: Vec<u32>,
}

impl FakeGl {
    fn new() -> FakeGl {
        FakeGl {
            next_handle: 500,
            draw_calls: 0,
            sub_data: Vec::new(),
            ortho_uploads: Vec::new(),
            known_uniforms: vec![(String::from("textColor"), 11), (String::from("transform"), 12)],
            calls: Vec::new(),
            deleted_textures: Vec::new(),
        }
    }

    fn handle(&mut self) -> u32 {
        let h = self.next_handle;
        self.next_handle += 1;
        h
    }

    fn log(&mut self, name: &str) {
        self.calls.push(String::from(name));
    }
}

impl GraphicsContext for FakeGl {
    fn create_shader(&mut self, _kind: u32) -> u32 {
        self.handle()
    }
    fn shader_source(&mut self, _shader: u32, _source: &str) {}
    fn compile_shader(&mut self, _shader: u32) {}
    fn get_shader_iv(&mut self, _shader: u32, _pname: u32) -> i32 {
        1
    }
    fn get_shader_info_log(&mut self, _shader: u32, _max_len: i32) -> String {
        String::new()
    }
    fn create_program(&mut self) -> u32 {
        self.handle()
    }
    fn attach_shader(&mut self, _program: u32, _shader: u32) {}
    fn link_program(&mut self, _program: u32) {}
    fn detach_shader(&mut self, _program: u32, _shader: u32) {}
    fn get_program_iv(&mut self, _program: u32, _pname: u32) -> i32 {
        1
    }
    fn get_program_info_log(&mut self, _program: u32, _max_len: i32) -> String {
        String::new()
    }
    fn use_program(&mut self, _program: u32) {}
    fn get_uniform_location(&mut self, _program: u32, name: &str) -> i32 {
        for (known, loc) in &self.known_uniforms {
            if known == name {
                return *loc;
            }
        }
        -1
    }
    fn uniform_1f(&mut self, _location: i32, _v_bits: u32) {}
    fn uniform_1i(&mut self, _location: i32, _v: i32) {}
    fn uniform_3f(&mut self, _location: i32, _x: u32, _y: u32, _z: u32) {}
    fn uniform_4f(&mut self, _location: i32, _x: u32, _y: u32, _z: u32, _w: u32) {}
    fn uniform_matrix_4fv(&mut self, _location: i32, _transpose: bool, _value_bits: &[u32]) {}
    fn uniform_matrix_ortho(
        &mut self,
        location: i32,
        left: i64,
        right: i64,
        bottom: i64,
        top: i64,
        near: i64,
        far: i64,
    ) {
        self.ortho_uploads.push((location, [left, right, bottom, top, near, far]));
    }
    fn gen_vertex_array(&mut self) -> u32 {
        self.handle()
    }
    fn bind_vertex_array(&mut self, _vao: u32) {}
    fn gen_buffer(&mut self) -> u32 {
        self.handle()
    }
    fn bind_buffer(&mut self, _target: u32, _buffer: u32) {}
    fn buffer_data_px(&mut self, _target: u32, _data: &[i64], _usage: u32) {}
    fn buffer_data_uninit(&mut self, _target: u32, _float_count: usize, _usage: u32) {}
    fn buffer_sub_data_px(&mut self, _target: u32, _float_offset: usize, data: &[i64]) {
        self.sub_data.push(data.to_vec());
    }
    fn vertex_attrib_pointer(
        &mut self,
        _index: u32,
        _size: i32,
        _stride_floats: i32,
        _offset_floats: usize,
    ) {
    }
    fn enable_vertex_attrib_array(&mut self, _index: u32) {}
    fn gen_texture(&mut self) -> u32 {
        self.handle()
    }
    fn active_texture(&mut self, _unit: u32) {}
    fn bind_texture(&mut self, _target: u32, _texture: u32) {}
    fn tex_image_2d(
        &mut self,
        _target: u32,
        _internal_format: u32,
        _width: u32,
        _height: u32,
        _format: u32,
        _pixels: &[u8],
    ) {
        self.log("TexImage2D");
    }
    fn tex_parameter_i(&mut self, _target: u32, _pname: u32, _value: u32) {}
    fn generate_mipmap(&mut self, _target: u32) {}
    fn pixel_store_i(&mut self, _pname: u32, _value: i32) {
        self.log("PixelStorei");
    }
    fn enable(&mut self, _cap: u32) {}
    fn disable(&mut self, _cap: u32) {}
    fn blend_func(&mut self, _sfactor: u32, _dfactor: u32) {}
    fn draw_arrays(&mut self, _mode: u32, _first: i32, _count: i32) {
        self.draw_calls += 1;
    }
    fn delete_shader(&mut self, _shader: u32) {
        self.log("DeleteShader");
    }
    fn delete_program(&mut self, _program: u32) {
        self.log("DeleteProgram");
    }
    fn delete_buffer(&mut self, _buffer: u32) {
        self.log("DeleteBuffers");
    }
    fn delete_vertex_array(&mut self, _vao: u32) {
        self.log("DeleteVertexArrays");
    }
    fn delete_texture(&mut self, texture: u32) {
        self.deleted_textures.push(texture);
    }
    fn get_error(&mut self) -> u32 {
        0
    }
}

/// An instrumented counting rasterizer: records every rasterized code and
/// every pixel-size request, and renders fixed glyphs (a newline glyph with
/// zero advance and its own height, everything else 2x3 with a 10-pixel
/// advance).
struct CountingFace {
    accept_size: bool,
    rasterized: Vec<u32>,
    sizes: Vec<(u32, u32)>,
    fail_code: Option<u32>,
    oversized: bool,
}

impl CountingFace {
    fn new() -> CountingFace {
        CountingFace {
            accept_size: true,
            rasterized: Vec::new(),
            sizes: Vec::new(),
            fail_code: None,
            oversized: false,
        }
    }
}

impl FontFace for CountingFace {
    fn set_pixel_sizes(&mut self, width: u32, height: u32) -> bool {
        self.sizes.push((width, height));
        self.accept_size
    }

    fn render_glyph(&mut self, code: u32) -> Option<GlyphBitmap> {
        self.rasterized.push(code);
        if self.fail_code == Some(code) {
            return None;
        }
        if self.oversized {
            return Some(GlyphBitmap {
                width: 0x20000,
                rows: 1,
                left: 0,
                top: 0,
                advance: 0,
                buffer: Vec::new(),
            });
        }
        if code == u32::from('\n') {
            Some(GlyphBitmap { width: 0, rows: 4, left: 0, top: 0, advance: 0, buffer: Vec::new() })
        } else {
            Some(GlyphBitmap {
                width: 2,
                rows: 3,
                left: 1,
                top: 2,
                advance: 640,
                buffer: vec![0xFF; 6],
            })
        }
    }
}

#[test]
fn loading_a_glyph_twice_rasterizes_it_once() {
    let mut fake = FakeGl::new();
    let mut font = Font::from_face(CountingFace::new());
    let first = font.load_glyph(&mut fake, 'A').unwrap();
    let second = font.load_glyph(&mut fake, 'A').unwrap();
    assert_eq!(font.face.rasterized, vec![65]);
    assert_eq!(first, second);
    assert_eq!(first.bearing_x, second.bearing_x);
    assert_eq!(first.bearing_y, second.bearing_y);
    assert_eq!(first.advance, second.advance);
    assert_eq!(first.texture.id(), second.texture.id());
    let uploads = fake.calls.iter().filter(|c| *c == "TexImage2D").count();
    assert_eq!(uploads, 1);
}

#[test]
fn distinct_characters_are_rasterized_separately() {
    let mut fake = FakeGl::new();
    let mut font = Font::from_face(CountingFace::new());
    font.load_glyph(&mut fake, 'A').unwrap();
    font.load_glyph(&mut fake, 'B').unwrap();
    font.load_glyph(&mut fake, 'A').unwrap();
    assert_eq!(font.face.rasterized, vec![65, 66]);
    assert_eq!(font.glyph_count(), 2);
    assert!(font.has_glyph('A'));
    assert!(font.has_glyph('B'));
    assert!(!font.has_glyph('C'));
}

#[test]
fn glyph_metrics_come_from_the_bitmap() {
    let mut fake = FakeGl::new();
    let mut font = Font::from_face(CountingFace::new());
    let ch = font.load_glyph(&mut fake, 'g').unwrap();
    assert_eq!(ch.bearing_x, 1);
    assert_eq!(ch.bearing_y, 2);
    assert_eq!(ch.advance, 640);
    assert_eq!(ch.texture.width(), 2);
    assert_eq!(ch.texture.height(), 3);
}

#[test]
fn new_font_preloads_basic_ascii() {
    let mut fake = FakeGl::new();
    let font = Font::new(&mut fake, CountingFace::new(), 48).unwrap();
    assert_eq!(font.face.sizes, vec![(0, 48)]);
    assert_eq!(font.glyph_count(), 128);
    let mut expected: Vec<u32> = (0..128).collect();
    let mut seen = font.face.rasterized.clone();
    seen.sort();
    expected.sort();
    assert_eq!(seen, expected);
}

#[test]
fn rejected_pixel_size_fails_the_load() {
    let mut fake = FakeGl::new();
    let mut face = CountingFace::new();
    face.accept_size = false;
    match Font::new(&mut fake, face, 48) {
        Err(FontError::LoadError) => {}
        Err(other) => panic!("expected a load failure, got {:?}", other),
        Ok(_) => panic!("expected a load failure, got a font"),
    }
}

#[test]
fn one_failed_glyph_aborts_the_whole_load() {
    let mut fake = FakeGl::new();
    let mut face = CountingFace::new();
    face.fail_code = Some(65);
    match Font::new(&mut fake, face, 48) {
        Err(FontError::RasterError) => {}
        Err(other) => panic!("expected a raster failure, got {:?}", other),
        Ok(_) => panic!("expected a raster failure, got a font"),
    }
}

#[test]
fn oversized_bitmaps_are_rejected() {
    let mut fake = FakeGl::new();
    let mut face = CountingFace::new();
    face.oversized = true;
    let mut font = Font::from_face(face);
    match font.load_glyph(&mut fake, 'A') {
        Err(FontError::RasterError) => {}
        other => panic!("expected a raster failure, got {:?}", other),
    }
    assert_eq!(font.glyph_count(), 0);
}

#[test]
fn drawing_an_empty_string_does_no_glyph_work() {
    let mut fake = FakeGl::new();
    let mut renderer = FontRenderer::new(&mut fake).unwrap();
    let mut font = Font::from_face(CountingFace::new());
    renderer
        .draw(&mut fake, &mut font, "", 0, 0, 1, (0, 0, 0))
        .unwrap();
    assert_eq!(font.face.rasterized.len(), 0);
    assert_eq!(font.glyph_count(), 0);
    assert_eq!(fake.draw_calls, 0);
    assert_eq!(fake.sub_data.len(), 0);
}

#[test]
fn text_is_projected_through_the_fixed_screen() {
    let mut fake = FakeGl::new();
    let mut renderer = FontRenderer::new(&mut fake).unwrap();
    let mut font = Font::from_face(CountingFace::new());
    renderer
        .draw(&mut fake, &mut font, "hi", 0, 0, 1, (0, 0, 0))
        .unwrap();
    assert_eq!(fake.ortho_uploads, vec![(12, [0, 1280, 720, 0, -1, 1])]);
}

#[test]
fn drawing_text_streams_one_quad_per_character() {
    let mut fake = FakeGl::new();
    let mut renderer = FontRenderer::new(&mut fake).unwrap();
    let mut font = Font::from_face(CountingFace::new());
    renderer
        .draw(&mut fake, &mut font, "AB", 0, 0, 1, (0, 0, 0))
        .unwrap();
    assert_eq!(fake.draw_calls, 2);
    assert_eq!(fake.sub_data.len(), 2);
    // Glyphs are 2x3 with bearing (1, 2) and a 10-pixel advance: the first
    // quad hangs at x = 1, the second at x = 11.
    let first = &fake.sub_data[0];
    let second = &fake.sub_data[1];
    assert_eq!(first.len(), 24);
    assert_eq!(first[0], 1);
    assert_eq!(first[4], 1);
    // ypos = y - (height - bearing_y) = -(3 - 2) = -1, so the top edge is at
    // ypos + h = 2.
    assert_eq!(first[5], -1);
    assert_eq!(first[1], 2);
    assert_eq!(second[0], 11);
    // Texture coordinates span the unit square.
    assert_eq!(&first[2..4], &[0, 0]);
    assert_eq!(&first[6..8], &[0, 1]);
    assert_eq!(&first[10..12], &[1, 1]);
}

#[test]
fn newlines_move_the_pen_vertically_only() {
    let mut fake = FakeGl::new();
    let mut renderer = FontRenderer::new(&mut fake).unwrap();
    let mut font = Font::from_face(CountingFace::new());
    renderer
        .draw(&mut fake, &mut font, "\n\n\n", 0, 0, 1, (0, 0, 0))
        .unwrap();
    assert_eq!(fake.sub_data.len(), 3);
    // The newline glyph has zero advance and width, and its own height of
    // four pixels: the pen never moves right, and each quad sits four pixels
    // below the previous one.
    for quad in &fake.sub_data {
        assert_eq!(quad[0], 0);
        assert_eq!(quad[4], 0);
    }
    let tops: Vec<i64> = fake.sub_data.iter().map(|q| q[5]).collect();
    assert_eq!(tops, vec![-4, 0, 4]);
    assert_eq!(font.face.rasterized, vec![10]);
}

#[test]
fn draw_without_text_color_uniform_fails_by_name() {
    let mut fake = FakeGl::new();
    fake.known_uniforms.retain(|(n, _)| n != "textColor");
    let mut renderer = FontRenderer::new(&mut fake).unwrap();
    let mut font = Font::from_face(CountingFace::new());
    match renderer.draw(&mut fake, &mut font, "x", 0, 0, 1, (0, 0, 0)) {
        Err(FontError::Shader { error }) => match error {
            babo_engine::shader::ShaderError::UniformNotFound { name } => {
                assert_eq!(name, "textColor")
            }
            other => panic!("expected a missing uniform, got {:?}", other),
        },
        other => panic!("expected a shader error, got {:?}", other),
    }
    assert_eq!(font.face.rasterized.len(), 0);
}

#[test]
fn pen_advance_shifts_and_scales() {
    let ch = Character {
        texture: {
            let mut fake = FakeGl::new();
            babo_engine::texture::Texture::new(
                &mut fake, &[], 2, 3, 0x1903, 0x1903, 0x812F, 0x812F, 0x2601, 0x2601,
            )
            .unwrap()
        },
        bearing_x: 1,
        bearing_y: 2,
        advance: 640,
    };
    assert_eq!(advance_pen(&ch, 'a', 100, 50, 2), (120, 50));
    assert_eq!(advance_pen(&ch, '\n', 100, 50, 2), (0, 56));
    let mut negative = ch;
    negative.advance = -640;
    assert_eq!(advance_pen(&negative, 'a', 100, 50, 2), (100, 50));
}

#[test]
fn glyph_quads_follow_bearing_and_scale() {
    let mut fake = FakeGl::new();
    let texture = babo_engine::texture::Texture::new(
        &mut fake, &[], 2, 3, 0x1903, 0x1903, 0x812F, 0x812F, 0x2601, 0x2601,
    )
    .unwrap();
    let ch = Character { texture, bearing_x: 1, bearing_y: 2, advance: 640 };
    let quad = glyph_quad(&ch, 10, 20, 2);
    // xpos = 10 + 1 * 2 = 12; ypos = 20 - (3 - 2) * 2 = 18; w = 4; h = 6.
    assert_eq!(
        quad,
        vec![
            12, 24, 0, 0, 12, 18, 0, 1, 16, 18, 1, 1, 12, 24, 0, 0, 16, 18, 1, 1, 16, 24, 1, 0
        ]
    );
}

#[test]
fn load_font_goes_through_the_renderer() {
    let mut fake = FakeGl::new();
    let renderer = FontRenderer::new(&mut fake).unwrap();
    let font = renderer.load_font(&mut fake, CountingFace::new(), 32).unwrap();
    assert_eq!(font.face.sizes, vec![(0, 32)]);
    assert_eq!(font.glyph_count(), 128);
}

#[test]
fn drawing_reuses_glyphs_already_cached() {
    let mut fake = FakeGl::new();
    let mut renderer = FontRenderer::new(&mut fake).unwrap();
    let mut font = Font::from_face(CountingFace::new());
    renderer
        .draw(&mut fake, &mut font, "aaaa", 0, 0, 1, (0, 0, 0))
        .unwrap();
    assert_eq!(font.face.rasterized, vec![97]);
    assert_eq!(fake.draw_calls, 4);
}

#[test]
fn disposing_a_font_releases_every_glyph_texture() {
    let mut fake = FakeGl::new();
    let mut font = Font::from_face(CountingFace::new());
    let a = font.load_glyph(&mut fake, 'a').unwrap();
    let b = font.load_glyph(&mut fake, 'b').unwrap();
    font.load_glyph(&mut fake, 'a').unwrap();
    font.dispose(&mut fake).unwrap();
    let mut deleted = fake.deleted_textures.clone();
    deleted.sort();
    let mut expected = vec![a.texture.id(), b.texture.id()];
    expected.sort();
    assert_eq!(deleted, expected);
}

#[test]
fn disposing_the_renderer_releases_its_resources() {
    let mut fake = FakeGl::new();
    let renderer = FontRenderer::new(&mut fake).unwrap();
    fake.calls.clear();
    renderer.dispose(&mut fake).unwrap();
    assert_eq!(fake.calls.iter().filter(|c| *c == "DeleteProgram").count(), 1);
    assert_eq!(fake.calls.iter().filter(|c| *c == "DeleteBuffers").count(), 1);
    assert_eq!(
        fake.calls.iter().filter(|c| *c == "DeleteVertexArrays").count(),
        1
    );
}

#[test]
fn a_successful_draw_caches_every_character_of_the_text() {
    let mut fake = FakeGl::new();
    let mut renderer = FontRenderer::new(&mut fake).unwrap();
    let mut font = Font::from_face(CountingFace::new());
    renderer
        .draw(&mut fake, &mut font, "ab\nc", 0, 0, 1, (0, 0, 0))
        .unwrap();
    assert!(font.has_glyph('a'));
    assert!(font.has_glyph('b'));
    assert!(font.has_glyph('\n'));
    assert!(font.has_glyph('c'));
    assert_eq!(font.glyph_count(), 4);
}
