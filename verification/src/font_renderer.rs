//! Bitmap-font text rendering: a font face rasterizes glyphs on demand into
//! a monotonically growing per-character cache, and the renderer streams one
//! quad per character through a single dynamic vertex buffer.
//!
//! Opening a face from a font file, like decoding an image, is the asset
//! collaborator's job: the core only consumes the collaborator's decoded
//! output, a plain bitmap with its metrics, through the [`FontFace`] trait.

use vstd::prelude::*;

use crate::context::GL_ARRAY_BUFFER;
use crate::context::GL_BLEND;
use crate::context::GL_CLAMP_TO_EDGE;
use crate::context::GL_DYNAMIC_DRAW;
use crate::context::GL_LINEAR;
use crate::context::GL_ONE_MINUS_SRC_ALPHA;
use crate::context::GL_RED;
use crate::context::GL_SRC_ALPHA;
use crate::context::GL_TEXTURE0;
use crate::context::GL_TEXTURE_2D;
use crate::context::GL_TRIANGLES;
use crate::context::GL_UNPACK_ALIGNMENT;
use crate::context::GraphicsContext;
use crate::shader::Shader;
use crate::shader::ShaderError;
use crate::shader::ShaderProgram;
use crate::shader::ShaderType;
use crate::texture::Texture;
use crate::texture::TextureTrait;
use crate::utils::GlError;
use crate::utils::gl_check;
use crate::utils::interpret_create;

verus! {

broadcast use vstd::std_specs::hash::group_hash_axioms;

/// Everything that can go wrong around fonts: a failed graphics call, a
/// shader error while preparing the text pipeline, a face that could not be
/// set up, or a glyph that could not be rasterized.
#[derive(Debug, Clone, PartialEq, Eq)]
pub enum FontError {
    GlError { error: GlError },
    Shader { error: ShaderError },
    LoadError,
    RasterError,
}

/// One rasterized glyph as the rasterization collaborator hands it over: an
/// eight-bit single-channel bitmap, the bearing of its top-left corner from
/// the pen position, and the horizontal advance in 1/64-pixel units.
pub struct GlyphBitmap {
    pub width: u32,
    pub rows: u32,
    pub left: i32,
    pub top: i32,
    pub advance: i64,
    pub buffer: Vec<u8>,
}

/// The font-face collaborator: an opened face of a rasterization library.
/// `set_pixel_sizes` reports whether the face accepted the size;
/// `render_glyph` rasterizes one character code and hands back the bitmap
/// with its metrics, or nothing if rasterization failed. No contract is
/// assumed of an implementation: the core states what holds for every reply.
pub trait FontFace {
    fn set_pixel_sizes(&mut self, width: u32, height: u32) -> bool;

    fn render_glyph(&mut self, code: u32) -> Option<GlyphBitmap>;
}

/// One cached character: its glyph texture, the bearing from the pen
/// position to the bitmap's top-left corner, and the horizontal advance in
/// 1/64-pixel units.
#[derive(Copy, Clone, Debug, PartialEq, Eq)]
pub struct Character {
    pub texture: Texture,
    pub bearing_x: i32,
    pub bearing_y: i32,
    pub advance: i64,
}

/// The largest glyph bitmap dimension the cache accepts, in pixels.
pub const MAX_GLYPH_DIM: u32 = 0x10000;

/// The largest glyph bearing magnitude the cache accepts, in pixels.
pub const MAX_GLYPH_BEARING: i32 = 0x10000;

/// The largest glyph advance magnitude the cache accepts, in 1/64-pixel
/// units.
pub const MAX_GLYPH_ADVANCE: i64 = 0x400000;

/// A bitmap the cache accepts: its metrics are small enough that all later
/// pen arithmetic stays inside 64-bit integers, and its buffer holds exactly
/// one byte per pixel.
pub open spec fn bitmap_metrics_ok(b: GlyphBitmap) -> bool {
    &&& b.width <= MAX_GLYPH_DIM
    &&& b.rows <= MAX_GLYPH_DIM
    &&& -MAX_GLYPH_BEARING <= b.left <= MAX_GLYPH_BEARING
    &&& -MAX_GLYPH_BEARING <= b.top <= MAX_GLYPH_BEARING
    &&& -MAX_GLYPH_ADVANCE <= b.advance <= MAX_GLYPH_ADVANCE
    &&& b.buffer@.len() == b.width * b.rows
}

/// The bounds of [`bitmap_metrics_ok`], as they survive on a cached
/// [`Character`].
pub open spec fn char_metrics_ok(ch: Character) -> bool {
    &&& ch.texture.spec_width() <= MAX_GLYPH_DIM
    &&& ch.texture.spec_height() <= MAX_GLYPH_DIM
    &&& -MAX_GLYPH_BEARING <= ch.bearing_x <= MAX_GLYPH_BEARING
    &&& -MAX_GLYPH_BEARING <= ch.bearing_y <= MAX_GLYPH_BEARING
    &&& -MAX_GLYPH_ADVANCE <= ch.advance <= MAX_GLYPH_ADVANCE
}

/// Decide [`bitmap_metrics_ok`] for a bitmap at hand.
pub fn bitmap_metrics_check(b: &GlyphBitmap) -> (r: bool)
    ensures
        r == bitmap_metrics_ok(*b),
{
    if b.width > MAX_GLYPH_DIM || b.rows > MAX_GLYPH_DIM {
        return false;
    }
    if b.left < -MAX_GLYPH_BEARING || b.left > MAX_GLYPH_BEARING {
        return false;
    }
    if b.top < -MAX_GLYPH_BEARING || b.top > MAX_GLYPH_BEARING {
        return false;
    }
    if b.advance < -MAX_GLYPH_ADVANCE || b.advance > MAX_GLYPH_ADVANCE {
        return false;
    }
    proof {
        assert((b.width as u64) * (b.rows as u64) <= 0x1_0000_0000u64) by (nonlinear_arith)
            requires
                b.width <= 0x10000,
                b.rows <= 0x10000,
        ;
    }
    (b.buffer.len() as u64) == (b.width as u64) * (b.rows as u64)
}

impl Character {
    /// Build a cached character from a rasterized bitmap: reject a bitmap
    /// whose metrics the cache cannot hold, otherwise upload the bitmap as a
    /// single-channel texture with clamped wrap and linear filtering and
    /// record bearing and advance unchanged.
    pub fn from_bitmap<C: GraphicsContext>(ctx: &mut C, bitmap: &GlyphBitmap) -> (r: Result<
        Character,
        FontError,
    >)
        ensures
            !bitmap_metrics_ok(*bitmap) ==> r == Err::<Character, FontError>(
                FontError::RasterError,
            ),
            r matches Ok(ch) ==> {
                &&& bitmap_metrics_ok(*bitmap)
                &&& char_metrics_ok(ch)
                &&& ch.bearing_x == bitmap.left
                &&& ch.bearing_y == bitmap.top
                &&& ch.advance == bitmap.advance
                &&& ch.texture.spec_width() == bitmap.width
                &&& ch.texture.spec_height() == bitmap.rows
                &&& ch.texture.spec_id() != 0
                &&& ch.texture.spec_sampling() == (
                    GL_RED,
                    GL_RED,
                    GL_CLAMP_TO_EDGE,
                    GL_CLAMP_TO_EDGE,
                    GL_LINEAR,
                    GL_LINEAR,
                )
            },
            r matches Err(e) ==> (e == FontError::RasterError || e matches FontError::GlError {
                ..
            }),
            r == Err::<Character, FontError>(FontError::RasterError) ==> !bitmap_metrics_ok(
                *bitmap,
            ),
    {
        if !bitmap_metrics_check(bitmap) {
            return Err(FontError::RasterError);
        }
        let texture = match Texture::new(
            ctx,
            bitmap.buffer.as_slice(),
            bitmap.width,
            bitmap.rows,
            GL_RED,
            GL_RED,
            GL_CLAMP_TO_EDGE,
            GL_CLAMP_TO_EDGE,
            GL_LINEAR,
            GL_LINEAR,
        ) {
            Ok(t) => t,
            Err(e) => {
                return Err(FontError::GlError { error: e });
            },
        };
        Ok(
            Character {
                texture,
                bearing_x: bitmap.left,
                bearing_y: bitmap.top,
                advance: bitmap.advance,
            },
        )
    }
}

/// A font: an opened face and the glyph cache it fills, keyed by character
/// code. The cache grows monotonically; a character is rasterized at most
/// once for the lifetime of the font.
pub struct Font<F: FontFace> {
    pub face: F,
    glyphs: vstd::hash_map::HashMapWithView<u32, Character>,
    texture_ids: Vec<u32>,
}

impl<F: FontFace> Font<F> {
    pub closed spec fn spec_glyphs(&self) -> Map<u32, Character> {
        self.glyphs@
    }

    /// Every cached character respects the metric bounds, so pen arithmetic
    /// over cached glyphs cannot overflow.
    pub open spec fn wf(&self) -> bool {
        forall|c: u32| #[trigger]
            self.spec_glyphs().contains_key(c) ==> char_metrics_ok(self.spec_glyphs()[c])
    }

    /// The old cache is intact in the new one: nothing is ever removed or
    /// replaced, at most one character code has been added.
    pub open spec fn cache_grown(pre: Map<u32, Character>, post: Map<u32, Character>) -> bool {
        forall|c: u32| #[trigger]
            pre.contains_key(c) ==> post.contains_key(c) && post[c] == pre[c]
    }

    /// Wrap an opened face with an empty glyph cache.
    pub fn from_face(face: F) -> (f: Font<F>)
        ensures
            f.spec_glyphs() == Map::<u32, Character>::empty(),
            f.wf(),
    {
        Font { face, glyphs: vstd::hash_map::HashMapWithView::new(), texture_ids: Vec::new() }
    }

    /// How many characters the cache holds.
    pub fn glyph_count(&self) -> (r: usize)
        ensures
            r == self.spec_glyphs().len(),
    {
        self.glyphs.len()
    }

    /// Whether a character is already cached.
    pub fn has_glyph(&self, c: char) -> (r: bool)
        ensures
            r == self.spec_glyphs().contains_key(c as u32),
    {
        let code: u32 = c as u32;
        self.glyphs.contains_key(&code)
    }

    /// Load one glyph, rasterizing it at most once: a cached character is
    /// returned as it stands, without touching the face or the driver; a
    /// missing one is rasterized, uploaded as a texture, inserted, and
    /// returned. The cache only ever grows, and only on success.
    pub fn load_glyph<C: GraphicsContext>(&mut self, ctx: &mut C, c: char) -> (r: Result<
        Character,
        FontError,
    >)
        requires
            old(self).wf(),
        ensures
            final(self).wf(),
            Self::cache_grown(old(self).spec_glyphs(), final(self).spec_glyphs()),
            old(self).spec_glyphs().contains_key(c as u32) ==> {
                &&& r == Ok::<Character, FontError>(old(self).spec_glyphs()[c as u32])
                &&& *final(self) == *old(self)
                &&& *final(ctx) == *old(ctx)
            },
            r matches Ok(ch) ==> {
                &&& char_metrics_ok(ch)
                &&& final(self).spec_glyphs() == old(self).spec_glyphs().insert(c as u32, ch)
                &&& final(self).spec_glyphs().contains_key(c as u32)
            },
            r is Err ==> final(self).spec_glyphs() == old(self).spec_glyphs(),
            r matches Err(e) ==> (e matches FontError::GlError { .. } || e
                == FontError::RasterError),
    {
        let code: u32 = c as u32;
        self.load_glyph_code(ctx, code)
    }

    /// Eagerly rasterize the first 128 character codes (basic ASCII) into
    /// the cache; a failure for any character aborts the whole load.
    pub fn load_default_glyphs<C: GraphicsContext>(&mut self, ctx: &mut C) -> (r: Result<
        (),
        FontError,
    >)
        requires
            old(self).wf(),
        ensures
            final(self).wf(),
            Self::cache_grown(old(self).spec_glyphs(), final(self).spec_glyphs()),
            r is Ok ==> forall|c: u32|
                c < 128 ==> #[trigger] final(self).spec_glyphs().contains_key(c),
            r matches Err(e) ==> (e matches FontError::GlError { .. } || e
                == FontError::RasterError),
    {
        for code in iter: 0..128u32
            invariant
                self.wf(),
                Self::cache_grown(old(self).spec_glyphs(), self.spec_glyphs()),
                forall|c: u32| c < iter.index() ==> #[trigger] self.spec_glyphs().contains_key(c),
        {
            match self.load_glyph_code(ctx, code) {
                Ok(_) => {},
                Err(e) => {
                    return Err(e);
                },
            }
        }
        Ok(())
    }

    /// As [`Font::load_glyph`], for a raw character code.
    fn load_glyph_code<C: GraphicsContext>(&mut self, ctx: &mut C, code: u32) -> (r: Result<
        Character,
        FontError,
    >)
        requires
            old(self).wf(),
        ensures
            final(self).wf(),
            Self::cache_grown(old(self).spec_glyphs(), final(self).spec_glyphs()),
            old(self).spec_glyphs().contains_key(code) ==> {
                &&& r == Ok::<Character, FontError>(old(self).spec_glyphs()[code])
                &&& *final(self) == *old(self)
                &&& *final(ctx) == *old(ctx)
            },
            r matches Ok(ch) ==> {
                &&& char_metrics_ok(ch)
                &&& final(self).spec_glyphs() == old(self).spec_glyphs().insert(code, ch)
                &&& final(self).spec_glyphs().contains_key(code)
            },
            r is Err ==> final(self).spec_glyphs() == old(self).spec_glyphs(),
            r matches Err(e) ==> (e matches FontError::GlError { .. } || e
                == FontError::RasterError),
    {
        match self.glyphs.get(&code) {
            Some(ch) => {
                let cached = *ch;
                proof {
                    assert(old(self).spec_glyphs().insert(code, cached) =~= old(
                        self,
                    ).spec_glyphs());
                }
                return Ok(cached);
            },
            None => {},
        }

        // The bitmap is a single-channel image: the unpack alignment must be
        // one byte before it is uploaded.
        ctx.pixel_store_i(GL_UNPACK_ALIGNMENT, 1);
        match gl_check("PixelStorei", ctx.get_error()) {
            Ok(()) => {},
            Err(e) => {
                return Err(FontError::GlError { error: e });
            },
        }

        let bitmap = match self.face.render_glyph(code) {
            Some(b) => b,
            None => {
                proof {
                    assert(self.spec_glyphs() == old(self).spec_glyphs());
                }
                return Err(FontError::RasterError);
            },
        };

        let character = match Character::from_bitmap(ctx, &bitmap) {
            Ok(ch) => ch,
            Err(e) => {
                proof {
                    assert(self.spec_glyphs() == old(self).spec_glyphs());
                }
                return Err(e);
            },
        };

        self.texture_ids.push(character.texture.id());
        self.glyphs.insert(code, character);
        proof {
            assert forall|c2: u32| #[trigger]
                self.spec_glyphs().contains_key(c2) implies char_metrics_ok(
                self.spec_glyphs()[c2],
            ) by {
                if c2 != code {
                    assert(old(self).spec_glyphs().contains_key(c2));
                }
            }
        }
        Ok(character)
    }

    /// Open a font: accept an already-opened face from the asset
    /// collaborator, set its pixel size, and eagerly rasterize basic ASCII.
    pub fn new<C: GraphicsContext>(ctx: &mut C, face: F, size: u32) -> (r: Result<
        Font<F>,
        FontError,
    >)
        ensures
            r matches Ok(f) ==> f.wf() && (forall|c: u32|
                c < 128 ==> #[trigger] f.spec_glyphs().contains_key(c)),
            r matches Err(e) ==> !(e matches FontError::Shader { .. }),
    {
        let mut face = face;
        if !face.set_pixel_sizes(0, size) {
            return Err(FontError::LoadError);
        }

        let mut font = Font::from_face(face);
        match font.load_default_glyphs(ctx) {
            Ok(()) => {},
            Err(e) => {
                // The load is aborted: release whatever glyph textures were
                // already created, so a failed open leaks nothing.
                let _ = font.dispose(ctx);
                return Err(e);
            },
        }
        Ok(font)
    }

    /// Release every glyph texture the cache created. The font is consumed;
    /// the first failed delete, if any, is reported after all deletes were
    /// attempted. The face itself goes back to the asset collaborator's
    /// keeping when the value is dropped.
    pub fn dispose<C: GraphicsContext>(self, ctx: &mut C) -> (r: Result<(), GlError>) {
        let mut result: Result<(), GlError> = Ok(());
        for i in 0..self.texture_ids.len() {
            ctx.delete_texture(self.texture_ids[i]);
            match gl_check("DeleteTextures", ctx.get_error()) {
                Ok(()) => {},
                Err(e) => {
                    if result.is_ok() {
                        result = Err(e);
                    }
                },
            }
        }
        result
    }
}

/// The largest text scale factor the renderer accepts.
pub const MAX_TEXT_SCALE: i64 = 0x10000;

/// The largest pen-start magnitude the renderer accepts, in pixels.
pub const MAX_PEN_START: i64 = 0x1000_0000_0000;

/// A bound the pen position never leaves while a run of text of accepted
/// length is drawn from an accepted start.
pub const MAX_PEN: i64 = 0x40_0000_0000_0000;

/// The longest text run one draw call accepts.
pub const MAX_TEXT_LEN: usize = 0x100000;

/// How far the pen moves to the right after a glyph: the advance, clamped at
/// zero from below, shifted from 1/64-pixel units into pixels.
pub open spec fn spec_pen_advance(ch: Character) -> i64 {
    if ch.advance < 0 {
        0i64
    } else {
        ch.advance >> 6
    }
}

/// Where the pen stands after drawing character `c` at `(x, y)`: the advance
/// is always applied first; a newline then resets the pen to the left margin
/// and moves it down by the newline glyph's own rendered height.
pub open spec fn spec_pen_step(ch: Character, c: char, x: int, y: int, scale: int) -> (int, int) {
    if c == '\n' {
        (0int, y + (ch.texture.spec_height() as int) * scale)
    } else {
        (x + (spec_pen_advance(ch) as int) * scale, y)
    }
}

/// A run of newlines moves the pen vertically and pins it to the left
/// margin: after a newline the horizontal position is zero whatever it was,
/// and the vertical position has grown by the newline glyph's own rendered
/// height, so it never moves back up.
pub proof fn lemma_newline_pen(ch: Character, x: int, y: int, scale: int)
    requires
        0 <= scale,
    ensures
        spec_pen_step(ch, '\n', x, y, scale).0 == 0,
        spec_pen_step(ch, '\n', x, y, scale).1 == y + (ch.texture.spec_height() as int) * scale,
        spec_pen_step(ch, '\n', x, y, scale).1 >= y,
{
    assert((ch.texture.spec_height() as int) * scale >= 0) by (nonlinear_arith)
        requires
            0 <= scale,
            0 <= ch.texture.spec_height(),
    ;
}

/// Advance the pen over one drawn character, exactly as [`spec_pen_step`]
/// says, within 64-bit arithmetic.
pub fn advance_pen(ch: &Character, c: char, x: i64, y: i64, scale: i64) -> (r: (i64, i64))
    requires
        char_metrics_ok(*ch),
        0 <= scale <= MAX_TEXT_SCALE,
        -MAX_PEN <= x <= MAX_PEN,
        -MAX_PEN <= y <= MAX_PEN,
    ensures
        (r.0 as int, r.1 as int) == spec_pen_step(*ch, c, x as int, y as int, scale as int),
        r.0 == 0 || (x <= r.0 <= x + 0x1_0000_0000),
        y <= r.1 <= y + 0x1_0000_0000,
{
    let adv: i64 = if ch.advance < 0 {
        0
    } else {
        let a: i64 = ch.advance;
        let shifted = a >> 6;
        proof {
            assert(0 <= (a >> 6) <= 0x10000) by (bit_vector)
                requires
                    0 <= a <= 0x400000i64,
            ;
        }
        shifted
    };
    proof {
        assert(0 <= adv * scale <= 0x1_0000_0000) by (nonlinear_arith)
            requires
                0 <= adv <= 0x10000,
                0 <= scale <= 0x10000,
        ;
    }
    let stepped: i64 = x + adv * scale;
    if c == '\n' {
        let h: i64 = ch.texture.height() as i64;
        proof {
            assert(0 <= h * scale <= 0x1_0000_0000) by (nonlinear_arith)
                requires
                    0 <= h <= 0x10000,
                    0 <= scale <= 0x10000,
            ;
        }
        (0, y + h * scale)
    } else {
        (stepped, y)
    }
}

/// The six vertices, as (x, y, u, v) each, of one glyph quad in pen space:
/// the quad hangs from the pen position by the glyph bearing, spans the
/// scaled bitmap, and carries the unit texture coordinates of its corners.
pub open spec fn spec_glyph_quad(ch: Character, x: int, y: int, scale: int) -> Seq<int> {
    let xpos = x + (ch.bearing_x as int) * scale;
    let ypos = y - ((ch.texture.spec_height() as int) - (ch.bearing_y as int)) * scale;
    let w = (ch.texture.spec_width() as int) * scale;
    let h = (ch.texture.spec_height() as int) * scale;
    seq![
        xpos,
        ypos + h,
        0,
        0,
        xpos,
        ypos,
        0,
        1,
        xpos + w,
        ypos,
        1,
        1,
        xpos,
        ypos + h,
        0,
        0,
        xpos + w,
        ypos,
        1,
        1,
        xpos + w,
        ypos + h,
        1,
        0,
    ]
}

/// Lay out one glyph quad, exactly as [`spec_glyph_quad`] says, within
/// 64-bit arithmetic.
pub fn glyph_quad(ch: &Character, x: i64, y: i64, scale: i64) -> (r: Vec<i64>)
    requires
        char_metrics_ok(*ch),
        0 <= scale <= MAX_TEXT_SCALE,
        -MAX_PEN <= x <= MAX_PEN,
        -MAX_PEN <= y <= MAX_PEN,
    ensures
        r@.len() == 24,
        forall|i: int|
            0 <= i < 24 ==> r@[i] == spec_glyph_quad(*ch, x as int, y as int, scale as int)[i],
{
    let bx: i64 = ch.bearing_x as i64;
    let by: i64 = ch.bearing_y as i64;
    let tw: i64 = ch.texture.width() as i64;
    let th: i64 = ch.texture.height() as i64;
    proof {
        assert(-0x1_0000_0000 <= bx * scale <= 0x1_0000_0000) by (nonlinear_arith)
            requires
                -0x10000 <= bx <= 0x10000,
                0 <= scale <= 0x10000,
        ;
        assert(-0x2_0000_0000 <= (th - by) * scale <= 0x2_0000_0000) by (nonlinear_arith)
            requires
                -0x10000 <= by <= 0x10000,
                0 <= th <= 0x10000,
                0 <= scale <= 0x10000,
        ;
        assert(0 <= tw * scale <= 0x1_0000_0000) by (nonlinear_arith)
            requires
                0 <= tw <= 0x10000,
                0 <= scale <= 0x10000,
        ;
        assert(0 <= th * scale <= 0x1_0000_0000) by (nonlinear_arith)
            requires
                0 <= th <= 0x10000,
                0 <= scale <= 0x10000,
        ;
    }
    let xpos: i64 = x + bx * scale;
    let ypos: i64 = y - (th - by) * scale;
    let w: i64 = tw * scale;
    let h: i64 = th * scale;
    let quad: Vec<i64> = vec![
        xpos,
        ypos + h,
        0,
        0,
        xpos,
        ypos,
        0,
        1,
        xpos + w,
        ypos,
        1,
        1,
        xpos,
        ypos + h,
        0,
        0,
        xpos + w,
        ypos,
        1,
        1,
        xpos + w,
        ypos + h,
        1,
        0,
    ];
    quad
}

/// The fixed vertex stage for text: each vertex carries its pen-space
/// position and texture coordinate in one four-component attribute.
pub const FONT_VERTEX_SHADER: &'static str = "#version 330 core\nlayout (location = 0) in vec4 vertex;\nout vec2 TexCoords;\nuniform mat4 transform;\nvoid main() {\n    gl_Position = transform * vec4(vertex.xy, 0, 1);\n    TexCoords = vertex.zw;\n}\n";

/// The fixed fragment stage for text: the glyph bitmap's single channel is
/// the coverage, tinted with the text color.
pub const FONT_FRAGMENT_SHADER: &'static str = "#version 330 core\nin vec2 TexCoords;\nout vec4 color;\nuniform sampler2D text;\nuniform vec3 textColor;\nvoid main() {\n    color = vec4(textColor, 1) * vec4(1, 1, 1, texture(text, TexCoords).r);\n}\n";

/// The text renderer: its own linked shader program and one dynamic vertex
/// buffer sized for exactly one quad (six vertices of four floats), refilled
/// for every character drawn. Faces are opened by the asset collaborator and
/// shared with the renderer through [`Font`] values.
pub struct FontRenderer {
    shader: ShaderProgram,
    vao: u32,
    vbo: u32,
}

impl FontRenderer {
    pub closed spec fn spec_shader(&self) -> ShaderProgram {
        self.shader
    }

    pub closed spec fn spec_vao(&self) -> u32 {
        self.vao
    }

    pub closed spec fn spec_vbo(&self) -> u32 {
        self.vbo
    }

    /// Compile and link the fixed text shader pair and allocate the one
    /// dynamic quad buffer with its single four-float vertex attribute.
    pub fn new<C: GraphicsContext>(ctx: &mut C) -> (r: Result<FontRenderer, ShaderError>)
        ensures
            r matches Ok(fr) ==> fr.spec_vao() != 0 && fr.spec_vbo() != 0
                && fr.spec_shader().spec_id() != 0,
            r matches Err(e) ==> !(e matches ShaderError::UniformNotFound { .. }),
    {
        let vertex = match Shader::from_source(ctx, ShaderType::Vertex, FONT_VERTEX_SHADER) {
            Ok(s) => s,
            Err(e) => {
                return Err(e);
            },
        };
        let fragment = match Shader::from_source(ctx, ShaderType::Fragment, FONT_FRAGMENT_SHADER) {
            Ok(s) => s,
            Err(e) => {
                let _ = vertex.dispose(ctx);
                return Err(e);
            },
        };
        let mut stages: Vec<Shader> = Vec::new();
        stages.push(vertex);
        stages.push(fragment);
        let shader = match ShaderProgram::from_shaders(ctx, stages.as_slice()) {
            Ok(p) => p,
            Err(e) => {
                Self::release_stages(ctx, stages);
                return Err(e);
            },
        };
        // The compiled stages become unnecessary once they are linked into
        // the program: release them.
        Self::release_stages(ctx, stages);

        let handles = match Self::setup_stream(ctx) {
            Ok(h) => h,
            Err(e) => {
                let _ = shader.dispose(ctx);
                return Err(e);
            },
        };

        Ok(FontRenderer { shader, vao: handles.0, vbo: handles.1 })
    }

    /// Release both compiled stages on behalf of a construction path; the
    /// outcome of the deletes is consumed, since the path already has its
    /// own result to report.
    fn release_stages<C: GraphicsContext>(ctx: &mut C, stages: Vec<Shader>) {
        let mut stages = stages;
        while stages.len() > 0
            decreases stages.len(),
        {
            let stage = stages.pop().unwrap();
            let _ = stage.dispose(ctx);
        }
    }

    /// Release the streaming buffers on a construction path that failed
    /// partway; a zero handle marks one that was never created.
    fn release_stream<C: GraphicsContext>(ctx: &mut C, vao: u32, vbo: u32) {
        if vbo != 0 {
            ctx.delete_buffer(vbo);
            let _ = gl_check("DeleteBuffers", ctx.get_error());
        }
        if vao != 0 {
            ctx.delete_vertex_array(vao);
            let _ = gl_check("DeleteVertexArrays", ctx.get_error());
        }
    }

    /// Allocate the one dynamic quad buffer (six vertices of four floats,
    /// contents streamed per character) with its single vertex attribute,
    /// and leave both buffer and vertex array unbound. On failure, whatever
    /// was created is released again.
    fn setup_stream<C: GraphicsContext>(ctx: &mut C) -> (r: Result<(u32, u32), ShaderError>)
        ensures
            r matches Ok(handles) ==> handles.0 != 0 && handles.1 != 0,
            r matches Err(e) ==> e matches ShaderError::GlError { .. },
    {
        let handle = ctx.gen_vertex_array();
        let code = ctx.get_error();
        let vao = match interpret_create(handle, code, "GenVertexArrays") {
            Ok(h) => h,
            Err(e) => {
                return Err(ShaderError::GlError { error: e });
            },
        };
        ctx.bind_vertex_array(vao);
        match gl_check("BindVertexArray", ctx.get_error()) {
            Ok(()) => {},
            Err(e) => {
                Self::release_stream(ctx, vao, 0);
                return Err(ShaderError::GlError { error: e });
            },
        }

        let handle = ctx.gen_buffer();
        let code = ctx.get_error();
        let vbo = match interpret_create(handle, code, "GenBuffers") {
            Ok(h) => h,
            Err(e) => {
                Self::release_stream(ctx, vao, 0);
                return Err(ShaderError::GlError { error: e });
            },
        };
        ctx.bind_buffer(GL_ARRAY_BUFFER, vbo);
        match gl_check("BindBuffer", ctx.get_error()) {
            Ok(()) => {},
            Err(e) => {
                Self::release_stream(ctx, vao, vbo);
                return Err(ShaderError::GlError { error: e });
            },
        }

        ctx.buffer_data_uninit(GL_ARRAY_BUFFER, 24, GL_DYNAMIC_DRAW);
        match gl_check("BufferData", ctx.get_error()) {
            Ok(()) => {},
            Err(e) => {
                Self::release_stream(ctx, vao, vbo);
                return Err(ShaderError::GlError { error: e });
            },
        }

        ctx.vertex_attrib_pointer(0, 4, 4, 0);
        match gl_check("VertexAttribPointer", ctx.get_error()) {
            Ok(()) => {},
            Err(e) => {
                Self::release_stream(ctx, vao, vbo);
                return Err(ShaderError::GlError { error: e });
            },
        }
        ctx.enable_vertex_attrib_array(0);
        match gl_check("EnableVertexAttribArray", ctx.get_error()) {
            Ok(()) => {},
            Err(e) => {
                Self::release_stream(ctx, vao, vbo);
                return Err(ShaderError::GlError { error: e });
            },
        }

        ctx.bind_buffer(GL_ARRAY_BUFFER, 0);
        match gl_check("BindBuffer", ctx.get_error()) {
            Ok(()) => {},
            Err(e) => {
                Self::release_stream(ctx, vao, vbo);
                return Err(ShaderError::GlError { error: e });
            },
        }
        ctx.bind_vertex_array(0);
        match gl_check("BindVertexArray", ctx.get_error()) {
            Ok(()) => {},
            Err(e) => {
                Self::release_stream(ctx, vao, vbo);
                return Err(ShaderError::GlError { error: e });
            },
        }

        Ok((vao, vbo))
    }

    /// Release every driver resource the renderer owns: the text shader
    /// program and the streaming buffers. The renderer is consumed; the
    /// first failed delete, if any, is reported after all deletes were
    /// attempted. Fonts are released separately, each by its own
    /// [`Font::dispose`].
    pub fn dispose<C: GraphicsContext>(self, ctx: &mut C) -> (r: Result<(), GlError>) {
        let FontRenderer { shader, vao, vbo } = self;
        let mut result = shader.dispose(ctx);
        ctx.delete_buffer(vbo);
        match gl_check("DeleteBuffers", ctx.get_error()) {
            Ok(()) => {},
            Err(e) => {
                if result.is_ok() {
                    result = Err(e);
                }
            },
        }
        ctx.delete_vertex_array(vao);
        match gl_check("DeleteVertexArrays", ctx.get_error()) {
            Ok(()) => {},
            Err(e) => {
                if result.is_ok() {
                    result = Err(e);
                }
            },
        }
        result
    }

    /// Open a font through this renderer: the asset collaborator supplies
    /// the opened face, the cache is filled with basic ASCII.
    pub fn load_font<C: GraphicsContext, F: FontFace>(&self, ctx: &mut C, face: F, size: u32) -> (r:
        Result<Font<F>, FontError>)
        ensures
            r matches Ok(f) ==> f.wf() && (forall|c: u32|
                c < 128 ==> #[trigger] f.spec_glyphs().contains_key(c)),
            r matches Err(e) ==> !(e matches FontError::Shader { .. }),
    {
        Font::new(ctx, face, size)
    }

    /// Draw a run of text: bind the text shader, set the text color and the
    /// fixed 1280x720 orthographic transform (deliberately not the caller's
    /// camera), then for each character fetch or rasterize its glyph, stream
    /// its quad into the dynamic buffer, draw it, and advance the pen as
    /// [`spec_pen_step`] says. An empty run loads no glyph and issues no
    /// draw call, and leaves the font exactly as it was.
    pub fn draw<C: GraphicsContext, F: FontFace>(
        &mut self,
        ctx: &mut C,
        font: &mut Font<F>,
        text: &str,
        x: i64,
        y: i64,
        scale: i64,
        color_bits: (u32, u32, u32),
    ) -> (r: Result<(), FontError>)
        requires
            old(font).wf(),
            0 <= scale <= MAX_TEXT_SCALE,
            -MAX_PEN_START <= x <= MAX_PEN_START,
            -MAX_PEN_START <= y <= MAX_PEN_START,
            text@.len() <= MAX_TEXT_LEN,
        ensures
            final(font).wf(),
            Font::<F>::cache_grown(old(font).spec_glyphs(), final(font).spec_glyphs()),
            text@.len() == 0 ==> *final(font) == *old(font),
            final(self).spec_vao() == old(self).spec_vao() && final(self).spec_vbo() == old(
                self,
            ).spec_vbo() && final(self).spec_shader().spec_id() == old(self).spec_shader().spec_id(),
            r matches Err(e) ==> e != FontError::LoadError,
            r is Ok ==> forall|i: int|
                0 <= i < text@.len() ==> #[trigger] final(font).spec_glyphs().contains_key(
                    text@[i] as u32,
                ),
            r is Ok ==> final(self).spec_shader().spec_locations().contains_key("textColor"@)
                && final(self).spec_shader().spec_locations().contains_key("transform"@),
    {
        self.shader.use_program(ctx);

        match self.shader.set_uniform_3f(ctx, "textColor", color_bits) {
            Ok(()) => {},
            Err(e) => {
                return Err(FontError::Shader { error: e });
            },
        }

        // Text goes through a fixed 1280x720 orthographic projection,
        // whatever the caller's camera or viewport says.
        let location = match self.shader.get_uniform_location(ctx, "transform") {
            Ok(l) => l,
            Err(e) => {
                return Err(FontError::Shader { error: e });
            },
        };
        ctx.uniform_matrix_ortho(location, 0, 1280, 720, 0, -1, 1);
        match gl_check("UniformMatrix4fv", ctx.get_error()) {
            Ok(()) => {},
            Err(e) => {
                return Err(FontError::GlError { error: e });
            },
        }

        ctx.active_texture(GL_TEXTURE0);
        match gl_check("ActiveTexture", ctx.get_error()) {
            Ok(()) => {},
            Err(e) => {
                return Err(FontError::GlError { error: e });
            },
        }
        ctx.bind_vertex_array(self.vao);
        match gl_check("BindVertexArray", ctx.get_error()) {
            Ok(()) => {},
            Err(e) => {
                return Err(FontError::GlError { error: e });
            },
        }

        let mut pen_x: i64 = x;
        let mut pen_y: i64 = y;

        for c in it: text.chars()
            invariant
                it.seq() == text@,
                font.wf(),
                Font::<F>::cache_grown(old(font).spec_glyphs(), font.spec_glyphs()),
                forall|i: int|
                    0 <= i < it.index() ==> #[trigger] font.spec_glyphs().contains_key(
                        text@[i] as u32,
                    ),
                text@.len() == 0 ==> *font == *old(font),
                text@.len() <= MAX_TEXT_LEN,
                0 <= scale <= MAX_TEXT_SCALE,
                self.spec_vao() == old(self).spec_vao(),
                self.spec_vbo() == old(self).spec_vbo(),
                self.spec_shader().spec_id() == old(self).spec_shader().spec_id(),
                self.spec_shader().spec_locations().contains_key("textColor"@),
                self.spec_shader().spec_locations().contains_key("transform"@),
                -MAX_PEN_START <= pen_x,
                pen_x <= MAX_PEN_START + (it.index() as int) * 0x1_0000_0000,
                -MAX_PEN_START <= pen_y,
                pen_y <= MAX_PEN_START + (it.index() as int) * 0x1_0000_0000,
        {
            let character = match font.load_glyph(ctx, c) {
                Ok(ch) => ch,
                Err(e) => {
                    return Err(e);
                },
            };

            proof {
                assert(it.index() < it.seq().len());
                assert(pen_x <= MAX_PEN_START + (MAX_TEXT_LEN as int) * 0x1_0000_0000);
                assert(pen_y <= MAX_PEN_START + (MAX_TEXT_LEN as int) * 0x1_0000_0000);
            }

            let quad = glyph_quad(&character, pen_x, pen_y, scale);

            ctx.enable(GL_BLEND);
            match gl_check("Enable", ctx.get_error()) {
                Ok(()) => {},
                Err(e) => {
                    return Err(FontError::GlError { error: e });
                },
            }
            ctx.blend_func(GL_SRC_ALPHA, GL_ONE_MINUS_SRC_ALPHA);
            match gl_check("BlendFunc", ctx.get_error()) {
                Ok(()) => {},
                Err(e) => {
                    return Err(FontError::GlError { error: e });
                },
            }

            ctx.bind_texture(GL_TEXTURE_2D, character.texture.id());
            match gl_check("BindTexture", ctx.get_error()) {
                Ok(()) => {},
                Err(e) => {
                    return Err(FontError::GlError { error: e });
                },
            }
            ctx.bind_buffer(GL_ARRAY_BUFFER, self.vbo);
            match gl_check("BindBuffer", ctx.get_error()) {
                Ok(()) => {},
                Err(e) => {
                    return Err(FontError::GlError { error: e });
                },
            }
            ctx.buffer_sub_data_px(GL_ARRAY_BUFFER, 0, quad.as_slice());
            match gl_check("BufferSubData", ctx.get_error()) {
                Ok(()) => {},
                Err(e) => {
                    return Err(FontError::GlError { error: e });
                },
            }
            ctx.bind_buffer(GL_ARRAY_BUFFER, 0);
            match gl_check("BindBuffer", ctx.get_error()) {
                Ok(()) => {},
                Err(e) => {
                    return Err(FontError::GlError { error: e });
                },
            }
            ctx.draw_arrays(GL_TRIANGLES, 0, 6);
            match gl_check("DrawArrays", ctx.get_error()) {
                Ok(()) => {},
                Err(e) => {
                    return Err(FontError::GlError { error: e });
                },
            }

            let stepped = advance_pen(&character, c, pen_x, pen_y, scale);
            pen_x = stepped.0;
            pen_y = stepped.1;
        }

        ctx.bind_vertex_array(0);
        match gl_check("BindVertexArray", ctx.get_error()) {
            Ok(()) => {},
            Err(e) => {
                return Err(FontError::GlError { error: e });
            },
        }
        ctx.bind_texture(GL_TEXTURE_2D, 0);
        match gl_check("BindTexture", ctx.get_error()) {
            Ok(()) => {},
            Err(e) => {
                return Err(FontError::GlError { error: e });
            },
        }

        Ok(())
    }
}

} // verus!
