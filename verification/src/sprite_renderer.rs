//! The sprite quad renderer: one static unit quad and one fixed shader pair,
//! drawing one textured, transformed, tinted quad per call.

use vstd::prelude::*;

use crate::context::GL_ARRAY_BUFFER;
use crate::context::GL_BLEND;
use crate::context::GL_ONE_MINUS_SRC_ALPHA;
use crate::context::GL_SRC_ALPHA;
use crate::context::GL_STATIC_DRAW;
use crate::context::GL_TEXTURE0;
use crate::context::GL_TEXTURE_2D;
use crate::context::GL_TRIANGLES;
use crate::context::GraphicsContext;
use crate::shader::Shader;
use crate::shader::ShaderError;
use crate::shader::ShaderProgram;
use crate::shader::ShaderType;
use crate::texture::Texture;
use crate::utils::GlError;
use crate::utils::gl_check;
use crate::utils::interpret_create;

verus! {

/// The fixed vertex stage for sprites: pass the unit-quad corner through the
/// caller-supplied transform and forward its texture coordinate.
pub const SPRITE_VERTEX_SHADER: &'static str = "#version 330 core\nlayout (location = 0) in vec2 position;\nlayout (location = 1) in vec2 uv;\nout vec2 TexCoords;\nuniform mat4 transform;\nvoid main() {\n    TexCoords = uv;\n    gl_Position = transform * vec4(position, 0, 1);\n}\n";

/// The fixed fragment stage for sprites: sample the texture and tint it with
/// the sprite color.
pub const SPRITE_FRAGMENT_SHADER: &'static str = "#version 330 core\nin vec2 TexCoords;\nout vec4 color;\nuniform sampler2D image;\nuniform vec3 spriteColor;\nvoid main() {\n    color = vec4(spriteColor, 1) * texture(image, TexCoords);\n}\n";

/// The sprite renderer: its own linked shader program and the static
/// unit-quad vertex buffer, stateless across draw calls apart from the
/// program's uniform-location cache.
pub struct SpriteRenderer {
    shader: ShaderProgram,
    quad_vao: u32,
    quad_vbo: u32,
}

impl SpriteRenderer {
    pub closed spec fn spec_shader(&self) -> ShaderProgram {
        self.shader
    }

    pub closed spec fn spec_quad_vao(&self) -> u32 {
        self.quad_vao
    }

    pub closed spec fn spec_quad_vbo(&self) -> u32 {
        self.quad_vbo
    }

    /// Compile and link the fixed sprite shader pair, allocate the static
    /// unit quad (positions in the unit square with matching texture
    /// coordinates, two triangles, six vertices), and configure the two
    /// vertex attributes at a stride of four floats.
    pub fn new<C: GraphicsContext>(ctx: &mut C) -> (r: Result<SpriteRenderer, ShaderError>)
        ensures
            r matches Ok(sr) ==> sr.spec_quad_vao() != 0 && sr.spec_quad_vbo() != 0
                && sr.spec_shader().spec_id() != 0,
            r matches Err(e) ==> !(e matches ShaderError::UniformNotFound { .. }),
    {
        let vertex = match Shader::from_source(ctx, ShaderType::Vertex, SPRITE_VERTEX_SHADER) {
            Ok(s) => s,
            Err(e) => {
                return Err(e);
            },
        };
        let fragment = match Shader::from_source(
            ctx,
            ShaderType::Fragment,
            SPRITE_FRAGMENT_SHADER,
        ) {
            Ok(s) => s,
            Err(e) => {
                let _ = vertex.dispose(ctx);
                return Err(e);
            },
        };
        let mut stages: Vec<Shader> = Vec::new();
        stages.push(vertex);
        stages.push(fragment);
        let shader = match ShaderProgram::from_shaders(ctx, stages.as_slice()) {
            Ok(p) => p,
            Err(e) => {
                Self::release_stages(ctx, stages);
                return Err(e);
            },
        };
        // The compiled stages become unnecessary once they are linked into
        // the program: release them.
        Self::release_stages(ctx, stages);

        let handles = match Self::setup_quad(ctx) {
            Ok(h) => h,
            Err(e) => {
                let _ = shader.dispose(ctx);
                return Err(e);
            },
        };

        Ok(SpriteRenderer { shader, quad_vao: handles.0, quad_vbo: handles.1 })
    }

    /// Release both compiled stages on behalf of a construction path; the
    /// outcome of the deletes is consumed, since the path already has its
    /// own result to report.
    fn release_stages<C: GraphicsContext>(ctx: &mut C, stages: Vec<Shader>) {
        let mut stages = stages;
        while stages.len() > 0
            decreases stages.len(),
        {
            let stage = stages.pop().unwrap();
            let _ = stage.dispose(ctx);
        }
    }

    /// Release the quad buffers on a construction path that failed partway;
    /// a zero handle marks one that was never created.
    fn release_quad<C: GraphicsContext>(ctx: &mut C, vao: u32, vbo: u32) {
        if vbo != 0 {
            ctx.delete_buffer(vbo);
            let _ = gl_check("DeleteBuffers", ctx.get_error());
        }
        if vao != 0 {
            ctx.delete_vertex_array(vao);
            let _ = gl_check("DeleteVertexArrays", ctx.get_error());
        }
    }

    /// Allocate and fill the static unit-quad buffer (positions in the unit
    /// square with matching texture coordinates, two triangles, six
    /// vertices) and configure the two vertex attributes at a stride of
    /// four floats. On failure, whatever was created is released again.
    fn setup_quad<C: GraphicsContext>(ctx: &mut C) -> (r: Result<(u32, u32), ShaderError>)
        ensures
            r matches Ok(handles) ==> handles.0 != 0 && handles.1 != 0,
            r matches Err(e) ==> e matches ShaderError::GlError { .. },
    {
        // The unit quad: six vertices of (x, y, u, v), in pixel units that
        // the collaborator converts to floats.
        let quad_vertices: [i64; 24] = [
            0,
            1,
            0,
            1,
            1,
            0,
            1,
            0,
            0,
            0,
            0,
            0,
            0,
            1,
            0,
            1,
            1,
            1,
            1,
            1,
            1,
            0,
            1,
            0,
        ];

        let handle = ctx.gen_vertex_array();
        let code = ctx.get_error();
        let quad_vao = match interpret_create(handle, code, "GenVertexArrays") {
            Ok(h) => h,
            Err(e) => {
                return Err(ShaderError::GlError { error: e });
            },
        };
        ctx.bind_vertex_array(quad_vao);
        match gl_check("BindVertexArray", ctx.get_error()) {
            Ok(()) => {},
            Err(e) => {
                Self::release_quad(ctx, quad_vao, 0);
                return Err(ShaderError::GlError { error: e });
            },
        }

        let handle = ctx.gen_buffer();
        let code = ctx.get_error();
        let quad_vbo = match interpret_create(handle, code, "GenBuffers") {
            Ok(h) => h,
            Err(e) => {
                Self::release_quad(ctx, quad_vao, 0);
                return Err(ShaderError::GlError { error: e });
            },
        };
        ctx.bind_buffer(GL_ARRAY_BUFFER, quad_vbo);
        match gl_check("BindBuffer", ctx.get_error()) {
            Ok(()) => {},
            Err(e) => {
                Self::release_quad(ctx, quad_vao, quad_vbo);
                return Err(ShaderError::GlError { error: e });
            },
        }

        ctx.buffer_data_px(GL_ARRAY_BUFFER, quad_vertices.as_slice(), GL_STATIC_DRAW);
        match gl_check("BufferData", ctx.get_error()) {
            Ok(()) => {},
            Err(e) => {
                Self::release_quad(ctx, quad_vao, quad_vbo);
                return Err(ShaderError::GlError { error: e });
            },
        }

        ctx.vertex_attrib_pointer(0, 2, 4, 0);
        match gl_check("VertexAttribPointer", ctx.get_error()) {
            Ok(()) => {},
            Err(e) => {
                Self::release_quad(ctx, quad_vao, quad_vbo);
                return Err(ShaderError::GlError { error: e });
            },
        }
        ctx.enable_vertex_attrib_array(0);
        match gl_check("EnableVertexAttribArray", ctx.get_error()) {
            Ok(()) => {},
            Err(e) => {
                Self::release_quad(ctx, quad_vao, quad_vbo);
                return Err(ShaderError::GlError { error: e });
            },
        }
        ctx.vertex_attrib_pointer(1, 2, 4, 2);
        match gl_check("VertexAttribPointer", ctx.get_error()) {
            Ok(()) => {},
            Err(e) => {
                Self::release_quad(ctx, quad_vao, quad_vbo);
                return Err(ShaderError::GlError { error: e });
            },
        }
        ctx.enable_vertex_attrib_array(1);
        match gl_check("EnableVertexAttribArray", ctx.get_error()) {
            Ok(()) => {},
            Err(e) => {
                Self::release_quad(ctx, quad_vao, quad_vbo);
                return Err(ShaderError::GlError { error: e });
            },
        }

        Ok((quad_vao, quad_vbo))
    }

    /// Release every driver resource the renderer owns: the shader program
    /// and the quad buffers. The renderer is consumed; the first failed
    /// delete, if any, is reported after all deletes were attempted.
    pub fn dispose<C: GraphicsContext>(self, ctx: &mut C) -> (r: Result<(), GlError>) {
        let SpriteRenderer { shader, quad_vao, quad_vbo } = self;
        let mut result = shader.dispose(ctx);
        ctx.delete_buffer(quad_vbo);
        match gl_check("DeleteBuffers", ctx.get_error()) {
            Ok(()) => {},
            Err(e) => {
                if result.is_ok() {
                    result = Err(e);
                }
            },
        }
        ctx.delete_vertex_array(quad_vao);
        match gl_check("DeleteVertexArrays", ctx.get_error()) {
            Ok(()) => {},
            Err(e) => {
                if result.is_ok() {
                    result = Err(e);
                }
            },
        }
        result
    }

    /// Draw one sprite: enable alpha blending for the duration of the call,
    /// bind the quad and the texture on unit zero, upload the caller's full
    /// transform (projection, view and model already composed, column-major
    /// IEEE-754 bit patterns) and the color tint, issue the six-vertex draw,
    /// unbind the quad, and disable blending again.
    pub fn draw<C: GraphicsContext>(
        &mut self,
        ctx: &mut C,
        texture: &Texture,
        transform_bits: &[u32],
        color_bits: (u32, u32, u32),
    ) -> (r: Result<(), ShaderError>)
        requires
            transform_bits@.len() == 16,
        ensures
            final(self).spec_quad_vao() == old(self).spec_quad_vao(),
            final(self).spec_quad_vbo() == old(self).spec_quad_vbo(),
            final(self).spec_shader().spec_id() == old(self).spec_shader().spec_id(),
            r matches Err(e) ==> !(e matches ShaderError::CompileError { .. }) && !(e matches
                ShaderError::LinkError { .. }),
            r matches Err(e) ==> (e matches ShaderError::UniformNotFound { name: n } ==> (n@
                == "transform"@ || n@ == "spriteColor"@)),
            r is Ok ==> final(self).spec_shader().spec_locations().contains_key("transform"@)
                && final(self).spec_shader().spec_locations().contains_key("spriteColor"@),
    {
        ctx.enable(GL_BLEND);
        match gl_check("Enable", ctx.get_error()) {
            Ok(()) => {},
            Err(e) => {
                return Err(ShaderError::GlError { error: e });
            },
        }
        ctx.blend_func(GL_SRC_ALPHA, GL_ONE_MINUS_SRC_ALPHA);
        match gl_check("BlendFunc", ctx.get_error()) {
            Ok(()) => {},
            Err(e) => {
                return Err(ShaderError::GlError { error: e });
            },
        }

        self.shader.use_program(ctx);

        ctx.bind_vertex_array(self.quad_vao);
        match gl_check("BindVertexArray", ctx.get_error()) {
            Ok(()) => {},
            Err(e) => {
                return Err(ShaderError::GlError { error: e });
            },
        }
        ctx.active_texture(GL_TEXTURE0);
        match gl_check("ActiveTexture", ctx.get_error()) {
            Ok(()) => {},
            Err(e) => {
                return Err(ShaderError::GlError { error: e });
            },
        }
        ctx.bind_texture(GL_TEXTURE_2D, texture.id());
        match gl_check("BindTexture", ctx.get_error()) {
            Ok(()) => {},
            Err(e) => {
                return Err(ShaderError::GlError { error: e });
            },
        }

        match self.shader.set_uniform_mat4(ctx, "transform", transform_bits) {
            Ok(()) => {},
            Err(e) => {
                return Err(e);
            },
        }
        match self.shader.set_uniform_3f(ctx, "spriteColor", color_bits) {
            Ok(()) => {},
            Err(e) => {
                return Err(e);
            },
        }

        ctx.draw_arrays(GL_TRIANGLES, 0, 6);
        match gl_check("DrawArrays", ctx.get_error()) {
            Ok(()) => {},
            Err(e) => {
                return Err(ShaderError::GlError { error: e });
            },
        }
        ctx.bind_vertex_array(0);
        match gl_check("BindVertexArray", ctx.get_error()) {
            Ok(()) => {},
            Err(e) => {
                return Err(ShaderError::GlError { error: e });
            },
        }

        ctx.disable(GL_BLEND);
        match gl_check("Disable", ctx.get_error()) {
            Ok(()) => {},
            Err(e) => {
                return Err(ShaderError::GlError { error: e });
            },
        }

        Ok(())
    }
}

} // verus!
