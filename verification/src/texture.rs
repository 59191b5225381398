//! Textures: one GPU image resource each, created from a raw pixel buffer,
//! with mutable wrap and filter state that is re-applied to the bound driver
//! object on every mutator call.

use vstd::prelude::*;

use crate::context::GL_LINEAR;
use crate::context::GL_LINEAR_MIPMAP_LINEAR;
use crate::context::GL_REPEAT;
use crate::context::GL_RGBA;
use crate::context::GL_TEXTURE_2D;
use crate::context::GL_TEXTURE_MAG_FILTER;
use crate::context::GL_TEXTURE_MIN_FILTER;
use crate::context::GL_TEXTURE_WRAP_S;
use crate::context::GL_TEXTURE_WRAP_T;
use crate::context::GraphicsContext;
use crate::utils::GlError;
use crate::utils::gl_check;
use crate::utils::interpret_create;

verus! {

/// What every texture, however it was made, can answer.
pub trait TextureTrait {
    fn width(&self) -> u32;

    fn height(&self) -> u32;
}

/// One GPU image: a non-zero handle, fixed dimensions and pixel formats, and
/// the current wrap/filter sampling state.
#[derive(Copy, Clone, Debug, PartialEq, Eq)]
pub struct Texture {
    id: u32,
    width: u32,
    height: u32,
    internal_format: u32,
    format: u32,
    wrap_s: u32,
    wrap_t: u32,
    filter_min: u32,
    filter_max: u32,
}

impl Texture {
    pub closed spec fn spec_id(&self) -> u32 {
        self.id
    }

    pub closed spec fn spec_width(&self) -> u32 {
        self.width
    }

    pub closed spec fn spec_height(&self) -> u32 {
        self.height
    }

    pub closed spec fn spec_internal_format(&self) -> u32 {
        self.internal_format
    }

    pub closed spec fn spec_format(&self) -> u32 {
        self.format
    }

    pub closed spec fn spec_wrap_s(&self) -> u32 {
        self.wrap_s
    }

    pub closed spec fn spec_wrap_t(&self) -> u32 {
        self.wrap_t
    }

    pub closed spec fn spec_filter_min(&self) -> u32 {
        self.filter_min
    }

    pub closed spec fn spec_filter_max(&self) -> u32 {
        self.filter_max
    }

    /// Everything about a texture except its handle and its dimensions, as
    /// one tuple: the sampling state and formats.
    pub open spec fn spec_sampling(&self) -> (u32, u32, u32, u32, u32, u32) {
        (
            self.spec_internal_format(),
            self.spec_format(),
            self.spec_wrap_s(),
            self.spec_wrap_t(),
            self.spec_filter_min(),
            self.spec_filter_max(),
        )
    }

    /// The whole recorded state of a texture as one tuple: handle, width,
    /// height, then the sampling tuple.
    pub open spec fn spec_state(&self) -> (u32, u32, u32, (u32, u32, u32, u32, u32, u32)) {
        (self.spec_id(), self.spec_width(), self.spec_height(), self.spec_sampling())
    }

    /// Create a texture of the given size from a raw pixel buffer (which may
    /// be empty for a streaming texture), upload it, and apply the requested
    /// wrap and filter state. On success every recorded field is exactly the
    /// requested one and the handle is non-zero.
    pub fn new<C: GraphicsContext>(
        ctx: &mut C,
        data: &[u8],
        width: u32,
        height: u32,
        internal_format: u32,
        format: u32,
        wrap_s: u32,
        wrap_t: u32,
        filter_min: u32,
        filter_max: u32,
    ) -> (r: Result<Texture, GlError>)
        ensures
            r matches Ok(t) ==> t.spec_id() != 0 && t.spec_width() == width && t.spec_height()
                == height && t.spec_sampling() == (
                internal_format,
                format,
                wrap_s,
                wrap_t,
                filter_min,
                filter_max,
            ),
    {
        let handle = ctx.gen_texture();
        let code = ctx.get_error();
        // A zero handle means the driver gave us nothing usable:
        // interpret_create reports it, so that a live Texture always holds
        // a non-zero handle.
        let id = match interpret_create(handle, code, "GenTextures") {
            Ok(h) => h,
            Err(e) => {
                return Err(e);
            },
        };
        ctx.bind_texture(GL_TEXTURE_2D, id);
        match gl_check("BindTexture", ctx.get_error()) {
            Ok(()) => {},
            Err(e) => {
                Self::release_texture(ctx, id);
                return Err(e);
            },
        }
        ctx.tex_image_2d(GL_TEXTURE_2D, internal_format, width, height, format, data);
        match gl_check("TexImage2D", ctx.get_error()) {
            Ok(()) => {},
            Err(e) => {
                Self::release_texture(ctx, id);
                return Err(e);
            },
        }
        ctx.tex_parameter_i(GL_TEXTURE_2D, GL_TEXTURE_WRAP_S, wrap_s);
        match gl_check("TexParameteri", ctx.get_error()) {
            Ok(()) => {},
            Err(e) => {
                Self::release_texture(ctx, id);
                return Err(e);
            },
        }
        ctx.tex_parameter_i(GL_TEXTURE_2D, GL_TEXTURE_WRAP_T, wrap_t);
        match gl_check("TexParameteri", ctx.get_error()) {
            Ok(()) => {},
            Err(e) => {
                Self::release_texture(ctx, id);
                return Err(e);
            },
        }
        ctx.tex_parameter_i(GL_TEXTURE_2D, GL_TEXTURE_MIN_FILTER, filter_min);
        match gl_check("TexParameteri", ctx.get_error()) {
            Ok(()) => {},
            Err(e) => {
                Self::release_texture(ctx, id);
                return Err(e);
            },
        }
        ctx.tex_parameter_i(GL_TEXTURE_2D, GL_TEXTURE_MAG_FILTER, filter_max);
        match gl_check("TexParameteri", ctx.get_error()) {
            Ok(()) => {},
            Err(e) => {
                Self::release_texture(ctx, id);
                return Err(e);
            },
        }
        Ok(
            Texture {
                id,
                width,
                height,
                internal_format,
                format,
                wrap_s,
                wrap_t,
                filter_min,
                filter_max,
            },
        )
    }

    /// Create a texture from a decoded top-to-bottom RGBA pixel buffer with
    /// the fixed default sampling policy: repeating wrap, trilinear
    /// minification, linear magnification, and generated mipmaps. This is
    /// the upload half of loading an image file; decoding the file is the
    /// asset collaborator's job.
    pub fn from_pixels<C: GraphicsContext>(ctx: &mut C, data: &[u8], width: u32, height: u32) -> (r:
        Result<Texture, GlError>)
        ensures
            r matches Ok(t) ==> t.spec_id() != 0 && t.spec_width() == width && t.spec_height()
                == height && t.spec_sampling() == (
                GL_RGBA,
                GL_RGBA,
                GL_REPEAT,
                GL_REPEAT,
                GL_LINEAR_MIPMAP_LINEAR,
                GL_LINEAR,
            ),
    {
        let texture = match Texture::new(
            ctx,
            data,
            width,
            height,
            GL_RGBA,
            GL_RGBA,
            GL_REPEAT,
            GL_REPEAT,
            GL_LINEAR_MIPMAP_LINEAR,
            GL_LINEAR,
        ) {
            Ok(t) => t,
            Err(e) => {
                return Err(e);
            },
        };
        ctx.generate_mipmap(GL_TEXTURE_2D);
        match gl_check("GenerateMipmap", ctx.get_error()) {
            Ok(()) => {},
            Err(e) => {
                // The upload failed partway: release the fresh handle before
                // reporting, so a failed load leaks nothing.
                let _ = texture.dispose(ctx);
                return Err(e);
            },
        }
        Ok(texture)
    }

    /// Release the texture's driver handle. The texture is consumed: a
    /// released handle cannot be used again.
    pub fn dispose<C: GraphicsContext>(self, ctx: &mut C) -> (r: Result<(), GlError>) {
        ctx.delete_texture(self.id);
        gl_check("DeleteTextures", ctx.get_error())
    }

    /// Release a texture handle on a construction path that failed partway:
    /// the failure already carries its own error, so the outcome of the
    /// delete is consumed and not propagated.
    fn release_texture<C: GraphicsContext>(ctx: &mut C, id: u32) {
        ctx.delete_texture(id);
        let _ = gl_check("DeleteTextures", ctx.get_error());
    }

    pub fn id(&self) -> (r: u32)
        ensures
            r == self.spec_id(),
    {
        self.id
    }

    /// Make this texture current on the active texture unit.
    pub fn bind<C: GraphicsContext>(&self, ctx: &mut C) -> (r: Result<(), GlError>) {
        ctx.bind_texture(GL_TEXTURE_2D, self.id);
        gl_check("BindTexture", ctx.get_error())
    }

    /// Rebind the texture and re-apply one sampling field on the driver
    /// object. The texture stays bound afterwards: binding state does not
    /// survive a mutator call.
    pub fn set_wrap_s<C: GraphicsContext>(&mut self, ctx: &mut C, value: u32) -> (r: Result<
        (),
        GlError,
    >)
        ensures
            r is Ok ==> final(self).spec_state() == (
                old(self).spec_id(),
                old(self).spec_width(),
                old(self).spec_height(),
                (
                    old(self).spec_internal_format(),
                    old(self).spec_format(),
                    value,
                    old(self).spec_wrap_t(),
                    old(self).spec_filter_min(),
                    old(self).spec_filter_max(),
                ),
            ),
            r is Err ==> *final(self) == *old(self),
    {
        match self.apply_parameter(ctx, GL_TEXTURE_WRAP_S, value) {
            Ok(()) => {},
            Err(e) => {
                return Err(e);
            },
        }
        self.wrap_s = value;
        Ok(())
    }

    /// Rebind the texture and re-apply one sampling field on the driver
    /// object. The texture stays bound afterwards: binding state does not
    /// survive a mutator call.
    pub fn set_wrap_t<C: GraphicsContext>(&mut self, ctx: &mut C, value: u32) -> (r: Result<
        (),
        GlError,
    >)
        ensures
            r is Ok ==> final(self).spec_state() == (
                old(self).spec_id(),
                old(self).spec_width(),
                old(self).spec_height(),
                (
                    old(self).spec_internal_format(),
                    old(self).spec_format(),
                    old(self).spec_wrap_s(),
                    value,
                    old(self).spec_filter_min(),
                    old(self).spec_filter_max(),
                ),
            ),
            r is Err ==> *final(self) == *old(self),
    {
        match self.apply_parameter(ctx, GL_TEXTURE_WRAP_T, value) {
            Ok(()) => {},
            Err(e) => {
                return Err(e);
            },
        }
        self.wrap_t = value;
        Ok(())
    }

    /// Rebind the texture and re-apply one sampling field on the driver
    /// object. The texture stays bound afterwards: binding state does not
    /// survive a mutator call.
    pub fn set_filter_min<C: GraphicsContext>(&mut self, ctx: &mut C, value: u32) -> (r: Result<
        (),
        GlError,
    >)
        ensures
            r is Ok ==> final(self).spec_state() == (
                old(self).spec_id(),
                old(self).spec_width(),
                old(self).spec_height(),
                (
                    old(self).spec_internal_format(),
                    old(self).spec_format(),
                    old(self).spec_wrap_s(),
                    old(self).spec_wrap_t(),
                    value,
                    old(self).spec_filter_max(),
                ),
            ),
            r is Err ==> *final(self) == *old(self),
    {
        match self.apply_parameter(ctx, GL_TEXTURE_MIN_FILTER, value) {
            Ok(()) => {},
            Err(e) => {
                return Err(e);
            },
        }
        self.filter_min = value;
        Ok(())
    }

    /// Rebind the texture and re-apply one sampling field on the driver
    /// object. The texture stays bound afterwards: binding state does not
    /// survive a mutator call.
    pub fn set_filter_max<C: GraphicsContext>(&mut self, ctx: &mut C, value: u32) -> (r: Result<
        (),
        GlError,
    >)
        ensures
            r is Ok ==> final(self).spec_state() == (
                old(self).spec_id(),
                old(self).spec_width(),
                old(self).spec_height(),
                (
                    old(self).spec_internal_format(),
                    old(self).spec_format(),
                    old(self).spec_wrap_s(),
                    old(self).spec_wrap_t(),
                    old(self).spec_filter_min(),
                    value,
                ),
            ),
            r is Err ==> *final(self) == *old(self),
    {
        match self.apply_parameter(ctx, GL_TEXTURE_MAG_FILTER, value) {
            Ok(()) => {},
            Err(e) => {
                return Err(e);
            },
        }
        self.filter_max = value;
        Ok(())
    }

    /// Rebind the texture and re-apply both wrap fields.
    pub fn set_wrap<C: GraphicsContext>(&mut self, ctx: &mut C, s: u32, t: u32) -> (r: Result<
        (),
        GlError,
    >)
        ensures
            r is Ok ==> final(self).spec_state() == (
                old(self).spec_id(),
                old(self).spec_width(),
                old(self).spec_height(),
                (
                    old(self).spec_internal_format(),
                    old(self).spec_format(),
                    s,
                    t,
                    old(self).spec_filter_min(),
                    old(self).spec_filter_max(),
                ),
            ),
            final(self).spec_id() == old(self).spec_id() && final(self).spec_width() == old(
                self,
            ).spec_width() && final(self).spec_height() == old(self).spec_height(),
    {
        match self.set_wrap_s(ctx, s) {
            Ok(()) => {},
            Err(e) => {
                return Err(e);
            },
        }
        self.set_wrap_t(ctx, t)
    }

    /// Rebind the texture and re-apply both filter fields.
    pub fn set_filter<C: GraphicsContext>(&mut self, ctx: &mut C, min: u32, max: u32) -> (r: Result<
        (),
        GlError,
    >)
        ensures
            r is Ok ==> final(self).spec_state() == (
                old(self).spec_id(),
                old(self).spec_width(),
                old(self).spec_height(),
                (
                    old(self).spec_internal_format(),
                    old(self).spec_format(),
                    old(self).spec_wrap_s(),
                    old(self).spec_wrap_t(),
                    min,
                    max,
                ),
            ),
            final(self).spec_id() == old(self).spec_id() && final(self).spec_width() == old(
                self,
            ).spec_width() && final(self).spec_height() == old(self).spec_height(),
    {
        match self.set_filter_min(ctx, min) {
            Ok(()) => {},
            Err(e) => {
                return Err(e);
            },
        }
        self.set_filter_max(ctx, max)
    }

    /// Bind the texture and set one sampling parameter on the driver object.
    fn apply_parameter<C: GraphicsContext>(&self, ctx: &mut C, pname: u32, value: u32) -> (r:
        Result<(), GlError>) {
        ctx.bind_texture(GL_TEXTURE_2D, self.id);
        match gl_check("BindTexture", ctx.get_error()) {
            Ok(()) => {},
            Err(e) => {
                return Err(e);
            },
        }
        ctx.tex_parameter_i(GL_TEXTURE_2D, pname, value);
        gl_check("TexParameteri", ctx.get_error())
    }
}

impl TextureTrait for Texture {
    fn width(&self) -> (r: u32)
        ensures
            r == self.spec_width(),
    {
        self.width
    }

    fn height(&self) -> (r: u32)
        ensures
            r == self.spec_height(),
    {
        self.height
    }
}

} // verus!
