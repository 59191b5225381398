//! The explicit render-context collaborator.
//!
//! Every low-level graphics call the core makes goes through the
//! [`GraphicsContext`] trait. The core never touches the driver itself: it
//! decides *which* calls to make, in *which* order, with *which* arguments,
//! and interprets the plain values that come back. An implementation of the
//! trait (a real driver binding, or an instrumented fake in tests) performs
//! the calls. Binding order thereby becomes an explicit contract between the
//! core and its collaborator instead of an implicit side effect.
//!
//! Values destined for 32-bit floating-point driver state are carried either
//! as whole numbers in pixel units (vertex data, which the collaborator
//! converts to its float vertex format) or as raw IEEE-754 bit patterns
//! (uniform scalars, which the caller of the core produces and the
//! collaborator reinterprets); the core itself treats both as opaque.

use vstd::prelude::*;

verus! {

pub const GL_NO_ERROR: u32 = 0;

pub const GL_INVALID_ENUM: u32 = 0x0500;

pub const GL_INVALID_VALUE: u32 = 0x0501;

pub const GL_INVALID_OPERATION: u32 = 0x0502;

pub const GL_OUT_OF_MEMORY: u32 = 0x0505;

pub const GL_INVALID_FRAMEBUFFER_OPERATION: u32 = 0x0506;

pub const GL_TRIANGLES: u32 = 0x0004;

pub const GL_SRC_ALPHA: u32 = 0x0302;

pub const GL_ONE_MINUS_SRC_ALPHA: u32 = 0x0303;

pub const GL_BLEND: u32 = 0x0BE2;

pub const GL_UNPACK_ALIGNMENT: u32 = 0x0CF5;

pub const GL_TEXTURE_2D: u32 = 0x0DE1;

pub const GL_RED: u32 = 0x1903;

pub const GL_RGB: u32 = 0x1907;

pub const GL_RGBA: u32 = 0x1908;

pub const GL_NEAREST: u32 = 0x2600;

pub const GL_LINEAR: u32 = 0x2601;

pub const GL_LINEAR_MIPMAP_LINEAR: u32 = 0x2703;

pub const GL_TEXTURE_MAG_FILTER: u32 = 0x2800;

pub const GL_TEXTURE_MIN_FILTER: u32 = 0x2801;

pub const GL_TEXTURE_WRAP_S: u32 = 0x2802;

pub const GL_TEXTURE_WRAP_T: u32 = 0x2803;

pub const GL_REPEAT: u32 = 0x2901;

pub const GL_CLAMP_TO_EDGE: u32 = 0x812F;

pub const GL_TEXTURE0: u32 = 0x84C0;

pub const GL_ARRAY_BUFFER: u32 = 0x8892;

pub const GL_STATIC_DRAW: u32 = 0x88E4;

pub const GL_DYNAMIC_DRAW: u32 = 0x88E8;

pub const GL_FRAGMENT_SHADER: u32 = 0x8B30;

pub const GL_VERTEX_SHADER: u32 = 0x8B31;

pub const GL_COMPILE_STATUS: u32 = 0x8B81;

pub const GL_LINK_STATUS: u32 = 0x8B82;

pub const GL_INFO_LOG_LENGTH: u32 = 0x8B84;

/// The graphics collaborator: function-pointer-level access to the driver.
///
/// The methods mirror the raw calls one for one and carry no contracts: the
/// core assumes nothing about what a driver returns and states its own
/// guarantees for every possible reply. After each call the core reads the
/// error state through [`GraphicsContext::get_error`], which consumes all
/// errors raised since the previous read.
///
/// Conventions an implementation must follow:
/// - `*_px` methods receive vertex data as whole numbers in pixel units; the
///   implementation converts each value to its 32-bit float equivalent before
///   handing it to the driver.
/// - `uniform_*` scalar methods receive raw IEEE-754 single-precision bit
///   patterns and must reinterpret them, not convert numerically.
/// - `uniform_matrix_ortho` receives the bounds of an orthographic projection
///   (left, right, bottom, top, near, far, in pixel units) and must upload
///   the standard column-major orthographic matrix for those bounds.
/// - `tex_image_2d` must read no more than `pixels.len()` bytes.
pub trait GraphicsContext {
    fn create_shader(&mut self, kind: u32) -> u32;

    fn shader_source(&mut self, shader: u32, source: &str);

    fn compile_shader(&mut self, shader: u32);

    fn get_shader_iv(&mut self, shader: u32, pname: u32) -> i32;

    fn get_shader_info_log(&mut self, shader: u32, max_len: i32) -> String;

    fn create_program(&mut self) -> u32;

    fn attach_shader(&mut self, program: u32, shader: u32);

    fn link_program(&mut self, program: u32);

    fn detach_shader(&mut self, program: u32, shader: u32);

    fn get_program_iv(&mut self, program: u32, pname: u32) -> i32;

    fn get_program_info_log(&mut self, program: u32, max_len: i32) -> String;

    fn use_program(&mut self, program: u32);

    fn get_uniform_location(&mut self, program: u32, name: &str) -> i32;

    fn uniform_1f(&mut self, location: i32, v_bits: u32);

    fn uniform_1i(&mut self, location: i32, v: i32);

    fn uniform_3f(&mut self, location: i32, x_bits: u32, y_bits: u32, z_bits: u32);

    fn uniform_4f(&mut self, location: i32, x_bits: u32, y_bits: u32, z_bits: u32, w_bits: u32);

    fn uniform_matrix_4fv(&mut self, location: i32, transpose: bool, value_bits: &[u32]);

    fn uniform_matrix_ortho(
        &mut self,
        location: i32,
        left: i64,
        right: i64,
        bottom: i64,
        top: i64,
        near: i64,
        far: i64,
    );

    fn gen_vertex_array(&mut self) -> u32;

    fn bind_vertex_array(&mut self, vao: u32);

    fn gen_buffer(&mut self) -> u32;

    fn bind_buffer(&mut self, target: u32, buffer: u32);

    fn buffer_data_px(&mut self, target: u32, data: &[i64], usage: u32);

    fn buffer_data_uninit(&mut self, target: u32, float_count: usize, usage: u32);

    fn buffer_sub_data_px(&mut self, target: u32, float_offset: usize, data: &[i64]);

    fn vertex_attrib_pointer(
        &mut self,
        index: u32,
        size: i32,
        stride_floats: i32,
        offset_floats: usize,
    );

    fn enable_vertex_attrib_array(&mut self, index: u32);

    fn gen_texture(&mut self) -> u32;

    fn active_texture(&mut self, unit: u32);

    fn bind_texture(&mut self, target: u32, texture: u32);

    fn tex_image_2d(
        &mut self,
        target: u32,
        internal_format: u32,
        width: u32,
        height: u32,
        format: u32,
        pixels: &[u8],
    );

    fn tex_parameter_i(&mut self, target: u32, pname: u32, value: u32);

    fn generate_mipmap(&mut self, target: u32);

    fn pixel_store_i(&mut self, pname: u32, value: i32);

    fn enable(&mut self, cap: u32);

    fn disable(&mut self, cap: u32);

    fn blend_func(&mut self, sfactor: u32, dfactor: u32);

    fn draw_arrays(&mut self, mode: u32, first: i32, count: i32);

    fn delete_shader(&mut self, shader: u32);

    fn delete_program(&mut self, program: u32);

    fn delete_buffer(&mut self, buffer: u32);

    fn delete_vertex_array(&mut self, vao: u32);

    fn delete_texture(&mut self, texture: u32);

    fn get_error(&mut self) -> u32;
}

} // verus!
