//! Shader-stage compilation, program linking and uniform binding.
//!
//! Compile and link status are checked through a status side-channel (not the
//! generic error state), and their diagnostics are fetched with the
//! query-length / allocate / fill pattern behind
//! [`GraphicsContext::get_shader_info_log`]. A program caches every uniform
//! location it resolves: uniform names are fixed string literals for the
//! lifetime of a program, so an entry, once resolved, stays valid.

use vstd::prelude::*;

use crate::context::GL_COMPILE_STATUS;
use crate::context::GL_FRAGMENT_SHADER;
use crate::context::GL_INFO_LOG_LENGTH;
use crate::context::GL_LINK_STATUS;
use crate::context::GL_VERTEX_SHADER;
use crate::context::GraphicsContext;
use crate::utils::GlError;
use crate::utils::gl_check;
use crate::utils::interpret_create;

verus! {

/// Everything that can go wrong around shaders: a failed graphics call, a
/// uniform name the active program does not know, or a stage/program whose
/// compilation/linking was rejected with a diagnostic log.
#[derive(Debug, Clone, PartialEq, Eq)]
pub enum ShaderError {
    GlError { error: GlError },
    UniformNotFound { name: String },
    CompileError { log: String },
    LinkError { log: String },
}

#[derive(Copy, Clone, Debug, PartialEq, Eq, Structural)]
pub enum ShaderType {
    Fragment,
    Vertex,
}

pub open spec fn spec_gl_kind(kind: ShaderType) -> u32 {
    match kind {
        ShaderType::Fragment => GL_FRAGMENT_SHADER,
        ShaderType::Vertex => GL_VERTEX_SHADER,
    }
}

impl ShaderType {
    /// The driver's numeric name for this shader stage.
    pub fn gl_kind(self) -> (r: u32)
        ensures
            r == spec_gl_kind(self),
    {
        match self {
            ShaderType::Fragment => GL_FRAGMENT_SHADER,
            ShaderType::Vertex => GL_VERTEX_SHADER,
        }
    }
}

/// A piece of shader source text on its way to the driver.
pub struct ShaderSource<'a>(&'a str);

impl<'a> View for ShaderSource<'a> {
    type V = Seq<char>;

    closed spec fn view(&self) -> Seq<char> {
        self.0@
    }
}

impl<'a> ShaderSource<'a> {
    pub fn new(source: &'a str) -> (s: Self)
        ensures
            s@ == source@,
    {
        ShaderSource(source)
    }

    pub fn into_inner(self) -> (r: &'a str)
        ensures
            r@ == self@,
    {
        self.0
    }
}

/// One compiled shader stage: a non-zero driver handle, the stage kind, and
/// the path it was loaded from, if any.
pub struct Shader {
    id: u32,
    kind: ShaderType,
    source_location: Option<String>,
}

/// Turn a failed status query into the matching error: a link failure for a
/// program, a compile failure for a stage, each carrying the diagnostic log.
pub fn status_error(is_program: bool, log: String) -> (r: ShaderError)
    ensures
        r == (if is_program {
            ShaderError::LinkError { log }
        } else {
            ShaderError::CompileError { log }
        }),
{
    if is_program {
        ShaderError::LinkError { log }
    } else {
        ShaderError::CompileError { log }
    }
}

/// Interpret a compile or link status reply: the operation succeeded exactly
/// when the status is non-zero; a zero status is the failure described by
/// the fetched diagnostic log, as a link error for a program and a compile
/// error for a stage, carrying that log unchanged.
pub fn interpret_status(success: i32, is_program: bool, log: String) -> (r: Result<
    (),
    ShaderError,
>)
    ensures
        r is Ok <==> success != 0,
        success == 0 ==> r == Err::<(), ShaderError>(
            if is_program {
                ShaderError::LinkError { log }
            } else {
                ShaderError::CompileError { log }
            },
        ),
{
    if success == 0 {
        Err(status_error(is_program, log))
    } else {
        Ok(())
    }
}

/// Query the compile or link status of `object` and interpret it through
/// [`interpret_status`]: on failure the diagnostic log is fetched first (its
/// length queried, then a buffer of exactly that size filled); on success no
/// log is touched.
pub fn check_shader_error<C: GraphicsContext>(
    ctx: &mut C,
    object: u32,
    flag: u32,
    is_program: bool,
) -> (r: Result<(), ShaderError>)
    ensures
        r matches Err(e) ==> (is_program ==> e matches ShaderError::LinkError { .. }) && (
        !is_program ==> e matches ShaderError::CompileError { .. }),
{
    let success = if is_program {
        ctx.get_program_iv(object, flag)
    } else {
        ctx.get_shader_iv(object, flag)
    };
    let log = if success == 0 {
        let len = if is_program {
            ctx.get_program_iv(object, GL_INFO_LOG_LENGTH)
        } else {
            ctx.get_shader_iv(object, GL_INFO_LOG_LENGTH)
        };
        if is_program {
            ctx.get_program_info_log(object, len)
        } else {
            ctx.get_shader_info_log(object, len)
        }
    } else {
        String::new()
    };
    interpret_status(success, is_program, log)
}

impl Shader {
    pub closed spec fn spec_id(&self) -> u32 {
        self.id
    }

    pub closed spec fn spec_kind(&self) -> ShaderType {
        self.kind
    }

    pub closed spec fn spec_source_location(&self) -> Option<String> {
        self.source_location
    }

    /// Compile a shader stage from source text. On success the stage's
    /// handle is non-zero and its kind is the requested one; on failure the
    /// error is either the failed graphics call or the compiler's diagnostic.
    pub fn from_source<C: GraphicsContext>(
        ctx: &mut C,
        kind: ShaderType,
        source: &str,
    ) -> (r: Result<Shader, ShaderError>)
        ensures
            r matches Ok(s) ==> s.spec_id() != 0 && s.spec_kind() == kind
                && s.spec_source_location() is None,
            r matches Err(e) ==> (e matches ShaderError::GlError { .. } || e matches
                ShaderError::CompileError { .. }),
    {
        let handle = ctx.create_shader(kind.gl_kind());
        let code = ctx.get_error();
        // A zero handle means the create call itself failed, whatever the
        // error state says: interpret_create reports it, so that a live
        // Shader always holds a non-zero handle.
        let id = match interpret_create(handle, code, "CreateShader") {
            Ok(h) => h,
            Err(e) => {
                return Err(ShaderError::GlError { error: e });
            },
        };
        let shader_source = ShaderSource::new(source);
        ctx.shader_source(id, shader_source.into_inner());
        // The error state is consumed after every call; here the outcome is
        // deliberately not propagated, because the status check below catches
        // a rejected source with a far better diagnostic.
        let _ = gl_check("ShaderSource", ctx.get_error());
        ctx.compile_shader(id);
        let _ = gl_check("CompileShader", ctx.get_error());

        match check_shader_error(ctx, id, GL_COMPILE_STATUS, false) {
            Ok(()) => {},
            Err(e) => {
                // The stage was rejected: release its handle before
                // reporting, so a failed compile leaks nothing.
                ctx.delete_shader(id);
                let _ = gl_check("DeleteShader", ctx.get_error());
                return Err(e);
            },
        }

        Ok(Shader { id, kind, source_location: None })
    }

    pub fn id(&self) -> (r: u32)
        ensures
            r == self.spec_id(),
    {
        self.id
    }

    pub fn kind(&self) -> (r: ShaderType)
        ensures
            r == self.spec_kind(),
    {
        self.kind
    }

    pub fn source_location(&self) -> (r: &Option<String>)
        ensures
            *r == self.spec_source_location(),
    {
        &self.source_location
    }

    /// Record the path this stage's source came from. Compiling from text
    /// leaves the location empty; a loader that read the text from a file
    /// attaches the path here.
    pub fn with_source_location(self, path: String) -> (r: Shader)
        ensures
            r.spec_id() == self.spec_id(),
            r.spec_kind() == self.spec_kind(),
            r.spec_source_location() == Some(path),
    {
        Shader { source_location: Some(path), ..self }
    }

    /// Release the stage's driver handle. The stage is consumed: a released
    /// handle cannot be used again.
    pub fn dispose<C: GraphicsContext>(self, ctx: &mut C) -> (r: Result<(), GlError>) {
        ctx.delete_shader(self.id);
        gl_check("DeleteShader", ctx.get_error())
    }
}

/// A linked shader program: a non-zero driver handle plus the cache of
/// uniform locations resolved so far.
pub struct ShaderProgram {
    id: u32,
    uniform_locations: vstd::hash_map::StringHashMap<i32>,
}

/// How a program's uniform-location cache may change across one call: either
/// untouched, or extended with exactly the looked-up name.
pub open spec fn cache_extended(
    pre: Map<Seq<char>, i32>,
    post: Map<Seq<char>, i32>,
    name: Seq<char>,
) -> bool {
    post == pre || (exists|loc: i32| post == pre.insert(name, loc))
}

impl ShaderProgram {
    pub closed spec fn spec_id(&self) -> u32 {
        self.id
    }

    pub closed spec fn spec_locations(&self) -> Map<Seq<char>, i32> {
        self.uniform_locations@
    }

    /// Link the given compiled stages into a program: attach every stage,
    /// link, check the link status, and detach the stages again. The stages
    /// are not retained; on success the program starts with an empty uniform
    /// cache and a non-zero handle.
    pub fn from_shaders<C: GraphicsContext>(ctx: &mut C, shaders: &[Shader]) -> (r: Result<
        ShaderProgram,
        ShaderError,
    >)
        ensures
            r matches Ok(p) ==> p.spec_id() != 0 && p.spec_locations() == Map::<
                Seq<char>,
                i32,
            >::empty(),
            r matches Err(e) ==> (e matches ShaderError::GlError { .. } || e matches
                ShaderError::LinkError { .. }),
    {
        let handle = ctx.create_program();
        let code = ctx.get_error();
        let id = match interpret_create(handle, code, "CreateProgram") {
            Ok(h) => h,
            Err(e) => {
                return Err(ShaderError::GlError { error: e });
            },
        };

        for i in 0..shaders.len() {
            ctx.attach_shader(id, shaders[i].id());
            match gl_check("AttachShader", ctx.get_error()) {
                Ok(()) => {},
                Err(e) => {
                    Self::release_program(ctx, id);
                    return Err(ShaderError::GlError { error: e });
                },
            }
        }

        ctx.link_program(id);
        let _ = gl_check("LinkProgram", ctx.get_error());

        match check_shader_error(ctx, id, GL_LINK_STATUS, true) {
            Ok(()) => {},
            Err(e) => {
                Self::release_program(ctx, id);
                return Err(e);
            },
        }

        for i in 0..shaders.len() {
            ctx.detach_shader(id, shaders[i].id());
            match gl_check("DetachShader", ctx.get_error()) {
                Ok(()) => {},
                Err(e) => {
                    Self::release_program(ctx, id);
                    return Err(ShaderError::GlError { error: e });
                },
            }
        }

        Ok(ShaderProgram { id, uniform_locations: vstd::hash_map::StringHashMap::new() })
    }

    pub fn id(&self) -> (r: u32)
        ensures
            r == self.spec_id(),
    {
        self.id
    }

    /// Make this program the driver's current program. Callers must do this
    /// before setting any uniform on it.
    pub fn use_program<C: GraphicsContext>(&self, ctx: &mut C) {
        ctx.use_program(self.id);
        let _ = gl_check("UseProgram", ctx.get_error());
    }

    /// Release the program's driver handle. The program is consumed: a
    /// released handle cannot be used again.
    pub fn dispose<C: GraphicsContext>(self, ctx: &mut C) -> (r: Result<(), GlError>) {
        ctx.delete_program(self.id);
        gl_check("DeleteProgram", ctx.get_error())
    }

    /// Release a program handle on a construction path that failed partway:
    /// the failure already carries its own error, so the outcome of the
    /// delete is consumed and not propagated.
    fn release_program<C: GraphicsContext>(ctx: &mut C, id: u32) {
        ctx.delete_program(id);
        let _ = gl_check("DeleteProgram", ctx.get_error());
    }

    /// Interpret the driver's reply to a uniform-name lookup: a reply of -1
    /// means the active program has no uniform of that name, reported as
    /// `UniformNotFound` carrying exactly the requested name; any other
    /// reply is the resolved location, returned as it stands.
    pub fn interpret_location(location: i32, name: &str) -> (r: Result<i32, ShaderError>)
        ensures
            r is Err <==> location == -1,
            r matches Ok(l) ==> l == location,
            r matches Err(e) ==> (e matches ShaderError::UniformNotFound { name: n } && n@
                == name@),
    {
        if location == -1 {
            return Err(ShaderError::UniformNotFound { name: name.to_owned() });
        }
        Ok(location)
    }

    /// Resolve a uniform name to its location, consulting the cache first.
    /// A cached name is answered without any graphics call; an unknown name
    /// is asked of the driver, and a reply of -1 means the active program has
    /// no uniform of that name, reported as `UniformNotFound` carrying
    /// exactly the requested name.
    pub fn get_uniform_location<C: GraphicsContext>(&mut self, ctx: &mut C, name: &str) -> (r:
        Result<i32, ShaderError>)
        ensures
            final(self).spec_id() == old(self).spec_id(),
            old(self).spec_locations().contains_key(name@) ==> {
                &&& r == Ok::<i32, ShaderError>(old(self).spec_locations()[name@])
                &&& final(self).spec_locations() == old(self).spec_locations()
                &&& *final(ctx) == *old(ctx)
            },
            r matches Ok(loc) ==> (old(self).spec_locations().contains_key(name@)
                || final(self).spec_locations() == old(self).spec_locations().insert(name@, loc)),
            r is Ok ==> final(self).spec_locations().contains_key(name@),
            r matches Err(e) ==> {
                &&& !old(self).spec_locations().contains_key(name@)
                &&& final(self).spec_locations() == old(self).spec_locations()
                &&& (e matches ShaderError::UniformNotFound { name: n } && n@ == name@)
            },
    {
        match self.uniform_locations.get(name) {
            Some(loc) => {
                return Ok(*loc);
            },
            None => {},
        }

        let reply = ctx.get_uniform_location(self.id, name);
        let location = match Self::interpret_location(reply, name) {
            Ok(l) => l,
            Err(e) => {
                return Err(e);
            },
        };

        self.uniform_locations.insert(name.to_owned(), location);
        Ok(location)
    }

    /// Upload a single float (given as its IEEE-754 bit pattern) to the named
    /// uniform of the active program.
    pub fn set_uniform_1f<C: GraphicsContext>(
        &mut self,
        ctx: &mut C,
        name: &str,
        value_bits: u32,
    ) -> (r: Result<(), ShaderError>)
        ensures
            final(self).spec_id() == old(self).spec_id(),
            cache_extended(old(self).spec_locations(), final(self).spec_locations(), name@),
            old(self).spec_locations().contains_key(name@) ==> final(self).spec_locations() == old(
                self,
            ).spec_locations(),
            r is Ok ==> final(self).spec_locations().contains_key(name@),
            r matches Err(e) ==> ((e matches ShaderError::UniformNotFound { name: n } && n@
                == name@) || e matches ShaderError::GlError { .. }),
            r matches Err(e) ==> (!old(self).spec_locations().contains_key(name@) || e matches
                ShaderError::GlError { .. }),
    {
        let location = match self.get_uniform_location(ctx, name) {
            Ok(l) => l,
            Err(e) => {
                return Err(e);
            },
        };
        ctx.uniform_1f(location, value_bits);
        match gl_check("Uniform1f", ctx.get_error()) {
            Ok(()) => Ok(()),
            Err(e) => Err(ShaderError::GlError { error: e }),
        }
    }

    /// Upload a single integer to the named uniform of the active program.
    pub fn set_uniform_1i<C: GraphicsContext>(&mut self, ctx: &mut C, name: &str, value: i32) -> (r:
        Result<(), ShaderError>)
        ensures
            final(self).spec_id() == old(self).spec_id(),
            cache_extended(old(self).spec_locations(), final(self).spec_locations(), name@),
            old(self).spec_locations().contains_key(name@) ==> final(self).spec_locations() == old(
                self,
            ).spec_locations(),
            r is Ok ==> final(self).spec_locations().contains_key(name@),
            r matches Err(e) ==> ((e matches ShaderError::UniformNotFound { name: n } && n@
                == name@) || e matches ShaderError::GlError { .. }),
            r matches Err(e) ==> (!old(self).spec_locations().contains_key(name@) || e matches
                ShaderError::GlError { .. }),
    {
        let location = match self.get_uniform_location(ctx, name) {
            Ok(l) => l,
            Err(e) => {
                return Err(e);
            },
        };
        ctx.uniform_1i(location, value);
        match gl_check("Uniform1i", ctx.get_error()) {
            Ok(()) => Ok(()),
            Err(e) => Err(ShaderError::GlError { error: e }),
        }
    }

    /// Upload a float triple (IEEE-754 bit patterns) to the named uniform of
    /// the active program.
    pub fn set_uniform_3f<C: GraphicsContext>(
        &mut self,
        ctx: &mut C,
        name: &str,
        value_bits: (u32, u32, u32),
    ) -> (r: Result<(), ShaderError>)
        ensures
            final(self).spec_id() == old(self).spec_id(),
            cache_extended(old(self).spec_locations(), final(self).spec_locations(), name@),
            old(self).spec_locations().contains_key(name@) ==> final(self).spec_locations() == old(
                self,
            ).spec_locations(),
            r is Ok ==> final(self).spec_locations().contains_key(name@),
            r matches Err(e) ==> ((e matches ShaderError::UniformNotFound { name: n } && n@
                == name@) || e matches ShaderError::GlError { .. }),
            r matches Err(e) ==> (!old(self).spec_locations().contains_key(name@) || e matches
                ShaderError::GlError { .. }),
    {
        let location = match self.get_uniform_location(ctx, name) {
            Ok(l) => l,
            Err(e) => {
                return Err(e);
            },
        };
        ctx.uniform_3f(location, value_bits.0, value_bits.1, value_bits.2);
        match gl_check("Uniform3f", ctx.get_error()) {
            Ok(()) => Ok(()),
            Err(e) => Err(ShaderError::GlError { error: e }),
        }
    }

    /// Upload a float quadruple (IEEE-754 bit patterns) to the named uniform
    /// of the active program.
    pub fn set_uniform_4f<C: GraphicsContext>(
        &mut self,
        ctx: &mut C,
        name: &str,
        value_bits: (u32, u32, u32, u32),
    ) -> (r: Result<(), ShaderError>)
        ensures
            final(self).spec_id() == old(self).spec_id(),
            cache_extended(old(self).spec_locations(), final(self).spec_locations(), name@),
            old(self).spec_locations().contains_key(name@) ==> final(self).spec_locations() == old(
                self,
            ).spec_locations(),
            r is Ok ==> final(self).spec_locations().contains_key(name@),
            r matches Err(e) ==> ((e matches ShaderError::UniformNotFound { name: n } && n@
                == name@) || e matches ShaderError::GlError { .. }),
            r matches Err(e) ==> (!old(self).spec_locations().contains_key(name@) || e matches
                ShaderError::GlError { .. }),
    {
        let location = match self.get_uniform_location(ctx, name) {
            Ok(l) => l,
            Err(e) => {
                return Err(e);
            },
        };
        ctx.uniform_4f(location, value_bits.0, value_bits.1, value_bits.2, value_bits.3);
        match gl_check("Uniform4f", ctx.get_error()) {
            Ok(()) => Ok(()),
            Err(e) => Err(ShaderError::GlError { error: e }),
        }
    }

    /// Upload a 4x4 float matrix, given column-major as 16 IEEE-754 bit
    /// patterns, to the named uniform of the active program.
    pub fn set_uniform_mat4<C: GraphicsContext>(
        &mut self,
        ctx: &mut C,
        name: &str,
        value_bits: &[u32],
    ) -> (r: Result<(), ShaderError>)
        requires
            value_bits@.len() == 16,
        ensures
            final(self).spec_id() == old(self).spec_id(),
            cache_extended(old(self).spec_locations(), final(self).spec_locations(), name@),
            old(self).spec_locations().contains_key(name@) ==> final(self).spec_locations() == old(
                self,
            ).spec_locations(),
            r is Ok ==> final(self).spec_locations().contains_key(name@),
            r matches Err(e) ==> ((e matches ShaderError::UniformNotFound { name: n } && n@
                == name@) || e matches ShaderError::GlError { .. }),
            r matches Err(e) ==> (!old(self).spec_locations().contains_key(name@) || e matches
                ShaderError::GlError { .. }),
    {
        let location = match self.get_uniform_location(ctx, name) {
            Ok(l) => l,
            Err(e) => {
                return Err(e);
            },
        };
        ctx.uniform_matrix_4fv(location, false, value_bits);
        match gl_check("UniformMatrix4fv", ctx.get_error()) {
            Ok(()) => Ok(()),
            Err(e) => Err(ShaderError::GlError { error: e }),
        }
    }
}

} // verus!
