//! The checked-call layer: every raw graphics call is followed by a read of
//! the driver's error state, and a non-success code is turned into a
//! structured [`GlError`] through a fixed reason table.

use vstd::prelude::*;

use crate::context::GL_INVALID_ENUM;
use crate::context::GL_INVALID_FRAMEBUFFER_OPERATION;
use crate::context::GL_INVALID_OPERATION;
use crate::context::GL_INVALID_VALUE;
use crate::context::GL_NO_ERROR;
use crate::context::GL_OUT_OF_MEMORY;

verus! {

/// A failed graphics call: the method that was invoked, the numeric error
/// code the driver reported, and the human-readable reason for that code.
#[derive(Debug, Clone, PartialEq, Eq)]
pub struct GlError {
    pub method: String,
    pub code: u32,
    pub message: String,
}

/// The fixed reason table: what [`gl_error_string`] returns for each code.
pub open spec fn spec_gl_reason(code: u32) -> Seq<char> {
    if code == GL_INVALID_ENUM {
        "Invalid enum"@
    } else if code == GL_INVALID_VALUE {
        "Invalid value"@
    } else if code == GL_INVALID_OPERATION {
        "Invalid operation"@
    } else if code == GL_INVALID_FRAMEBUFFER_OPERATION {
        "Invalid framebuffer operation"@
    } else if code == GL_OUT_OF_MEMORY {
        "Out of memory"@
    } else {
        "Unknown error"@
    }
}

/// Create a graphics error string from the error code.
pub fn gl_error_string(code: u32) -> (r: &'static str)
    ensures
        r@ == spec_gl_reason(code),
{
    if code == GL_INVALID_ENUM {
        "Invalid enum"
    } else if code == GL_INVALID_VALUE {
        "Invalid value"
    } else if code == GL_INVALID_OPERATION {
        "Invalid operation"
    } else if code == GL_INVALID_FRAMEBUFFER_OPERATION {
        "Invalid framebuffer operation"
    } else if code == GL_OUT_OF_MEMORY {
        "Out of memory"
    } else {
        "Unknown error"
    }
}

/// Interpret the error state read after a graphics call: success exactly when
/// the driver reported no error, and otherwise a [`GlError`] holding the
/// method name, the code, and the reason from the fixed table.
pub fn gl_check(method: &str, code: u32) -> (r: Result<(), GlError>)
    ensures
        r is Ok <==> code == GL_NO_ERROR,
        r matches Err(e) ==> e.method@ == method@ && e.code == code && e.message@
            == spec_gl_reason(code),
{
    if code == GL_NO_ERROR {
        Ok(())
    } else {
        Err(
            GlError {
                method: method.to_owned(),
                code,
                message: gl_error_string(code).to_owned(),
            },
        )
    }
}

/// Interpret the replies of a resource-creating call: the handle it returned
/// and the error state read right after it. The call succeeded exactly when
/// the handle is non-zero and no error was raised; then the handle is
/// returned as it stands. Anything else is the failed call, reported with
/// the method name, the code, and the reason from the fixed table.
pub fn interpret_create(handle: u32, code: u32, method: &str) -> (r: Result<u32, GlError>)
    ensures
        r is Ok <==> (handle != 0 && code == GL_NO_ERROR),
        r matches Ok(h) ==> h == handle,
        r matches Err(e) ==> e.method@ == method@ && e.code == code && e.message@
            == spec_gl_reason(code),
{
    if handle == 0 || code != GL_NO_ERROR {
        return Err(
            GlError {
                method: method.to_owned(),
                code,
                message: gl_error_string(code).to_owned(),
            },
        );
    }
    Ok(handle)
}

} // verus!
