//! The OpenGL enumerants that the bookkeeping reads, taken from the `gl`
//! bindings at run time and fixed to their registry values in contracts.

use vstd::prelude::*;

verus! {

/// Registry value of `GL_FLOAT`.
pub const FLOAT: u32 = 0x1406;

/// Registry value of `GL_UNSIGNED_INT`.
pub const UNSIGNED_INT: u32 = 0x1405;

/// Registry value of `GL_UNSIGNED_BYTE`.
pub const UNSIGNED_BYTE: u32 = 0x1401;

/// Registry value of `GL_TRUE`.
pub const TRUE: u8 = 1;

/// Registry value of `GL_FALSE`.
pub const FALSE: u8 = 0;

/// Registry value of `GL_TEXTURE0`.
pub const TEXTURE0: u32 = 0x84C0;

/// Registry value of `GL_VERTEX_SHADER`.
pub const VERTEX_SHADER: u32 = 0x8B31;

/// Registry value of `GL_FRAGMENT_SHADER`.
pub const FRAGMENT_SHADER: u32 = 0x8B30;

/// Reads `gl::FLOAT`. Trusted: the bindings define it as the registry's
/// `GL_FLOAT`, 0x1406.
#[verifier::external_body]
pub(crate) fn float() -> (tag: u32)
    ensures
        tag == FLOAT,
{
    gl::FLOAT
}

/// Reads `gl::UNSIGNED_INT`. Trusted: the bindings define it as the
/// registry's `GL_UNSIGNED_INT`, 0x1405.
#[verifier::external_body]
pub(crate) fn unsigned_int() -> (tag: u32)
    ensures
        tag == UNSIGNED_INT,
{
    gl::UNSIGNED_INT
}

/// Reads `gl::UNSIGNED_BYTE`. Trusted: the bindings define it as the
/// registry's `GL_UNSIGNED_BYTE`, 0x1401.
#[verifier::external_body]
pub(crate) fn unsigned_byte() -> (tag: u32)
    ensures
        tag == UNSIGNED_BYTE,
{
    gl::UNSIGNED_BYTE
}

/// Reads `gl::TRUE`. Trusted: the bindings define it as the registry's
/// `GL_TRUE`, 1.
#[verifier::external_body]
pub(crate) fn gl_true() -> (flag: u8)
    ensures
        flag == TRUE,
{
    gl::TRUE
}

/// Reads `gl::FALSE`. Trusted: the bindings define it as the registry's
/// `GL_FALSE`, 0.
#[verifier::external_body]
pub(crate) fn gl_false() -> (flag: u8)
    ensures
        flag == FALSE,
{
    gl::FALSE
}

/// Reads `gl::TEXTURE0`. Trusted: the bindings define it as the registry's
/// `GL_TEXTURE0`, 0x84C0.
#[verifier::external_body]
pub(crate) fn texture0() -> (unit: u32)
    ensures
        unit == TEXTURE0,
{
    gl::TEXTURE0
}

/// Reads `gl::VERTEX_SHADER`. Trusted: the bindings define it as the
/// registry's `GL_VERTEX_SHADER`, 0x8B31.
#[verifier::external_body]
pub(crate) fn vertex_shader() -> (kind: u32)
    ensures
        kind == VERTEX_SHADER,
{
    gl::VERTEX_SHADER
}

/// Reads `gl::FRAGMENT_SHADER`. Trusted: the bindings define it as the
/// registry's `GL_FRAGMENT_SHADER`, 0x8B30.
#[verifier::external_body]
pub(crate) fn fragment_shader() -> (kind: u32)
    ensures
        kind == FRAGMENT_SHADER,
{
    gl::FRAGMENT_SHADER
}

} // verus!
