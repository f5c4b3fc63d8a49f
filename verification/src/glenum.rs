use vstd::prelude::*;

verus! {

/// Reads the constant `gl::FLOAT`, which the OpenGL registry fixes at
/// `0x1406`.
#[verifier::external_body]
pub(crate) fn gl_float() -> (e: u32)
    ensures
        e == 0x1406,
{
    gl::FLOAT
}

/// Reads the constant `gl::INT`, which the OpenGL registry fixes at
/// `0x1404`.
#[verifier::external_body]
pub(crate) fn gl_int() -> (e: u32)
    ensures
        e == 0x1404,
{
    gl::INT
}

/// Reads the constant `gl::UNSIGNED_INT`, which the OpenGL registry fixes at
/// `0x1405`.
#[verifier::external_body]
pub(crate) fn gl_unsigned_int() -> (e: u32)
    ensures
        e == 0x1405,
{
    gl::UNSIGNED_INT
}

/// Reads the constant `gl::BYTE`, which the OpenGL registry fixes at
/// `0x1400`.
#[verifier::external_body]
pub(crate) fn gl_byte() -> (e: u32)
    ensures
        e == 0x1400,
{
    gl::BYTE
}

/// Reads the constant `gl::UNSIGNED_BYTE`, which the OpenGL registry fixes at
/// `0x1401`.
#[verifier::external_body]
pub(crate) fn gl_unsigned_byte() -> (e: u32)
    ensures
        e == 0x1401,
{
    gl::UNSIGNED_BYTE
}

/// Reads the constant `gl::ARRAY_BUFFER`, which the OpenGL registry fixes at
/// `0x8892`.
#[verifier::external_body]
pub(crate) fn gl_array_buffer() -> (e: u32)
    ensures
        e == 0x8892,
{
    gl::ARRAY_BUFFER
}

/// Reads the constant `gl::ELEMENT_ARRAY_BUFFER`, which the OpenGL registry fixes at
/// `0x8893`.
#[verifier::external_body]
pub(crate) fn gl_element_array_buffer() -> (e: u32)
    ensures
        e == 0x8893,
{
    gl::ELEMENT_ARRAY_BUFFER
}

/// Reads the constant `gl::STATIC_DRAW`, which the OpenGL registry fixes at
/// `0x88E4`.
#[verifier::external_body]
pub(crate) fn gl_static_draw() -> (e: u32)
    ensures
        e == 0x88E4,
{
    gl::STATIC_DRAW
}

/// Reads the constant `gl::DYNAMIC_DRAW`, which the OpenGL registry fixes at
/// `0x88E8`.
#[verifier::external_body]
pub(crate) fn gl_dynamic_draw() -> (e: u32)
    ensures
        e == 0x88E8,
{
    gl::DYNAMIC_DRAW
}

/// Reads the constant `gl::NEAREST`, which the OpenGL registry fixes at
/// `0x2600`.
#[verifier::external_body]
pub(crate) fn gl_nearest() -> (e: u32)
    ensures
        e == 0x2600,
{
    gl::NEAREST
}

/// Reads the constant `gl::LINEAR`, which the OpenGL registry fixes at
/// `0x2601`.
#[verifier::external_body]
pub(crate) fn gl_linear() -> (e: u32)
    ensures
        e == 0x2601,
{
    gl::LINEAR
}

/// Reads the constant `gl::NEAREST_MIPMAP_LINEAR`, which the OpenGL registry fixes at
/// `0x2702`.
#[verifier::external_body]
pub(crate) fn gl_nearest_mipmap_linear() -> (e: u32)
    ensures
        e == 0x2702,
{
    gl::NEAREST_MIPMAP_LINEAR
}

/// Reads the constant `gl::LINEAR_MIPMAP_LINEAR`, which the OpenGL registry fixes at
/// `0x2703`.
#[verifier::external_body]
pub(crate) fn gl_linear_mipmap_linear() -> (e: u32)
    ensures
        e == 0x2703,
{
    gl::LINEAR_MIPMAP_LINEAR
}

/// Reads the constant `gl::REPEAT`, which the OpenGL registry fixes at
/// `0x2901`.
#[verifier::external_body]
pub(crate) fn gl_repeat() -> (e: u32)
    ensures
        e == 0x2901,
{
    gl::REPEAT
}

/// Reads the constant `gl::MIRRORED_REPEAT`, which the OpenGL registry fixes at
/// `0x8370`.
#[verifier::external_body]
pub(crate) fn gl_mirrored_repeat() -> (e: u32)
    ensures
        e == 0x8370,
{
    gl::MIRRORED_REPEAT
}

/// Reads the constant `gl::CLAMP_TO_EDGE`, which the OpenGL registry fixes at
/// `0x812F`.
#[verifier::external_body]
pub(crate) fn gl_clamp_to_edge() -> (e: u32)
    ensures
        e == 0x812F,
{
    gl::CLAMP_TO_EDGE
}

/// Reads the constant `gl::CLAMP_TO_BORDER`, which the OpenGL registry fixes at
/// `0x812D`.
#[verifier::external_body]
pub(crate) fn gl_clamp_to_border() -> (e: u32)
    ensures
        e == 0x812D,
{
    gl::CLAMP_TO_BORDER
}

} // verus!
