use crate::glenum::gl_byte;
use crate::glenum::gl_float;
use crate::glenum::gl_int;
use crate::glenum::gl_unsigned_byte;
use crate::glenum::gl_unsigned_int;
use vstd::prelude::*;

verus! {

/// The element types a vertex attribute can be made of.
#[derive(Clone, Copy, Debug, PartialEq, Eq, Structural)]
pub enum Type {
    Float,
    Int,
    Uint,
    Byte,
    Ubyte,
}

impl Type {
    /// The OpenGL enumerant that names this element type.
    pub open spec fn gl_enum(self) -> u32 {
        match self {
            Type::Float => 0x1406,
            Type::Int => 0x1404,
            Type::Uint => 0x1405,
            Type::Byte => 0x1400,
            Type::Ubyte => 0x1401,
        }
    }

    /// The number of bytes one element of this type takes in a buffer.
    pub open spec fn byte_size(self) -> nat {
        match self {
            Type::Float => 4,
            Type::Int => 4,
            Type::Uint => 4,
            Type::Byte => 1,
            Type::Ubyte => 1,
        }
    }

    /// The OpenGL enumerant that names this element type.
    pub fn to_gl_type_enum(&self) -> (e: u32)
        ensures
            e == self.gl_enum(),
    {
        match self {
            Type::Float => gl_float(),
            Type::Int => gl_int(),
            Type::Uint => gl_unsigned_int(),
            Type::Byte => gl_byte(),
            Type::Ubyte => gl_unsigned_byte(),
        }
    }

    /// The number of bytes one element of this type takes in a buffer.
    pub fn size_in_bytes(&self) -> (n: usize)
        ensures
            n == self.byte_size(),
    {
        match self {
            Type::Float => 4,
            Type::Int => 4,
            Type::Uint => 4,
            Type::Byte => 1,
            Type::Ubyte => 1,
        }
    }
}

} // verus!
