use crate::glenum::gl_array_buffer;
use crate::glenum::gl_dynamic_draw;
use crate::glenum::gl_element_array_buffer;
use crate::glenum::gl_static_draw;
use vstd::prelude::*;

verus! {

/// What a buffer on the graphics device holds.
#[derive(Clone, Copy, Debug, PartialEq, Eq, Structural)]
pub enum BufferType {
    Index,
    Vertex,
}

/// How often the contents of a buffer are expected to change once they are
/// handed to the graphics device.
#[derive(Clone, Copy, Debug, PartialEq, Eq, Structural)]
pub enum DrawType {
    Static,
    Dynamic,
}

impl BufferType {
    /// The OpenGL binding target of such a buffer.
    pub open spec fn gl_enum(self) -> u32 {
        match self {
            BufferType::Index => 0x8893,
            BufferType::Vertex => 0x8892,
        }
    }

    /// The OpenGL binding target of such a buffer: the element array for
    /// indices, the array for vertices.
    pub fn to_gl_enum(&self) -> (e: u32)
        ensures
            e == self.gl_enum(),
    {
        match self {
            BufferType::Index => gl_element_array_buffer(),
            BufferType::Vertex => gl_array_buffer(),
        }
    }
}

impl DrawType {
    /// The OpenGL usage hint of such a buffer.
    pub open spec fn gl_enum(self) -> u32 {
        match self {
            DrawType::Static => 0x88E4,
            DrawType::Dynamic => 0x88E8,
        }
    }

    /// The OpenGL usage hint of such a buffer.
    pub fn to_gl_enum(&self) -> (e: u32)
        ensures
            e == self.gl_enum(),
    {
        match self {
            DrawType::Static => gl_static_draw(),
            DrawType::Dynamic => gl_dynamic_draw(),
        }
    }
}

} // verus!
