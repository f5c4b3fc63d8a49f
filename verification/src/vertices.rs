use crate::types::Type;
use crate::vertex::packed_end;
use crate::vertex::AttributeLayout;
use crate::vertex::Vertex;
use crate::vertex::VertexLayout;
use vstd::prelude::*;

verus! {

/// A vertex of the painter: a position in the plane, a colour with alpha,
/// and the index of the matrix that places the vertex.
///
/// `S` is the number type of coordinates and colour channels. In a buffer
/// the seven numbers follow each other without gaps, the index last, each
/// as a 4-byte float.
#[derive(Copy, Debug, PartialEq)]
pub struct PaintingVertex<S> {
    pub pos: (S, S),
    pub color: (S, S, S, S),
    pub model: usize,
}

/// A vertex of the earlier painter: a position with depth, a colour with
/// alpha, and the index of the matrix that places the vertex.
#[derive(Copy, Debug, PartialEq)]
pub struct DepricPaintingVertex<S> {
    pub pos: (S, S, S),
    pub col: (S, S, S, S),
    pub model: usize,
}

/// A vertex that is a position in space and nothing else.
#[derive(Copy, Debug, PartialEq)]
pub struct Pos<S>(pub S, pub S, pub S);

/// A vertex with a position in space and a colour with alpha.
#[derive(Copy, Debug, PartialEq)]
pub struct PosColor<S> {
    pub pos: (S, S, S),
    pub color: (S, S, S, S),
}

/// A vertex with a position in space, a colour with alpha, and a position
/// on a texture.
#[derive(Copy, Debug, PartialEq)]
pub struct PosColorTex<S> {
    pub pos: (S, S, S),
    pub color: (S, S, S, S),
    pub texcoords: (S, S),
}

impl<S: Copy> Clone for PaintingVertex<S> {
    fn clone(&self) -> (copy: Self)
        ensures
            copy == *self,
    {
        *self
    }
}

impl<S: Copy> Clone for DepricPaintingVertex<S> {
    fn clone(&self) -> (copy: Self)
        ensures
            copy == *self,
    {
        *self
    }
}

impl<S: Copy> Clone for Pos<S> {
    fn clone(&self) -> (copy: Self)
        ensures
            copy == *self,
    {
        *self
    }
}

impl<S: Copy> Clone for PosColor<S> {
    fn clone(&self) -> (copy: Self)
        ensures
            copy == *self,
    {
        *self
    }
}

impl<S: Copy> Clone for PosColorTex<S> {
    fn clone(&self) -> (copy: Self)
        ensures
            copy == *self,
    {
        *self
    }
}

/// The attribute at slot `location`, made of `n_elements` floats, starting
/// at `byte_offset`.
pub open spec fn float_attribute(location: usize, n_elements: usize, byte_offset: usize)
    -> AttributeLayout {
    AttributeLayout { location, n_elements, byte_offset, type_: Type::Float }
}

/// Three attributes in the slots 0, 1, 2, each starting where the one
/// before it ends, with the stride at the end of the last, are packed.
proof fn lemma_three_packed(attribs: Seq<AttributeLayout>, stride: nat)
    requires
        attribs.len() == 3,
        attribs[0].location == 0,
        attribs[1].location == 1,
        attribs[2].location == 2,
        attribs[0].byte_offset == 0,
        attribs[1].byte_offset == attribs[0].byte_len(),
        attribs[2].byte_offset == attribs[0].byte_len() + attribs[1].byte_len(),
        stride == attribs[0].byte_len() + attribs[1].byte_len() + attribs[2].byte_len(),
    ensures
        packed_end(attribs, 0) == 0,
        packed_end(attribs, 1) == attribs[1].byte_offset,
        packed_end(attribs, 2) == attribs[2].byte_offset,
        packed_end(attribs, 3) == stride,
{
    reveal_with_fuel(packed_end, 4);
}

impl<S> Vertex for PaintingVertex<S> {
    /// 28 bytes: two floats of position, four of colour, one of matrix index.
    fn get_layout() -> (layout: VertexLayout)
        ensures
            layout.stride == 28,
            layout.attrib_layouts@ == seq![
                float_attribute(0, 2, 0),
                float_attribute(1, 4, 8),
                float_attribute(2, 1, 24),
            ],
            layout.is_packed(),
    {
        let stride: usize = 28;
        let al1 = AttributeLayout { location: 0, n_elements: 2, byte_offset: 0, type_: Type::Float };
        let al2 = AttributeLayout { location: 1, n_elements: 4, byte_offset: 8, type_: Type::Float };
        let al3 = AttributeLayout { location: 2, n_elements: 1, byte_offset: 24, type_: Type::Float };
        let als = vec![al1, al2, al3];
        proof {
            assert(al1.byte_len() == 8);
            assert(al2.byte_len() == 16);
            assert(al3.byte_len() == 4);
            lemma_three_packed(als@, stride as nat);
        }
        VertexLayout { stride, attrib_layouts: als }
    }
}

impl<S> Vertex for DepricPaintingVertex<S> {
    /// 32 bytes: three floats of position, four of colour, one of matrix
    /// index.
    fn get_layout() -> (layout: VertexLayout)
        ensures
            layout.stride == 32,
            layout.attrib_layouts@ == seq![
                float_attribute(0, 3, 0),
                float_attribute(1, 4, 12),
                float_attribute(2, 1, 28),
            ],
            layout.is_packed(),
    {
        let stride: usize = 32;
        let al1 = AttributeLayout { location: 0, n_elements: 3, byte_offset: 0, type_: Type::Float };
        let al2 = AttributeLayout { location: 1, n_elements: 4, byte_offset: 12, type_: Type::Float };
        let al3 = AttributeLayout { location: 2, n_elements: 1, byte_offset: 28, type_: Type::Float };
        let als = vec![al1, al2, al3];
        proof {
            assert(al1.byte_len() == 12);
            assert(al2.byte_len() == 16);
            assert(al3.byte_len() == 4);
            lemma_three_packed(als@, stride as nat);
        }
        VertexLayout { stride, attrib_layouts: als }
    }
}

impl<S> Vertex for Pos<S> {
    /// 12 bytes: three floats of position.
    fn get_layout() -> (layout: VertexLayout)
        ensures
            layout.stride == 12,
            layout.attrib_layouts@ == seq![float_attribute(0, 3, 0)],
            layout.is_packed(),
    {
        let stride: usize = 12;
        let al1 = AttributeLayout { location: 0, n_elements: 3, type_: Type::Float, byte_offset: 0 };
        let attrib_layouts = vec![al1];
        proof {
            reveal_with_fuel(packed_end, 2);
            assert(al1.byte_len() == 12);
        }
        VertexLayout { stride, attrib_layouts }
    }
}

impl<S> Vertex for PosColor<S> {
    /// 28 bytes: three floats of position, four of colour.
    fn get_layout() -> (layout: VertexLayout)
        ensures
            layout.stride == 28,
            layout.attrib_layouts@ == seq![float_attribute(0, 3, 0), float_attribute(1, 4, 12)],
            layout.is_packed(),
    {
        let stride: usize = 28;
        let al1 = AttributeLayout { location: 0, n_elements: 3, type_: Type::Float, byte_offset: 0 };
        let al2 = AttributeLayout { location: 1, n_elements: 4, type_: Type::Float, byte_offset: 12 };
        let attrib_layouts = vec![al1, al2];
        proof {
            reveal_with_fuel(packed_end, 3);
            assert(al1.byte_len() == 12);
            assert(al2.byte_len() == 16);
            assert(packed_end(attrib_layouts@, 0) == 0);
            assert(packed_end(attrib_layouts@, 1) == 12);
            assert(packed_end(attrib_layouts@, 2) == 28);
        }
        VertexLayout { stride, attrib_layouts }
    }
}

} // verus!
