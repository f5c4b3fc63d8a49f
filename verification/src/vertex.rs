use crate::types::Type;
use vstd::prelude::*;

verus! {

/// Where one attribute of a vertex lies inside the vertex.
#[derive(Clone, Copy, Debug, PartialEq, Eq, Structural)]
pub struct AttributeLayout {
    /// The attribute's slot in the shading program.
    pub location: usize,
    /// How many elements the attribute is made of.
    pub n_elements: usize,
    /// The byte at which the attribute starts inside the vertex.
    pub byte_offset: usize,
    /// The type of each element.
    pub type_: Type,
}

/// How the bytes of one vertex are split into attributes.
pub struct VertexLayout {
    /// The number of bytes from one vertex to the next.
    pub stride: usize,
    /// The attributes, in the order they are declared to the graphics device.
    pub attrib_layouts: Vec<AttributeLayout>,
}

impl AttributeLayout {
    /// The number of bytes the attribute takes.
    pub open spec fn byte_len(self) -> nat {
        (self.n_elements * self.type_.byte_size()) as nat
    }
}

/// The byte just behind the first `n` attributes of a packed vertex.
pub open spec fn packed_end(attribs: Seq<AttributeLayout>, n: nat) -> nat
    decreases n,
{
    if n == 0 {
        0
    } else {
        packed_end(attribs, (n - 1) as nat) + attribs[n - 1].byte_len()
    }
}

impl VertexLayout {
    /// The layout leaves no gap: the attributes take the slots `0, 1, ..` in
    /// order, each starts where the one before it ends, and the stride is
    /// where the last one ends.
    pub open spec fn is_packed(&self) -> bool {
        &&& forall|i: int|
            0 <= i < self.attrib_layouts@.len() ==> {
                &&& (#[trigger] self.attrib_layouts@[i]).location == i
                &&& self.attrib_layouts@[i].byte_offset == packed_end(
                    self.attrib_layouts@,
                    i as nat,
                )
            }
        &&& self.stride == packed_end(self.attrib_layouts@, self.attrib_layouts@.len())
    }

    /// The number of bytes the attributes take together, or `None` where
    /// that number does not fit the machine's word.
    pub fn packed_size(&self) -> (size: Option<usize>)
        ensures
            match size {
                Some(n) => n == packed_end(self.attrib_layouts@, self.attrib_layouts@.len()),
                None => packed_end(self.attrib_layouts@, self.attrib_layouts@.len()) > usize::MAX,
            },
    {
        let mut total: usize = 0;
        let mut i: usize = 0;
        while i < self.attrib_layouts.len()
            invariant
                i <= self.attrib_layouts@.len(),
                total == packed_end(self.attrib_layouts@, i as nat),
            decreases self.attrib_layouts@.len() - i,
        {
            let al = self.attrib_layouts[i];
            let size = al.type_.size_in_bytes();
            proof {
                lemma_packed_end_grows(self.attrib_layouts@, (i + 1) as nat, self.attrib_layouts@.len());
                assert(al.byte_len() == al.n_elements * size);
            }
            let len = match al.n_elements.checked_mul(size) {
                Some(len) => len,
                None => {
                    return None;
                },
            };
            total = match total.checked_add(len) {
                Some(t) => t,
                None => {
                    return None;
                },
            };
            i = i + 1;
        }
        Some(total)
    }

    /// Decides [`VertexLayout::is_packed`].
    pub fn check_packed(&self) -> (packed: bool)
        ensures
            packed == self.is_packed(),
    {
        let mut total: usize = 0;
        let mut i: usize = 0;
        while i < self.attrib_layouts.len()
            invariant
                i <= self.attrib_layouts@.len(),
                total == packed_end(self.attrib_layouts@, i as nat),
                forall|j: int|
                    0 <= j < i ==> {
                        &&& (#[trigger] self.attrib_layouts@[j]).location == j
                        &&& self.attrib_layouts@[j].byte_offset == packed_end(
                            self.attrib_layouts@,
                            j as nat,
                        )
                    },
            decreases self.attrib_layouts@.len() - i,
        {
            let al = self.attrib_layouts[i];
            if al.location != i || al.byte_offset != total {
                return false;
            }
            let size = al.type_.size_in_bytes();
            proof {
                lemma_packed_end_grows(self.attrib_layouts@, (i + 1) as nat, self.attrib_layouts@.len());
                assert(al.byte_len() == al.n_elements * size);
            }
            let len = match al.n_elements.checked_mul(size) {
                Some(len) => len,
                None => {
                    return false;
                },
            };
            total = match total.checked_add(len) {
                Some(t) => t,
                None => {
                    return false;
                },
            };
            i = i + 1;
        }
        self.stride == total
    }
}

/// The end of a packed prefix never shrinks as the prefix grows.
pub proof fn lemma_packed_end_grows(attribs: Seq<AttributeLayout>, n: nat, m: nat)
    requires
        n <= m,
    ensures
        packed_end(attribs, n) <= packed_end(attribs, m),
    decreases m,
{
    if n < m {
        lemma_packed_end_grows(attribs, n, (m - 1) as nat);
    }
}

/// A vertex type that can say how its bytes are laid out.
pub trait Vertex {
    fn get_layout() -> VertexLayout;
}

} // verus!
