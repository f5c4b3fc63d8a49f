use crate::buffer::DrawType;
use vstd::prelude::*;

verus! {

/// Mathematical model of a [`Mesh`]: the two sequences it has collected and
/// the bounds they were declared with.
pub struct MeshView<T> {
    pub vertices: Seq<T>,
    pub indices: Seq<u32>,
    pub max_vertices: nat,
    pub max_indices: nat,
    pub draw_type: DrawType,
}

/// The three indices of a triangle over the vertices `base`, `base + 1`,
/// `base + 2`.
pub open spec fn tri_indices(base: int) -> Seq<u32> {
    seq![base as u32, (base + 1) as u32, (base + 2) as u32]
}

/// The six indices of a quad over the vertices `base .. base + 4`: the two
/// triangles `(0, 2, 1)` and `(0, 3, 2)` relative to `base`.
pub open spec fn quad_indices(base: int) -> Seq<u32> {
    seq![
        base as u32,
        (base + 2) as u32,
        (base + 1) as u32,
        base as u32,
        (base + 3) as u32,
        (base + 2) as u32,
    ]
}

/// Number of indices of a fan around a centre through `ring` ring points:
/// one triangle for each pair of neighbours on the ring.
pub open spec fn fan_index_count(ring: nat) -> nat {
    if ring == 0 {
        0
    } else {
        (3 * (ring - 1)) as nat
    }
}

/// The indices of a fan whose centre is vertex `base` and whose `ring` ring
/// points are the vertices `base + 1 ..= base + ring`: triangle `k` is
/// `(base, base + 1 + k, base + 2 + k)`.
pub open spec fn fan_indices(base: int, ring: nat) -> Seq<u32> {
    Seq::new(
        fan_index_count(ring),
        |i: int|
            if i % 3 == 0 {
                base as u32
            } else if i % 3 == 1 {
                (base + 1 + i / 3) as u32
            } else {
                (base + 2 + i / 3) as u32
            },
    )
}

impl<T> MeshView<T> {
    /// Both sequences are within their bounds, and every vertex can be
    /// addressed by a 32-bit index.
    pub open spec fn wf(self) -> bool {
        &&& self.vertices.len() <= self.max_vertices
        &&& self.indices.len() <= self.max_indices
        &&& self.max_vertices <= u32::MAX
        &&& self.max_indices <= usize::MAX
    }

    /// One of the two sequences has reached its bound.
    pub open spec fn full(self) -> bool {
        self.vertices.len() >= self.max_vertices || self.indices.len() >= self.max_indices
    }

    /// There is room left for `n_vertices` more vertices and `n_indices` more
    /// indices.
    pub open spec fn fits(self, n_vertices: nat, n_indices: nat) -> bool {
        &&& self.vertices.len() + n_vertices <= self.max_vertices
        &&& self.indices.len() + n_indices <= self.max_indices
    }

    /// Every index refers to a vertex that the mesh holds.
    pub open spec fn indices_in_range(self) -> bool {
        forall|i: int| 0 <= i < self.indices.len() ==> (#[trigger] self.indices[i]) < self.vertices.len()
    }

    /// The mesh without its contents, bounds kept.
    pub open spec fn cleared(self) -> Self {
        MeshView { vertices: Seq::empty(), indices: Seq::empty(), ..self }
    }

    /// The mesh after raw vertices and indices were appended.
    pub open spec fn with_data(self, vertices: Seq<T>, indices: Seq<u32>) -> Self {
        MeshView { vertices: self.vertices + vertices, indices: self.indices + indices, ..self }
    }

    /// The mesh after one triangle was appended.
    pub open spec fn with_tri(self, v1: T, v2: T, v3: T) -> Self {
        self.with_data(seq![v1, v2, v3], tri_indices(self.vertices.len() as int))
    }

    /// The mesh after one quad was appended.
    pub open spec fn with_quad(self, v1: T, v2: T, v3: T, v4: T) -> Self {
        self.with_data(seq![v1, v2, v3, v4], quad_indices(self.vertices.len() as int))
    }

    /// The mesh after one fan was appended.
    pub open spec fn with_fan(self, v0: T, ring: Seq<T>) -> Self {
        self.with_data(seq![v0] + ring, fan_indices(self.vertices.len() as int, ring.len()))
    }
}

/// A bounded, append-only batch of vertices and of the indices that join
/// them into triangles.
///
/// The bounds are fixed when the mesh is made. Appending never grows past
/// them: whoever appends makes sure beforehand that the shape fits, and
/// empties the mesh with [`Mesh::clear`] when it does not.
pub struct Mesh<T> {
    vertices: Vec<T>,
    indices: Vec<u32>,
    max_vertices: usize,
    max_indices: usize,
    draw_type: DrawType,
}

impl<T> View for Mesh<T> {
    type V = MeshView<T>;

    closed spec fn view(&self) -> MeshView<T> {
        MeshView {
            vertices: self.vertices@,
            indices: self.indices@,
            max_vertices: self.max_vertices as nat,
            max_indices: self.max_indices as nat,
            draw_type: self.draw_type,
        }
    }
}

impl<T: Copy> Mesh<T> {
    /// Validity of a mesh: see [`MeshView::wf`].
    pub open spec fn wf(&self) -> bool {
        self@.wf()
    }

    /// A mesh that owns the given contents and has no room for more.
    pub fn with_content(vertices: Vec<T>, indices: Vec<u32>) -> (mesh: Self)
        requires
            vertices@.len() <= u32::MAX,
        ensures
            mesh.wf(),
            mesh@ == (MeshView {
                vertices: vertices@,
                indices: indices@,
                max_vertices: vertices@.len(),
                max_indices: indices@.len(),
                draw_type: DrawType::Static,
            }),
    {
        let max_vertices = vertices.len();
        let max_indices = indices.len();
        Mesh { vertices, indices, max_vertices, max_indices, draw_type: DrawType::Static }
    }

    /// A mesh without contents and without room.
    pub fn empty() -> (mesh: Self)
        ensures
            mesh.wf(),
            mesh@ == (MeshView {
                vertices: Seq::<T>::empty(),
                indices: Seq::<u32>::empty(),
                max_vertices: 0,
                max_indices: 0,
                draw_type: DrawType::Static,
            }),
    {
        Mesh {
            vertices: Vec::new(),
            indices: Vec::new(),
            max_vertices: 0,
            max_indices: 0,
            draw_type: DrawType::Static,
        }
    }

    /// An empty mesh with room for `n_vertices` vertices and `n_indices`
    /// indices, meant to be filled once.
    pub fn static_with_capacity(n_vertices: usize, n_indices: usize) -> (mesh: Self)
        requires
            n_vertices <= u32::MAX,
        ensures
            mesh.wf(),
            mesh@ == (MeshView {
                vertices: Seq::<T>::empty(),
                indices: Seq::<u32>::empty(),
                max_vertices: n_vertices as nat,
                max_indices: n_indices as nat,
                draw_type: DrawType::Static,
            }),
    {
        Mesh {
            vertices: Vec::new(),
            indices: Vec::new(),
            max_vertices: n_vertices,
            max_indices: n_indices,
            draw_type: DrawType::Static,
        }
    }

    /// An empty mesh with room for `n_vertices` vertices and `n_indices`
    /// indices, meant to be refilled again and again.
    pub fn dynamic_with_capacity(n_vertices: usize, n_indices: usize) -> (mesh: Self)
        requires
            n_vertices <= u32::MAX,
        ensures
            mesh.wf(),
            mesh@ == (MeshView {
                vertices: Seq::<T>::empty(),
                indices: Seq::<u32>::empty(),
                max_vertices: n_vertices as nat,
                max_indices: n_indices as nat,
                draw_type: DrawType::Dynamic,
            }),
    {
        Mesh {
            vertices: Vec::new(),
            indices: Vec::new(),
            max_vertices: n_vertices,
            max_indices: n_indices,
            draw_type: DrawType::Dynamic,
        }
    }

    /// The vertices collected so far, in the order they were appended.
    pub fn vertices(&self) -> (vertices: &[T])
        ensures
            vertices@ == self@.vertices,
    {
        self.vertices.as_slice()
    }

    /// The indices collected so far, in the order they were appended.
    pub fn indices(&self) -> (indices: &[u32])
        ensures
            indices@ == self@.indices,
    {
        self.indices.as_slice()
    }

    /// The number of vertices the mesh was declared to hold at most.
    pub fn vertex_capacity(&self) -> (n: usize)
        ensures
            n == self@.max_vertices,
    {
        self.max_vertices
    }

    /// The number of indices the mesh was declared to hold at most.
    pub fn index_capacity(&self) -> (n: usize)
        ensures
            n == self@.max_indices,
    {
        self.max_indices
    }

    /// Whether the mesh is filled once or refilled.
    pub fn draw_type(&self) -> (d: DrawType)
        ensures
            d == self@.draw_type,
    {
        self.draw_type
    }

    /// Drops the contents and keeps the bounds.
    pub fn clear(&mut self)
        ensures
            final(self)@ == old(self)@.cleared(),
    {
        self.vertices.clear();
        self.indices.clear();
    }

    /// Hands out the contents and leaves the mesh empty, bounds kept.
    pub fn take(&mut self) -> (content: (Vec<T>, Vec<u32>))
        ensures
            content.0@ == old(self)@.vertices,
            content.1@ == old(self)@.indices,
            final(self)@ == old(self)@.cleared(),
    {
        let mut vertices: Vec<T> = Vec::new();
        let mut indices: Vec<u32> = Vec::new();
        std::mem::swap(&mut self.vertices, &mut vertices);
        std::mem::swap(&mut self.indices, &mut indices);
        (vertices, indices)
    }

    /// True when the vertices or the indices have reached their bound.
    pub fn full(&self) -> (full: bool)
        ensures
            full == self@.full(),
    {
        self.vertices.len() >= self.max_vertices || self.indices.len() >= self.max_indices
    }

    /// True when `n_vertices` more vertices and `n_indices` more indices
    /// still fit.
    pub fn fits(&self, n_vertices: usize, n_indices: usize) -> (fits: bool)
        ensures
            fits == self@.fits(n_vertices as nat, n_indices as nat),
    {
        self.vertices.len() <= self.max_vertices && n_vertices <= self.max_vertices
            - self.vertices.len() && self.indices.len() <= self.max_indices && n_indices
            <= self.max_indices - self.indices.len()
    }

    /// Appends one triangle: its three vertices, and three indices that
    /// refer to them in the order given.
    pub fn push_tri(&mut self, v1: &T, v2: &T, v3: &T)
        requires
            old(self).wf(),
            old(self)@.fits(3, 3),
        ensures
            final(self).wf(),
            final(self)@ == old(self)@.with_tri(*v1, *v2, *v3),
            old(self)@.indices_in_range() ==> final(self)@.indices_in_range(),
    {
        proof {
            lemma_tri_keeps_valid(self@, *v1, *v2, *v3);
        }
        let base = self.vertices.len() as u32;
        self.indices.push(base);
        self.indices.push(base + 1);
        self.indices.push(base + 2);

        self.vertices.push(*v1);
        self.vertices.push(*v2);
        self.vertices.push(*v3);
        proof {
            assert(self@.vertices =~= old(self)@.vertices + seq![*v1, *v2, *v3]);
            assert(self@.indices =~= old(self)@.indices + tri_indices(
                old(self)@.vertices.len() as int,
            ));
        }
    }

    /// Appends one quad: its four vertices in the order given, and six
    /// indices that split it into the triangles `(v1, v3, v2)` and
    /// `(v1, v4, v3)`.
    pub fn push_quad(&mut self, v1: &T, v2: &T, v3: &T, v4: &T)
        requires
            old(self).wf(),
            old(self)@.fits(4, 6),
        ensures
            final(self).wf(),
            final(self)@ == old(self)@.with_quad(*v1, *v2, *v3, *v4),
            old(self)@.indices_in_range() ==> final(self)@.indices_in_range(),
    {
        proof {
            lemma_quad_keeps_valid(self@, *v1, *v2, *v3, *v4);
        }
        let base = self.vertices.len() as u32;
        self.indices.push(base);
        self.indices.push(base + 2);
        self.indices.push(base + 1);
        self.indices.push(base);
        self.indices.push(base + 3);
        self.indices.push(base + 2);

        self.vertices.push(*v1);
        self.vertices.push(*v2);
        self.vertices.push(*v3);
        self.vertices.push(*v4);
        proof {
            assert(self@.vertices =~= old(self)@.vertices + seq![*v1, *v2, *v3, *v4]);
            assert(self@.indices =~= old(self)@.indices + quad_indices(
                old(self)@.vertices.len() as int,
            ));
        }
    }

    /// Appends a triangle fan: the centre `v0`, then the ring `v` in order,
    /// and for each pair of neighbours on the ring one triangle from the
    /// centre. A ring of fewer than two points adds vertices but no triangle.
    pub fn push_fan(&mut self, v0: &T, v: &[T])
        requires
            old(self).wf(),
            old(self)@.fits(1 + v@.len(), fan_index_count(v@.len())),
        ensures
            final(self).wf(),
            final(self)@ == old(self)@.with_fan(*v0, v@),
            old(self)@.indices_in_range() ==> final(self)@.indices_in_range(),
    {
        proof {
            lemma_fan_keeps_valid(self@, *v0, v@);
        }
        let ghost before = self@;
        let base = self.vertices.len() as u32;
        let mut first: u32 = base + 1;
        let mut k: usize = 1;
        while k < v.len()
            invariant
                before == old(self)@,
                before.wf(),
                before.fits(1 + v@.len(), fan_index_count(v@.len())),
                base == before.vertices.len(),
                1 <= k,
                v@.len() >= 1 ==> k <= v@.len(),
                v@.len() == 0 ==> k == 1,
                first == base + k,
                self@.vertices == before.vertices,
                self@.indices =~= before.indices + fan_indices(base as int, k as nat),
                self@.max_vertices == before.max_vertices,
                self@.max_indices == before.max_indices,
                self@.draw_type == before.draw_type,
            decreases v@.len() - k,
        {
            let next: u32 = first + 1;
            self.indices.push(base);
            self.indices.push(first);
            self.indices.push(next);
            first = next;
            k = k + 1;
        }
        assert(fan_indices(base as int, k as nat) =~= fan_indices(base as int, v@.len()));
        self.vertices.push(*v0);
        let mut i: usize = 0;
        while i < v.len()
            invariant
                i <= v@.len(),
                before.fits(1 + v@.len(), fan_index_count(v@.len())),
                before.wf(),
                self@.vertices =~= before.vertices + seq![*v0] + v@.subrange(0, i as int),
                self@.indices == before.indices + fan_indices(base as int, v@.len()),
                self@.max_vertices == before.max_vertices,
                self@.max_indices == before.max_indices,
                self@.draw_type == before.draw_type,
            decreases v@.len() - i,
        {
            self.vertices.push(v[i]);
            i = i + 1;
        }
        proof {
            assert(v@.subrange(0, i as int) =~= v@);
            assert(self@.vertices =~= before.vertices + (seq![*v0] + v@));
        }
    }

    /// Appends raw vertices and indices as they are given.
    pub fn push_data(&mut self, vertices: &[T], indices: &[u32])
        requires
            old(self).wf(),
            old(self)@.fits(vertices@.len(), indices@.len()),
        ensures
            final(self).wf(),
            final(self)@ == old(self)@.with_data(vertices@, indices@),
    {
        let ghost before = self@;
        let mut i: usize = 0;
        while i < vertices.len()
            invariant
                i <= vertices@.len(),
                self@.vertices =~= before.vertices + vertices@.subrange(0, i as int),
                self@.indices == before.indices,
                self@.max_vertices == before.max_vertices,
                self@.max_indices == before.max_indices,
                self@.draw_type == before.draw_type,
            decreases vertices@.len() - i,
        {
            self.vertices.push(vertices[i]);
            i = i + 1;
        }
        let mut j: usize = 0;
        while j < indices.len()
            invariant
                j <= indices@.len(),
                self@.vertices == before.vertices + vertices@,
                self@.indices =~= before.indices + indices@.subrange(0, j as int),
                self@.max_vertices == before.max_vertices,
                self@.max_indices == before.max_indices,
                self@.draw_type == before.draw_type,
            decreases indices@.len() - j,
        {
            self.indices.push(indices[j]);
            j = j + 1;
        }
        proof {
            assert(indices@.subrange(0, j as int) =~= indices@);
        }
    }
}

/// One append to a mesh, as a value: what [`Mesh::push_tri`],
/// [`Mesh::push_quad`] and [`Mesh::push_fan`] are called with.
pub enum MeshOp<T> {
    Tri(T, T, T),
    Quad(T, T, T, T),
    Fan(T, Seq<T>),
}

impl<T> MeshOp<T> {
    /// The number of vertices the append adds.
    pub open spec fn n_vertices(self) -> nat {
        match self {
            MeshOp::Tri(_, _, _) => 3,
            MeshOp::Quad(_, _, _, _) => 4,
            MeshOp::Fan(_, ring) => 1 + ring.len(),
        }
    }

    /// The number of indices the append adds.
    pub open spec fn n_indices(self) -> nat {
        match self {
            MeshOp::Tri(_, _, _) => 3,
            MeshOp::Quad(_, _, _, _) => 6,
            MeshOp::Fan(_, ring) => fan_index_count(ring.len()),
        }
    }
}

impl<T> MeshView<T> {
    /// The mesh after one append.
    pub open spec fn after(self, op: MeshOp<T>) -> Self {
        match op {
            MeshOp::Tri(v1, v2, v3) => self.with_tri(v1, v2, v3),
            MeshOp::Quad(v1, v2, v3, v4) => self.with_quad(v1, v2, v3, v4),
            MeshOp::Fan(v0, ring) => self.with_fan(v0, ring),
        }
    }

    /// The mesh after the appends `ops`, first to last.
    pub open spec fn after_all(self, ops: Seq<MeshOp<T>>) -> Self
        decreases ops.len(),
    {
        if ops.len() == 0 {
            self
        } else {
            self.after_all(ops.drop_last()).after(ops.last())
        }
    }

    /// Each of the appends `ops` fits the mesh at its turn.
    pub open spec fn all_fit(self, ops: Seq<MeshOp<T>>) -> bool
        decreases ops.len(),
    {
        if ops.len() == 0 {
            true
        } else {
            &&& self.all_fit(ops.drop_last())
            &&& self.after_all(ops.drop_last()).fits(ops.last().n_vertices(), ops.last().n_indices())
        }
    }
}

/// Over vertices that 32-bit indices can name, the indices of a shape are
/// the numbers they are meant to be: a triangle is `(b, b+1, b+2)`, a quad
/// is `(b, b+2, b+1)` and `(b, b+3, b+2)`, and triangle `t` of a fan is
/// `(b, b+1+t, b+2+t)`, its centre first and two neighbours of the ring
/// behind it.
pub proof fn lemma_indices_are_exact(base: int, ring: nat)
    requires
        0 <= base,
        base + 3 <= u32::MAX,
        base + ring <= u32::MAX,
    ensures
        tri_indices(base).len() == 3,
        tri_indices(base)[0] == base,
        tri_indices(base)[1] == base + 1,
        tri_indices(base)[2] == base + 2,
        quad_indices(base).len() == 6,
        quad_indices(base)[0] == base,
        quad_indices(base)[1] == base + 2,
        quad_indices(base)[2] == base + 1,
        quad_indices(base)[3] == base,
        quad_indices(base)[4] == base + 3,
        quad_indices(base)[5] == base + 2,
        fan_indices(base, ring).len() == fan_index_count(ring),
        forall|t: int|
            0 <= t < ring - 1 ==> {
                &&& #[trigger] fan_indices(base, ring)[3 * t] == base
                &&& fan_indices(base, ring)[3 * t + 1] == base + 1 + t
                &&& fan_indices(base, ring)[3 * t + 2] == base + 2 + t
            },
{
    assert forall|t: int| 0 <= t < ring - 1 implies {
        &&& #[trigger] fan_indices(base, ring)[3 * t] == base
        &&& fan_indices(base, ring)[3 * t + 1] == base + 1 + t
        &&& fan_indices(base, ring)[3 * t + 2] == base + 2 + t
    } by {
        assert((3 * t) % 3 == 0);
        assert((3 * t + 1) % 3 == 1 && (3 * t + 1) / 3 == t);
        assert((3 * t + 2) % 3 == 2 && (3 * t + 2) / 3 == t);
    }
}

/// A triangle that fits keeps the mesh valid, and its indices refer to its
/// own three vertices.
pub proof fn lemma_tri_keeps_valid<T>(mesh: MeshView<T>, v1: T, v2: T, v3: T)
    requires
        mesh.wf(),
        mesh.fits(3, 3),
    ensures
        mesh.with_tri(v1, v2, v3).wf(),
        mesh.indices_in_range() ==> mesh.with_tri(v1, v2, v3).indices_in_range(),
{
    let after = mesh.with_tri(v1, v2, v3);
    let base = mesh.vertices.len() as int;
    if mesh.indices_in_range() {
        assert forall|i: int| 0 <= i < after.indices.len() implies (#[trigger] after.indices[i])
            < after.vertices.len() by {
            if i >= mesh.indices.len() {
                assert(after.indices[i] == tri_indices(base)[i - mesh.indices.len()]);
            } else {
                assert(after.indices[i] == mesh.indices[i]);
            }
        }
    }
}

/// A quad that fits keeps the mesh valid, and its indices refer to its own
/// four vertices.
pub proof fn lemma_quad_keeps_valid<T>(mesh: MeshView<T>, v1: T, v2: T, v3: T, v4: T)
    requires
        mesh.wf(),
        mesh.fits(4, 6),
    ensures
        mesh.with_quad(v1, v2, v3, v4).wf(),
        mesh.indices_in_range() ==> mesh.with_quad(v1, v2, v3, v4).indices_in_range(),
{
    let after = mesh.with_quad(v1, v2, v3, v4);
    let base = mesh.vertices.len() as int;
    if mesh.indices_in_range() {
        assert forall|i: int| 0 <= i < after.indices.len() implies (#[trigger] after.indices[i])
            < after.vertices.len() by {
            if i >= mesh.indices.len() {
                assert(after.indices[i] == quad_indices(base)[i - mesh.indices.len()]);
            } else {
                assert(after.indices[i] == mesh.indices[i]);
            }
        }
    }
}

/// A fan that fits keeps the mesh valid, and its indices refer to its own
/// centre and ring.
pub proof fn lemma_fan_keeps_valid<T>(mesh: MeshView<T>, v0: T, ring: Seq<T>)
    requires
        mesh.wf(),
        mesh.fits(1 + ring.len(), fan_index_count(ring.len())),
    ensures
        mesh.with_fan(v0, ring).wf(),
        mesh.indices_in_range() ==> mesh.with_fan(v0, ring).indices_in_range(),
{
    let after = mesh.with_fan(v0, ring);
    let base = mesh.vertices.len() as int;
    if mesh.indices_in_range() {
        assert forall|i: int| 0 <= i < after.indices.len() implies (#[trigger] after.indices[i])
            < after.vertices.len() by {
            if i >= mesh.indices.len() {
                let k = i - mesh.indices.len();
                assert(after.indices[i] == fan_indices(base, ring.len())[k]);
                assert(0 <= k < 3 * (ring.len() - 1));
                assert(k / 3 <= ring.len() - 2);
            } else {
                assert(after.indices[i] == mesh.indices[i]);
            }
        }
    }
}

/// A valid mesh is full exactly when it has no room for even one vertex
/// together with one index; and a full mesh has room for no shape that
/// adds both vertices and indices.
pub proof fn lemma_full_means_no_room<T>(mesh: MeshView<T>, n_vertices: nat, n_indices: nat)
    requires
        mesh.wf(),
    ensures
        mesh.full() <==> !mesh.fits(1, 1),
        mesh.full() <==> (mesh.vertices.len() == mesh.max_vertices || mesh.indices.len()
            == mesh.max_indices),
        mesh.full() && n_vertices >= 1 && n_indices >= 1 ==> !mesh.fits(n_vertices, n_indices),
        n_vertices >= 1 && n_indices >= 1 && mesh.fits(n_vertices, n_indices) ==> !mesh.full(),
{
}

/// Appends that each fit at their turn keep the mesh valid and its bounds
/// unchanged, add up in length, and find the mesh not full at the turn of
/// every append that adds an index.
#[verifier::rlimit(50)]
pub proof fn lemma_fitting_appends<T>(mesh: MeshView<T>, ops: Seq<MeshOp<T>>)
    requires
        mesh.wf(),
        mesh.all_fit(ops),
    ensures
        mesh.after_all(ops).wf(),
        mesh.after_all(ops).max_vertices == mesh.max_vertices,
        mesh.after_all(ops).max_indices == mesh.max_indices,
        mesh.after_all(ops).vertices.len() >= mesh.vertices.len(),
        mesh.after_all(ops).indices.len() >= mesh.indices.len(),
        mesh.indices_in_range() ==> mesh.after_all(ops).indices_in_range(),
        forall|k: int|
            0 <= k < ops.len() && (#[trigger] ops[k]).n_indices() >= 1 ==> !mesh.after_all(
                ops.take(k),
            ).full(),
    decreases ops.len(),
{
    if ops.len() > 0 {
        let init = ops.drop_last();
        let before = mesh.after_all(init);
        lemma_fitting_appends(mesh, init);
        match ops.last() {
            MeshOp::Tri(v1, v2, v3) => lemma_tri_keeps_valid(before, v1, v2, v3),
            MeshOp::Quad(v1, v2, v3, v4) => lemma_quad_keeps_valid(before, v1, v2, v3, v4),
            MeshOp::Fan(v0, ring) => lemma_fan_keeps_valid(before, v0, ring),
        }
        assert forall|k: int| 0 <= k < ops.len() && (#[trigger] ops[k]).n_indices() >= 1 implies !mesh.after_all(
            ops.take(k),
        ).full() by {
            if k < ops.len() - 1 {
                assert(init.take(k) =~= ops.take(k));
                assert(init[k] == ops[k]);
            } else {
                assert(ops.take(k) =~= init);
            }
        }
    }
}

} // verus!
