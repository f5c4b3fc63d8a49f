use crate::mesh::fan_index_count;
use crate::mesh::Mesh;
use crate::mesh::MeshView;
use crate::painter::MAX_INDICES;
use crate::painter::MAX_MODEL_MATS;
use crate::painter::MAX_VERTICES;
use crate::vertices::DepricPaintingVertex;
use vstd::prelude::*;

verus! {

/// One flush of the earlier painter: vertices, indices, and the matrices
/// from index 0 up to the newest model.
#[derive(Debug)]
pub struct DepricBatch<S, M> {
    pub vertices: Vec<DepricPaintingVertex<S>>,
    pub indices: Vec<u32>,
    pub models: Vec<M>,
    pub fill: bool,
}

/// Mathematical model of a [`DepricBatch`].
pub struct DepricBatchView<S, M> {
    pub vertices: Seq<DepricPaintingVertex<S>>,
    pub indices: Seq<u32>,
    pub models: Seq<M>,
    pub fill: bool,
}

impl<S, M> DepricBatchView<S, M> {
    /// Every index refers to a vertex of the batch, and every vertex to a
    /// matrix of the batch.
    pub open spec fn wf(self) -> bool {
        &&& forall|i: int|
            0 <= i < self.indices.len() ==> (#[trigger] self.indices[i]) < self.vertices.len()
        &&& forall|i: int|
            0 <= i < self.vertices.len() ==> (#[trigger] self.vertices[i]).model
                < self.models.len()
    }
}

impl<S, M> View for DepricBatch<S, M> {
    type V = DepricBatchView<S, M>;

    open spec fn view(&self) -> DepricBatchView<S, M> {
        DepricBatchView {
            vertices: self.vertices@,
            indices: self.indices@,
            models: self.models@,
            fill: self.fill,
        }
    }
}

/// Whether the batch that a call handed out, if any, is the one that the
/// model says.
pub open spec fn depric_flush_is<S, M>(
    flushed: Option<DepricBatch<S, M>>,
    event: Option<DepricBatchView<S, M>>,
) -> bool {
    match flushed {
        Some(batch) => event == Some(batch@),
        None => event is None,
    }
}

/// Mathematical model of a [`PainterDepricated`].
pub struct PainterDepricatedView<S, M> {
    /// The batch collected so far.
    pub mesh: MeshView<DepricPaintingVertex<S>>,
    /// Red, green, blue, alpha of the vertices made now.
    pub color: (S, S, S, S),
    /// All matrix slots, used or not.
    pub models: Seq<M>,
    /// The slot of the newest model; the slots up to it are in use.
    pub model_ptr: nat,
    /// The slot that vertices made now are tagged with.
    pub current_model_ptr: nat,
    /// Whether a model is being built.
    pub making_model: bool,
    /// Whether shapes are filled.
    pub fill: bool,
    /// The depth of the vertices made now.
    pub z: S,
    /// The matrix that stands for "no transform".
    pub identity: M,
    /// The alpha that a colour without alpha is given.
    pub opaque: S,
    /// The depth of the background.
    pub back: S,
    /// The depth of the foreground.
    pub front: S,
}

impl<S, M> PainterDepricatedView<S, M> {
    /// The mesh is valid, at least three slots exist, the slots in use are
    /// among them, vertices are tagged with the newest model while one is
    /// being built and with slot 0 otherwise, and the batch refers to
    /// nothing outside itself.
    pub open spec fn wf(self) -> bool {
        &&& self.mesh.wf()
        &&& 3 <= self.models.len() <= usize::MAX
        &&& self.model_ptr < self.models.len()
        &&& self.making_model ==> 1 <= self.model_ptr && self.current_model_ptr == self.model_ptr
        &&& !self.making_model ==> self.current_model_ptr == 0
        &&& self.mesh.indices_in_range()
        &&& forall|i: int|
            0 <= i < self.mesh.vertices.len() ==> (#[trigger] self.mesh.vertices[i]).model
                <= self.model_ptr
    }

    /// The vertex that the painter makes at `(x, y)` now.
    pub open spec fn vertex(self, x: S, y: S) -> DepricPaintingVertex<S> {
        DepricPaintingVertex {
            pos: (x, y, self.z),
            col: self.color,
            model: self.current_model_ptr as usize,
        }
    }

    /// The vertices that the painter makes of `points` now.
    pub open spec fn vertices_of(self, points: Seq<(S, S)>) -> Seq<DepricPaintingVertex<S>> {
        Seq::new(points.len(), |i: int| self.vertex(points[i].0, points[i].1))
    }

    /// What a flush hands out now.
    pub open spec fn batch(self) -> DepricBatchView<S, M> {
        DepricBatchView {
            vertices: self.mesh.vertices,
            indices: self.mesh.indices,
            models: self.models.subrange(0, self.model_ptr as int + 1),
            fill: self.fill,
        }
    }

    /// The painter after a flush: the mesh is empty; the matrix of a model
    /// that is being built moves to slot 1 and stays current; outside any
    /// model only slot 0 stays in use.
    pub open spec fn flushed(self) -> Self {
        if self.making_model {
            PainterDepricatedView {
                mesh: self.mesh.cleared(),
                models: self.models.update(1, self.models[self.model_ptr as int]),
                model_ptr: 1,
                current_model_ptr: 1,
                ..self
            }
        } else {
            PainterDepricatedView { mesh: self.mesh.cleared(), model_ptr: 0, ..self }
        }
    }

    /// A shape of `n_vertices` vertices and `n_indices` indices forces a
    /// flush: the mesh is full, or it has not the room for the shape.
    pub open spec fn must_flush(self, n_vertices: nat, n_indices: nat) -> bool {
        self.mesh.full() || !self.mesh.fits(n_vertices, n_indices)
    }

    /// The painter once room was made for a shape.
    pub open spec fn room_made(self, n_vertices: nat, n_indices: nat) -> Self {
        if self.must_flush(n_vertices, n_indices) {
            self.flushed()
        } else {
            self
        }
    }

    /// The batch that making room for a shape hands out.
    pub open spec fn room_event(self, n_vertices: nat, n_indices: nat) -> Option<
        DepricBatchView<S, M>,
    > {
        if self.must_flush(n_vertices, n_indices) {
            Some(self.batch())
        } else {
            None
        }
    }

    /// All slots are in use.
    pub open spec fn models_full(self) -> bool {
        self.model_ptr + 1 == self.models.len()
    }

    /// The painter once a slot is free for one more model.
    pub open spec fn model_room_made(self) -> Self {
        if self.models_full() {
            self.flushed()
        } else {
            self
        }
    }

    /// The batch that freeing a slot for one more model hands out.
    pub open spec fn model_room_event(self) -> Option<DepricBatchView<S, M>> {
        if self.models_full() {
            Some(self.batch())
        } else {
            None
        }
    }

    /// The painter after the next slot was taken for a model, its matrix
    /// left as the slot held it.
    pub open spec fn with_model_begun(self) -> Self {
        PainterDepricatedView {
            model_ptr: self.model_ptr + 1,
            current_model_ptr: self.model_ptr + 1,
            making_model: true,
            ..self
        }
    }

    /// The painter after the matrix of the newest model was replaced.
    pub open spec fn with_model(self, m: M) -> Self {
        PainterDepricatedView { models: self.models.update(self.model_ptr as int, m), ..self }
    }

    /// The painter after a triangle was appended to the mesh as it is.
    pub open spec fn with_triangle(self, x1: S, y1: S, x2: S, y2: S, x3: S, y3: S) -> Self {
        PainterDepricatedView {
            mesh: self.mesh.with_tri(self.vertex(x1, y1), self.vertex(x2, y2), self.vertex(x3, y3)),
            ..self
        }
    }

    /// The painter after a quad was appended to the mesh as it is.
    pub open spec fn with_quad(
        self,
        x1: S,
        y1: S,
        x2: S,
        y2: S,
        x3: S,
        y3: S,
        x4: S,
        y4: S,
    ) -> Self {
        PainterDepricatedView {
            mesh: self.mesh.with_quad(
                self.vertex(x1, y1),
                self.vertex(x2, y2),
                self.vertex(x3, y3),
                self.vertex(x4, y4),
            ),
            ..self
        }
    }

    /// The painter after a fan was appended to the mesh as it is.
    pub open spec fn with_fan(self, x0: S, y0: S, ring: Seq<(S, S)>) -> Self {
        PainterDepricatedView {
            mesh: self.mesh.with_fan(self.vertex(x0, y0), self.vertices_of(ring)),
            ..self
        }
    }
}

/// The earlier painter. It keeps a fixed row of matrix slots in place of a
/// stack, gives every vertex a depth, and otherwise batches and flushes as
/// [`crate::painter::Painter`] does.
pub struct PainterDepricated<S, M> {
    painting: Mesh<DepricPaintingVertex<S>>,
    color: (S, S, S, S),
    models: Vec<M>,
    model_ptr: usize,
    current_model_ptr: usize,
    making_model: bool,
    fill: bool,
    z: S,
    identity: M,
    opaque: S,
    back: S,
    front: S,
}

impl<S, M> View for PainterDepricated<S, M> {
    type V = PainterDepricatedView<S, M>;

    closed spec fn view(&self) -> PainterDepricatedView<S, M> {
        PainterDepricatedView {
            mesh: self.painting@,
            color: self.color,
            models: self.models@,
            model_ptr: self.model_ptr as nat,
            current_model_ptr: self.current_model_ptr as nat,
            making_model: self.making_model,
            fill: self.fill,
            z: self.z,
            identity: self.identity,
            opaque: self.opaque,
            back: self.back,
            front: self.front,
        }
    }
}

impl<S: Copy, M: Copy> PainterDepricated<S, M> {
    /// Validity of a painter: see [`PainterDepricatedView::wf`].
    pub open spec fn wf(&self) -> bool {
        self@.wf()
    }

    /// A painter with the standard bounds. `identity` fills every matrix
    /// slot; `one` is the full value of a colour channel; `back` and `front`
    /// are the depths of background and foreground. The painter starts
    /// white and opaque, filling, in the background.
    pub fn ne(identity: M, one: S, back: S, front: S) -> (painter: Self)
        ensures
            painter.wf(),
            painter@ == (PainterDepricatedView {
                mesh: MeshView {
                    vertices: Seq::empty(),
                    indices: Seq::empty(),
                    max_vertices: MAX_VERTICES as nat,
                    max_indices: MAX_INDICES as nat,
                    draw_type: crate::buffer::DrawType::Dynamic,
                },
                color: (one, one, one, one),
                models: Seq::new(MAX_MODEL_MATS as nat, |i: int| identity),
                model_ptr: 0,
                current_model_ptr: 0,
                making_model: false,
                fill: true,
                z: back,
                identity,
                opaque: one,
                back,
                front,
            }),
    {
        Self::with_capacity(MAX_VERTICES, MAX_INDICES, MAX_MODEL_MATS, identity, one, back, front)
    }

    /// A painter whose batches hold at most `n_vertices` vertices and
    /// `n_indices` indices and which has `n_models` matrix slots; otherwise
    /// as [`PainterDepricated::ne`].
    pub fn with_capacity(
        n_vertices: usize,
        n_indices: usize,
        n_models: usize,
        identity: M,
        one: S,
        back: S,
        front: S,
    ) -> (painter: Self)
        requires
            n_vertices <= u32::MAX,
            3 <= n_models,
        ensures
            painter.wf(),
            painter@ == (PainterDepricatedView {
                mesh: MeshView {
                    vertices: Seq::empty(),
                    indices: Seq::empty(),
                    max_vertices: n_vertices as nat,
                    max_indices: n_indices as nat,
                    draw_type: crate::buffer::DrawType::Dynamic,
                },
                color: (one, one, one, one),
                models: Seq::new(n_models as nat, |i: int| identity),
                model_ptr: 0,
                current_model_ptr: 0,
                making_model: false,
                fill: true,
                z: back,
                identity,
                opaque: one,
                back,
                front,
            }),
    {
        let painting = Mesh::dynamic_with_capacity(n_vertices, n_indices);
        let mut models: Vec<M> = Vec::new();
        let mut i: usize = 0;
        while i < n_models
            invariant
                i <= n_models,
                models@ =~= Seq::new(i as nat, |k: int| identity),
            decreases n_models - i,
        {
            models.push(identity);
            i = i + 1;
        }
        PainterDepricated {
            painting,
            color: (one, one, one, one),
            models,
            model_ptr: 0,
            current_model_ptr: 0,
            making_model: false,
            fill: true,
            z: back,
            identity,
            opaque: one,
            back,
            front,
        }
    }

    /// The batch collected so far.
    pub fn painting(&self) -> (mesh: &Mesh<DepricPaintingVertex<S>>)
        ensures
            mesh@ == self@.mesh,
    {
        &self.painting
    }

    /// All matrix slots, used or not.
    pub fn models(&self) -> (models: &[M])
        ensures
            models@ == self@.models,
    {
        self.models.as_slice()
    }

    /// The slot of the newest model.
    pub fn model_ptr(&self) -> (ptr: usize)
        ensures
            ptr == self@.model_ptr,
    {
        self.model_ptr
    }

    /// The slot that vertices made now are tagged with.
    pub fn current_model_ptr(&self) -> (ptr: usize)
        ensures
            ptr == self@.current_model_ptr,
    {
        self.current_model_ptr
    }

    /// Whether a model is being built.
    pub fn making_model(&self) -> (making: bool)
        ensures
            making == self@.making_model,
    {
        self.making_model
    }

    /// Whether shapes are filled.
    pub fn is_filling(&self) -> (fill: bool)
        ensures
            fill == self@.fill,
    {
        self.fill
    }

    /// The depth of the vertices made now.
    pub fn z(&self) -> (z: S)
        ensures
            z == self@.z,
    {
        self.z
    }

    /// Flushes: hands out the batch for drawing and starts the next one.
    pub fn paint(&mut self) -> (batch: DepricBatch<S, M>)
        requires
            old(self).wf(),
        ensures
            final(self).wf(),
            batch@ == old(self)@.batch(),
            batch@.wf(),
            final(self)@ == old(self)@.flushed(),
    {
        let (vertices, indices) = self.painting.take();
        let mut models: Vec<M> = Vec::new();
        let used: usize = self.model_ptr + 1;
        let mut i: usize = 0;
        while i < used
            invariant
                used <= self.models@.len(),
                i <= used,
                models@ =~= self.models@.subrange(0, i as int),
            decreases used - i,
        {
            models.push(self.models[i]);
            i = i + 1;
        }
        let batch = DepricBatch { vertices, indices, models, fill: self.fill };
        self.reset_models();
        batch
    }

    /// Starts the next batch and drops the current one undrawn.
    pub fn new_painting(&mut self)
        requires
            old(self).wf(),
        ensures
            final(self).wf(),
            final(self)@ == old(self)@.flushed(),
    {
        self.painting.clear();
        self.reset_models();
    }

    /// Brings the matrix slots to the start of a batch.
    fn reset_models(&mut self)
        requires
            3 <= old(self)@.models.len(),
            old(self)@.model_ptr < old(self)@.models.len(),
        ensures
            final(self)@ == (PainterDepricatedView { mesh: old(self)@.mesh, ..old(self)@.flushed() }),
    {
        if self.making_model {
            let current_model = self.models[self.model_ptr];
            self.model_ptr = 1;
            self.current_model_ptr = 1;
            self.models[1] = current_model;
        } else {
            self.model_ptr = 0;
        }
    }

    /// Shapes are filled from now on.
    pub fn fill(&mut self)
        ensures
            final(self)@ == (PainterDepricatedView { fill: true, ..old(self)@ }),
    {
        self.fill = true;
    }

    /// Shapes are outlined from now on.
    pub fn nofill(&mut self)
        ensures
            final(self)@ == (PainterDepricatedView { fill: false, ..old(self)@ }),
    {
        self.fill = false;
    }

    /// Vertices get the depth `val` from now on.
    pub fn set_z(&mut self, val: S)
        ensures
            final(self)@ == (PainterDepricatedView { z: val, ..old(self)@ }),
    {
        self.z = val;
    }

    /// Vertices get the depth of the background from now on.
    pub fn do_background(&mut self)
        ensures
            final(self)@ == (PainterDepricatedView { z: old(self)@.back, ..old(self)@ }),
    {
        self.z = self.back;
    }

    /// Vertices get the depth of the foreground from now on.
    pub fn do_foreground(&mut self)
        ensures
            final(self)@ == (PainterDepricatedView { z: old(self)@.front, ..old(self)@ }),
    {
        self.z = self.front;
    }

    /// Sets the colour and makes it opaque.
    pub fn color(&mut self, red: S, green: S, blue: S)
        ensures
            final(self)@ == (PainterDepricatedView {
                color: (red, green, blue, old(self)@.opaque),
                ..old(self)@
            }),
    {
        let opaque = self.opaque;
        self.color_alpha(red, green, blue, opaque);
    }

    /// Sets an opaque grey.
    pub fn grey(&mut self, val: S)
        ensures
            final(self)@ == (PainterDepricatedView {
                color: (val, val, val, old(self)@.opaque),
                ..old(self)@
            }),
    {
        let opaque = self.opaque;
        self.color_alpha(val, val, val, opaque)
    }

    /// Sets colour and alpha.
    pub fn color_alpha(&mut self, red: S, green: S, blue: S, alpha: S)
        ensures
            final(self)@ == (PainterDepricatedView {
                color: (red, green, blue, alpha),
                ..old(self)@
            }),
    {
        self.color = (red, green, blue, alpha);
    }

    /// Takes the next slot for a model and leaves its matrix as the slot
    /// held it. When all slots are in use the painter flushes first; the
    /// batch that this hands out, if any, is returned for drawing.
    pub fn new_model(&mut self) -> (flushed: Option<DepricBatch<S, M>>)
        requires
            old(self).wf(),
        ensures
            final(self).wf(),
            depric_flush_is(flushed, old(self)@.model_room_event()),
            final(self)@ == old(self)@.model_room_made().with_model_begun(),
    {
        let flushed = if self.model_ptr + 1 == self.models.len() {
            Some(self.paint())
        } else {
            None
        };
        self.model_ptr += 1;
        self.current_model_ptr = self.model_ptr;
        self.making_model = true;
        flushed
    }

    /// Begins a model that starts from the identity.
    pub fn new_clean_model(&mut self) -> (flushed: Option<DepricBatch<S, M>>)
        requires
            old(self).wf(),
        ensures
            final(self).wf(),
            depric_flush_is(flushed, old(self)@.model_room_event()),
            final(self)@ == old(self)@.model_room_made().with_model_begun().with_model(
                old(self)@.identity,
            ),
    {
        let flushed = self.new_model();
        self.ident_model();
        flushed
    }

    /// Begins a model that starts from the matrix of the newest model.
    pub fn new_similar_model(&mut self) -> (flushed: Option<DepricBatch<S, M>>)
        requires
            old(self).wf(),
        ensures
            final(self).wf(),
            depric_flush_is(flushed, old(self)@.model_room_event()),
            final(self)@ == old(self)@.model_room_made().with_model_begun().with_model(
                old(self)@.models[old(self)@.model_ptr as int],
            ),
    {
        let prev_model = self.get_model();
        let flushed = self.new_model();
        self.set_model(&prev_model);
        flushed
    }

    /// Ends the model that is being built: vertices are tagged with slot 0
    /// again, the newest model keeps its slot.
    pub fn end_modelling(&mut self)
        ensures
            final(self)@ == (PainterDepricatedView {
                current_model_ptr: 0,
                making_model: false,
                ..old(self)@
            }),
            old(self).wf() ==> final(self).wf(),
    {
        self.current_model_ptr = 0;
        self.making_model = false;
    }

    /// Sets the matrix of the newest model to the identity.
    pub fn ident_model(&mut self)
        requires
            old(self).wf(),
        ensures
            final(self).wf(),
            final(self)@ == old(self)@.with_model(old(self)@.identity),
    {
        self.models[self.model_ptr] = self.identity;
    }

    /// Replaces the matrix of the newest model.
    pub fn set_model(&mut self, m: &M)
        requires
            old(self).wf(),
        ensures
            final(self).wf(),
            final(self)@ == old(self)@.with_model(*m),
    {
        self.models[self.model_ptr] = *m;
    }

    /// The matrix of the newest model.
    pub fn get_model(&self) -> (m: M)
        requires
            self.wf(),
        ensures
            m == self@.models[self@.model_ptr as int],
    {
        self.models[self.model_ptr]
    }

    /// The vertex at `(x, y)` at the current depth, in the current colour,
    /// tagged with the current slot.
    pub fn make_vertex(&self, x: S, y: S) -> (v: DepricPaintingVertex<S>)
        ensures
            v == self@.vertex(x, y),
    {
        DepricPaintingVertex { pos: (x, y, self.z), col: self.color, model: self.current_model_ptr }
    }

    /// Makes room for a shape of `n_vertices` vertices and `n_indices`
    /// indices: flushes when the mesh is full or has not the room for it.
    pub fn make_room(&mut self, n_vertices: usize, n_indices: usize) -> (flushed: Option<
        DepricBatch<S, M>,
    >)
        requires
            old(self).wf(),
        ensures
            final(self).wf(),
            depric_flush_is(flushed, old(self)@.room_event(n_vertices as nat, n_indices as nat)),
            final(self)@ == old(self)@.room_made(n_vertices as nat, n_indices as nat),
    {
        if !self.painting.full() && self.painting.fits(n_vertices, n_indices) {
            None
        } else {
            Some(self.paint())
        }
    }

    /// Draws a triangle. The batch that this hands out, if any, is returned
    /// for drawing; the triangle is in the batch that follows it.
    pub fn triangle(&mut self, x1: S, y1: S, x2: S, y2: S, x3: S, y3: S) -> (flushed: Option<
        DepricBatch<S, M>,
    >)
        requires
            old(self).wf(),
            3 <= old(self)@.mesh.max_vertices,
            3 <= old(self)@.mesh.max_indices,
        ensures
            final(self).wf(),
            depric_flush_is(flushed, old(self)@.room_event(3, 3)),
            final(self)@ == old(self)@.room_made(3, 3).with_triangle(x1, y1, x2, y2, x3, y3),
    {
        let flushed = self.make_room(3, 3);
        let v1 = self.make_vertex(x1, y1);
        let v2 = self.make_vertex(x2, y2);
        let v3 = self.make_vertex(x3, y3);
        self.painting.push_tri(&v1, &v2, &v3);
        flushed
    }

    /// Draws a quad through the four corners in the order given. The batch
    /// that this hands out, if any, is returned for drawing.
    pub fn quad(
        &mut self,
        x1: S,
        y1: S,
        x2: S,
        y2: S,
        x3: S,
        y3: S,
        x4: S,
        y4: S,
    ) -> (flushed: Option<DepricBatch<S, M>>)
        requires
            old(self).wf(),
            4 <= old(self)@.mesh.max_vertices,
            6 <= old(self)@.mesh.max_indices,
        ensures
            final(self).wf(),
            depric_flush_is(flushed, old(self)@.room_event(4, 6)),
            final(self)@ == old(self)@.room_made(4, 6).with_quad(x1, y1, x2, y2, x3, y3, x4, y4),
    {
        let flushed = self.make_room(4, 6);
        let v1 = self.make_vertex(x1, y1);
        let v2 = self.make_vertex(x2, y2);
        let v3 = self.make_vertex(x3, y3);
        let v4 = self.make_vertex(x4, y4);

        self.painting.push_quad(&v1, &v2, &v3, &v4);
        flushed
    }

    /// Draws a fan around `(x0, y0)` through the ring points in order. The
    /// batch that this hands out, if any, is returned for drawing.
    pub fn fan(&mut self, x0: S, y0: S, fan: &[(S, S)]) -> (flushed: Option<DepricBatch<S, M>>)
        requires
            old(self).wf(),
            1 + fan@.len() <= old(self)@.mesh.max_vertices,
            fan_index_count(fan@.len()) <= old(self)@.mesh.max_indices,
        ensures
            final(self).wf(),
            depric_flush_is(
                flushed,
                old(self)@.room_event(1 + fan@.len(), fan_index_count(fan@.len())),
            ),
            final(self)@ == old(self)@.room_made(
                1 + fan@.len(),
                fan_index_count(fan@.len()),
            ).with_fan(x0, y0, fan@),
    {
        let n_vertices = fan.len() + 1;
        let n_indices = if fan.len() == 0 {
            0
        } else {
            3 * (fan.len() - 1)
        };
        let flushed = self.make_room(n_vertices, n_indices);
        let v0 = self.make_vertex(x0, y0);
        let mut vfan: Vec<DepricPaintingVertex<S>> = Vec::new();
        let mut i: usize = 0;
        while i < fan.len()
            invariant
                i <= fan@.len(),
                vfan@ =~= self@.vertices_of(fan@.subrange(0, i as int)),
            decreases fan@.len() - i,
        {
            let (x, y) = fan[i];
            let v = self.make_vertex(x, y);
            vfan.push(v);
            i = i + 1;
        }
        proof {
            assert(fan@.subrange(0, i as int) =~= fan@);
        }
        self.painting.push_fan(&v0, vfan.as_slice());
        flushed
    }
}

/// A shape is never split and never overflows: for a shape that fits an
/// empty mesh, a batch is handed out exactly when the mesh is full or has
/// not the room, a full mesh is always flushed, and the mesh then has the
/// room and, after a flush, is empty.
pub proof fn lemma_depric_room_made_fits<S, M>(
    painter: PainterDepricatedView<S, M>,
    n_vertices: nat,
    n_indices: nat,
)
    requires
        painter.wf(),
        n_vertices <= painter.mesh.max_vertices,
        n_indices <= painter.mesh.max_indices,
    ensures
        painter.room_made(n_vertices, n_indices).wf(),
        painter.room_made(n_vertices, n_indices).mesh.fits(n_vertices, n_indices),
        painter.room_event(n_vertices, n_indices) is Some <==> painter.must_flush(
            n_vertices,
            n_indices,
        ),
        painter.must_flush(n_vertices, n_indices) ==> painter.room_made(
            n_vertices,
            n_indices,
        ).mesh.vertices.len() == 0,
        !painter.must_flush(n_vertices, n_indices) ==> painter.room_made(n_vertices, n_indices)
            == painter,
        painter.mesh.full() ==> painter.must_flush(n_vertices, n_indices),
{
}

} // verus!
