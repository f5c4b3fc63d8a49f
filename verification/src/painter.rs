use crate::mesh::fan_index_count;
use crate::mesh::Mesh;
use crate::mesh::MeshView;
use crate::transform_stack_2d::TransformStack2D;
use crate::transform_stack_2d::TransformStackView;
use crate::vertices::PaintingVertex;
use vstd::prelude::*;
use vstd::slice::slice_to_vec;

verus! {

/// Ring points of a circle drawn without a stated precision.
pub const STD_CIRCLE_PREC: usize = 200;

/// Segments of each corner of a rounded rectangle drawn without a stated
/// precision.
pub const STD_ROUNDED_CORNER_PREC: usize = 30;

/// Matrices that one batch of the standard painter may refer to.
pub const MAX_MODEL_MATS: usize = 128;

/// Vertices that one batch of the standard painter may hold.
pub const MAX_VERTICES: usize = 10000;

/// Indices that one batch of the standard painter may hold.
pub const MAX_INDICES: usize = 7000;

/// What the painter draws with: set by the style calls, read when a vertex
/// is made or a batch is handed out, and untouched by a flush.
#[derive(Copy, Debug, PartialEq)]
pub struct PainterSettings<S> {
    pub color: (S, S, S),
    pub alpha: S,
    pub foreground: bool,
    pub fill: bool,
}

impl<S: Copy> Clone for PainterSettings<S> {
    fn clone(&self) -> (copy: Self)
        ensures
            copy == *self,
    {
        *self
    }
}

/// One flush: everything the graphics device needs for one draw call.
#[derive(Debug)]
pub struct Batch<S, M> {
    pub vertices: Vec<PaintingVertex<S>>,
    pub indices: Vec<u32>,
    pub models: Vec<M>,
    pub foreground: bool,
    pub fill: bool,
}

/// Mathematical model of a [`Batch`].
pub struct BatchView<S, M> {
    pub vertices: Seq<PaintingVertex<S>>,
    pub indices: Seq<u32>,
    pub models: Seq<M>,
    pub foreground: bool,
    pub fill: bool,
}

impl<S, M> BatchView<S, M> {
    /// Every index refers to a vertex of the batch, and every vertex to a
    /// matrix of the batch.
    pub open spec fn wf(self) -> bool {
        &&& forall|i: int|
            0 <= i < self.indices.len() ==> (#[trigger] self.indices[i]) < self.vertices.len()
        &&& forall|i: int|
            0 <= i < self.vertices.len() ==> (#[trigger] self.vertices[i]).model
                < self.models.len()
    }
}

impl<S, M> View for Batch<S, M> {
    type V = BatchView<S, M>;

    open spec fn view(&self) -> BatchView<S, M> {
        BatchView {
            vertices: self.vertices@,
            indices: self.indices@,
            models: self.models@,
            foreground: self.foreground,
            fill: self.fill,
        }
    }
}

/// Whether the batch that a call handed out, if any, is the one that the
/// model says.
pub open spec fn flush_is<S, M>(flushed: Option<Batch<S, M>>, event: Option<BatchView<S, M>>)
    -> bool {
    match flushed {
        Some(batch) => event == Some(batch@),
        None => event is None,
    }
}

/// Mathematical model of a [`Painter`].
pub struct PainterView<S, M> {
    /// The batch collected so far.
    pub mesh: MeshView<PaintingVertex<S>>,
    /// The matrices that the vertices of the batch refer to.
    pub transforms: TransformStackView<M>,
    /// The drawing state.
    pub settings: PainterSettings<S>,
    /// The alpha that a colour without alpha is given.
    pub opaque: S,
}

impl<S, M> PainterView<S, M> {
    /// Mesh and stack are valid, the stack has room for the identity, a
    /// model carried over a flush, and one more, every index refers to a
    /// vertex of the mesh, and every vertex to a matrix on the stack.
    pub open spec fn wf(self) -> bool {
        &&& self.mesh.wf()
        &&& self.transforms.wf()
        &&& 3 <= self.transforms.capacity
        &&& self.mesh.indices_in_range()
        &&& self.models_in_range()
    }

    /// Every vertex of the mesh refers to a matrix on the stack.
    pub open spec fn models_in_range(self) -> bool {
        forall|i: int|
            0 <= i < self.mesh.vertices.len() ==> (#[trigger] self.mesh.vertices[i]).model
                < self.transforms.models.len()
    }

    /// The vertex that the painter makes at `(x, y)` now.
    pub open spec fn vertex(self, x: S, y: S) -> PaintingVertex<S> {
        PaintingVertex {
            pos: (x, y),
            color: (
                self.settings.color.0,
                self.settings.color.1,
                self.settings.color.2,
                self.settings.alpha,
            ),
            model: self.transforms.current_index() as usize,
        }
    }

    /// The vertices that the painter makes of `points` now.
    pub open spec fn vertices_of(self, points: Seq<(S, S)>) -> Seq<PaintingVertex<S>> {
        Seq::new(points.len(), |i: int| self.vertex(points[i].0, points[i].1))
    }

    /// What a flush hands out now.
    pub open spec fn batch(self) -> BatchView<S, M> {
        BatchView {
            vertices: self.mesh.vertices,
            indices: self.mesh.indices,
            models: self.transforms.models,
            foreground: self.settings.foreground,
            fill: self.settings.fill,
        }
    }

    /// The painter after a flush: the mesh is empty, the stack is reset with
    /// a model that is being built carried over, the drawing state is kept.
    pub open spec fn flushed(self) -> Self {
        PainterView { mesh: self.mesh.cleared(), transforms: self.transforms.reset(), ..self }
    }

    /// A shape of `n_vertices` vertices and `n_indices` indices forces a
    /// flush: the mesh is full, or it has not the room for the shape. A
    /// full mesh is flushed whatever the shape, also for a fan that adds no
    /// index.
    pub open spec fn must_flush(self, n_vertices: nat, n_indices: nat) -> bool {
        self.mesh.full() || !self.mesh.fits(n_vertices, n_indices)
    }

    /// The painter once room was made for a shape.
    pub open spec fn room_made(self, n_vertices: nat, n_indices: nat) -> Self {
        if self.must_flush(n_vertices, n_indices) {
            self.flushed()
        } else {
            self
        }
    }

    /// The batch that making room for a shape hands out.
    pub open spec fn room_event(self, n_vertices: nat, n_indices: nat) -> Option<BatchView<S, M>> {
        if self.must_flush(n_vertices, n_indices) {
            Some(self.batch())
        } else {
            None
        }
    }

    /// The painter after a triangle was appended to the mesh as it is.
    pub open spec fn with_triangle(self, x1: S, y1: S, x2: S, y2: S, x3: S, y3: S) -> Self {
        PainterView {
            mesh: self.mesh.with_tri(self.vertex(x1, y1), self.vertex(x2, y2), self.vertex(x3, y3)),
            ..self
        }
    }

    /// The painter after a quad was appended to the mesh as it is.
    pub open spec fn with_quad(
        self,
        x1: S,
        y1: S,
        x2: S,
        y2: S,
        x3: S,
        y3: S,
        x4: S,
        y4: S,
    ) -> Self {
        PainterView {
            mesh: self.mesh.with_quad(
                self.vertex(x1, y1),
                self.vertex(x2, y2),
                self.vertex(x3, y3),
                self.vertex(x4, y4),
            ),
            ..self
        }
    }

    /// The painter after a fan was appended to the mesh as it is.
    pub open spec fn with_fan(self, x0: S, y0: S, ring: Seq<(S, S)>) -> Self {
        PainterView { mesh: self.mesh.with_fan(self.vertex(x0, y0), self.vertices_of(ring)), ..self }
    }

    /// The painter once the stack has room for one more model.
    pub open spec fn model_room_made(self) -> Self {
        if self.transforms.full() {
            self.flushed()
        } else {
            self
        }
    }

    /// The batch that making room for one more model hands out.
    pub open spec fn model_room_event(self) -> Option<BatchView<S, M>> {
        if self.transforms.full() {
            Some(self.batch())
        } else {
            None
        }
    }

    /// The painter after a model was begun on the stack as it is.
    pub open spec fn with_model_begun(self) -> Self {
        PainterView { transforms: self.transforms.begun(), ..self }
    }
}

/// Turns shape calls into vertices and indices of a bounded batch, tags
/// every vertex with the matrix that is current when it is made, and hands
/// the batch out for drawing whenever the mesh is full or the next shape or
/// model would not fit.
///
/// `S` is the number type of coordinates and colour channels, `M` the
/// matrix type. The painter never looks into either.
pub struct Painter<S, M> {
    painting: Mesh<PaintingVertex<S>>,
    settings: PainterSettings<S>,
    transforms: TransformStack2D<M>,
    opaque: S,
}

impl<S, M> View for Painter<S, M> {
    type V = PainterView<S, M>;

    closed spec fn view(&self) -> PainterView<S, M> {
        PainterView {
            mesh: self.painting@,
            transforms: self.transforms@,
            settings: self.settings,
            opaque: self.opaque,
        }
    }
}

impl<S: Copy, M: Copy> Painter<S, M> {
    /// Validity of a painter: see [`PainterView::wf`].
    pub open spec fn wf(&self) -> bool {
        self@.wf()
    }

    /// A painter with the standard bounds. `identity` is the matrix of
    /// vertices outside any model; `one` is the full value of a colour
    /// channel. The painter starts white and opaque, filling, in the
    /// foreground.
    pub fn ne(identity: M, one: S) -> (painter: Self)
        ensures
            painter.wf(),
            painter@ == (PainterView {
                mesh: MeshView {
                    vertices: Seq::empty(),
                    indices: Seq::empty(),
                    max_vertices: MAX_VERTICES as nat,
                    max_indices: MAX_INDICES as nat,
                    draw_type: crate::buffer::DrawType::Dynamic,
                },
                transforms: TransformStackView {
                    models: seq![identity],
                    building: false,
                    capacity: MAX_MODEL_MATS as nat,
                    identity,
                },
                settings: PainterSettings {
                    color: (one, one, one),
                    alpha: one,
                    foreground: true,
                    fill: true,
                },
                opaque: one,
            }),
    {
        Self::with_capacity(MAX_VERTICES, MAX_INDICES, MAX_MODEL_MATS, identity, one)
    }

    /// A painter whose batches hold at most `n_vertices` vertices,
    /// `n_indices` indices and `n_models` matrices; otherwise as
    /// [`Painter::ne`].
    pub fn with_capacity(
        n_vertices: usize,
        n_indices: usize,
        n_models: usize,
        identity: M,
        one: S,
    ) -> (painter: Self)
        requires
            n_vertices <= u32::MAX,
            3 <= n_models,
        ensures
            painter.wf(),
            painter@ == (PainterView {
                mesh: MeshView {
                    vertices: Seq::empty(),
                    indices: Seq::empty(),
                    max_vertices: n_vertices as nat,
                    max_indices: n_indices as nat,
                    draw_type: crate::buffer::DrawType::Dynamic,
                },
                transforms: TransformStackView {
                    models: seq![identity],
                    building: false,
                    capacity: n_models as nat,
                    identity,
                },
                settings: PainterSettings {
                    color: (one, one, one),
                    alpha: one,
                    foreground: true,
                    fill: true,
                },
                opaque: one,
            }),
    {
        let painting = Mesh::dynamic_with_capacity(n_vertices, n_indices);
        let transforms = TransformStack2D::new(n_models, identity);
        let settings = PainterSettings {
            color: (one, one, one),
            alpha: one,
            foreground: true,
            fill: true,
        };
        Painter { painting, settings, transforms, opaque: one }
    }

    /// The batch collected so far.
    pub fn painting(&self) -> (mesh: &Mesh<PaintingVertex<S>>)
        ensures
            mesh@ == self@.mesh,
    {
        &self.painting
    }

    /// The matrices that the vertices of the batch refer to.
    pub fn transforms(&self) -> (stack: &TransformStack2D<M>)
        ensures
            stack@ == self@.transforms,
    {
        &self.transforms
    }

    /// The drawing state.
    pub fn settings(&self) -> (settings: PainterSettings<S>)
        ensures
            settings == self@.settings,
    {
        self.settings
    }

    /// Flushes: hands out the batch for drawing and starts the next one.
    pub fn paint(&mut self) -> (batch: Batch<S, M>)
        requires
            old(self).wf(),
        ensures
            final(self).wf(),
            batch@ == old(self)@.batch(),
            batch@.wf(),
            final(self)@ == old(self)@.flushed(),
    {
        let (vertices, indices) = self.painting.take();
        let models = slice_to_vec(self.transforms.get_stack());
        self.transforms.on_new_painting();
        Batch {
            vertices,
            indices,
            models,
            foreground: self.settings.foreground,
            fill: self.settings.fill,
        }
    }

    /// Starts the next batch and drops the current one undrawn.
    pub fn new_painting(&mut self)
        requires
            old(self).wf(),
        ensures
            final(self).wf(),
            final(self)@ == old(self)@.flushed(),
    {
        self.painting.clear();
        self.transforms.on_new_painting();
    }

    /// Shapes are filled from now on.
    pub fn fill(&mut self)
        ensures
            final(self)@ == (PainterView {
                settings: PainterSettings { fill: true, ..old(self)@.settings },
                ..old(self)@
            }),
    {
        self.settings.fill = true;
    }

    /// Shapes are outlined from now on.
    pub fn nofill(&mut self)
        ensures
            final(self)@ == (PainterView {
                settings: PainterSettings { fill: false, ..old(self)@.settings },
                ..old(self)@
            }),
    {
        self.settings.fill = false;
    }

    /// Batches are drawn behind the scene from now on.
    pub fn do_background(&mut self)
        ensures
            final(self)@ == (PainterView {
                settings: PainterSettings { foreground: false, ..old(self)@.settings },
                ..old(self)@
            }),
    {
        self.settings.foreground = false;
    }

    /// Batches are drawn in front of the scene from now on.
    pub fn do_foreground(&mut self)
        ensures
            final(self)@ == (PainterView {
                settings: PainterSettings { foreground: true, ..old(self)@.settings },
                ..old(self)@
            }),
    {
        self.settings.foreground = true;
    }

    /// Sets the colour and makes it opaque.
    pub fn color(&mut self, red: S, green: S, blue: S)
        ensures
            final(self)@ == (PainterView {
                settings: PainterSettings {
                    color: (red, green, blue),
                    alpha: old(self)@.opaque,
                    ..old(self)@.settings
                },
                ..old(self)@
            }),
    {
        let opaque = self.opaque;
        self.color_alpha(red, green, blue, opaque);
    }

    /// Sets an opaque grey.
    pub fn grey(&mut self, val: S)
        ensures
            final(self)@ == (PainterView {
                settings: PainterSettings {
                    color: (val, val, val),
                    alpha: old(self)@.opaque,
                    ..old(self)@.settings
                },
                ..old(self)@
            }),
    {
        let opaque = self.opaque;
        self.color_alpha(val, val, val, opaque)
    }

    /// Sets colour and alpha.
    pub fn color_alpha(&mut self, red: S, green: S, blue: S, alpha: S)
        ensures
            final(self)@ == (PainterView {
                settings: PainterSettings {
                    color: (red, green, blue),
                    alpha,
                    ..old(self)@.settings
                },
                ..old(self)@
            }),
    {
        self.settings.color = (red, green, blue);
        self.settings.alpha = alpha;
    }

    /// Sets the alpha and keeps the colour.
    pub fn alpha(&mut self, a: S)
        ensures
            final(self)@ == (PainterView {
                settings: PainterSettings { alpha: a, ..old(self)@.settings },
                ..old(self)@
            }),
    {
        self.settings.alpha = a;
    }

    /// Begins a model. A full stack is flushed first; the batch that this
    /// hands out, if any, is returned for drawing.
    pub fn new_model(&mut self) -> (flushed: Option<Batch<S, M>>)
        requires
            old(self).wf(),
        ensures
            final(self).wf(),
            flush_is(flushed, old(self)@.model_room_event()),
            final(self)@ == old(self)@.model_room_made().with_model_begun(),
    {
        let flushed = if self.transforms.full() {
            Some(self.paint())
        } else {
            None
        };
        let ghost before = self@;
        self.transforms.new_matrix();
        proof {
            assert(self@.transforms.models.len() == before.transforms.models.len() + 1);
        }
        flushed
    }

    /// Ends the model that is being built.
    pub fn end_model(&mut self)
        ensures
            final(self)@ == (PainterView {
                transforms: old(self)@.transforms.ended(),
                ..old(self)@
            }),
            old(self).wf() ==> final(self).wf(),
    {
        self.transforms.done();
    }

    /// The matrix of the model that is being built, or the matrix at index
    /// 0 outside any model.
    pub fn model(&self) -> (m: M)
        requires
            self.wf(),
        ensures
            m == self@.transforms.current(),
    {
        self.transforms.current()
    }

    /// Replaces the matrix of the model that is being built, or the matrix
    /// at index 0 outside any model.
    pub fn set_model(&mut self, m: &M)
        requires
            old(self).wf(),
        ensures
            final(self).wf(),
            final(self)@ == (PainterView {
                transforms: old(self)@.transforms.with_current(*m),
                ..old(self)@
            }),
    {
        let ghost before = self@;
        self.transforms.set(m);
        proof {
            assert(self@.transforms.models.len() == before.transforms.models.len());
        }
    }

    /// The vertex at `(x, y)` in the current colour, tagged with the current
    /// matrix.
    pub fn make_vertex(&self, x: S, y: S) -> (v: PaintingVertex<S>)
        requires
            self.wf(),
        ensures
            v == self@.vertex(x, y),
    {
        let color = (
            self.settings.color.0,
            self.settings.color.1,
            self.settings.color.2,
            self.settings.alpha,
        );
        PaintingVertex { pos: (x, y), color, model: self.transforms.get_current_index() }
    }

    /// Makes room for a shape of `n_vertices` vertices and `n_indices`
    /// indices: flushes when the mesh is full or has not the room for it.
    pub fn make_room(&mut self, n_vertices: usize, n_indices: usize) -> (flushed: Option<
        Batch<S, M>,
    >)
        requires
            old(self).wf(),
        ensures
            final(self).wf(),
            flush_is(flushed, old(self)@.room_event(n_vertices as nat, n_indices as nat)),
            final(self)@ == old(self)@.room_made(n_vertices as nat, n_indices as nat),
    {
        if !self.painting.full() && self.painting.fits(n_vertices, n_indices) {
            None
        } else {
            Some(self.paint())
        }
    }

    /// Draws a triangle. The batch that this hands out, if any, is returned
    /// for drawing; the triangle is in the batch that follows it.
    pub fn triangle(&mut self, x1: S, y1: S, x2: S, y2: S, x3: S, y3: S) -> (flushed: Option<
        Batch<S, M>,
    >)
        requires
            old(self).wf(),
            3 <= old(self)@.mesh.max_vertices,
            3 <= old(self)@.mesh.max_indices,
        ensures
            final(self).wf(),
            flush_is(flushed, old(self)@.room_event(3, 3)),
            final(self)@ == old(self)@.room_made(3, 3).with_triangle(x1, y1, x2, y2, x3, y3),
    {
        let flushed = self.make_room(3, 3);
        let v1 = self.make_vertex(x1, y1);
        let v2 = self.make_vertex(x2, y2);
        let v3 = self.make_vertex(x3, y3);
        self.painting.push_tri(&v1, &v2, &v3);
        flushed
    }

    /// Draws a quad through the four corners in the order given. The batch
    /// that this hands out, if any, is returned for drawing.
    pub fn quad(
        &mut self,
        x1: S,
        y1: S,
        x2: S,
        y2: S,
        x3: S,
        y3: S,
        x4: S,
        y4: S,
    ) -> (flushed: Option<Batch<S, M>>)
        requires
            old(self).wf(),
            4 <= old(self)@.mesh.max_vertices,
            6 <= old(self)@.mesh.max_indices,
        ensures
            final(self).wf(),
            flush_is(flushed, old(self)@.room_event(4, 6)),
            final(self)@ == old(self)@.room_made(4, 6).with_quad(x1, y1, x2, y2, x3, y3, x4, y4),
    {
        let flushed = self.make_room(4, 6);
        let v1 = self.make_vertex(x1, y1);
        let v2 = self.make_vertex(x2, y2);
        let v3 = self.make_vertex(x3, y3);
        let v4 = self.make_vertex(x4, y4);

        self.painting.push_quad(&v1, &v2, &v3, &v4);
        flushed
    }

    /// Draws a fan around `(x0, y0)` through the ring points in order. The
    /// batch that this hands out, if any, is returned for drawing.
    pub fn fan(&mut self, x0: S, y0: S, fan: &[(S, S)]) -> (flushed: Option<Batch<S, M>>)
        requires
            old(self).wf(),
            1 + fan@.len() <= old(self)@.mesh.max_vertices,
            fan_index_count(fan@.len()) <= old(self)@.mesh.max_indices,
        ensures
            final(self).wf(),
            flush_is(
                flushed,
                old(self)@.room_event(1 + fan@.len(), fan_index_count(fan@.len())),
            ),
            final(self)@ == old(self)@.room_made(
                1 + fan@.len(),
                fan_index_count(fan@.len()),
            ).with_fan(x0, y0, fan@),
    {
        let n_vertices = fan.len() + 1;
        let n_indices = if fan.len() == 0 {
            0
        } else {
            3 * (fan.len() - 1)
        };
        let flushed = self.make_room(n_vertices, n_indices);
        let v0 = self.make_vertex(x0, y0);
        let mut vfan: Vec<PaintingVertex<S>> = Vec::new();
        let mut i: usize = 0;
        while i < fan.len()
            invariant
                i <= fan@.len(),
                self.wf(),
                vfan@ =~= self@.vertices_of(fan@.subrange(0, i as int)),
            decreases fan@.len() - i,
        {
            let (x, y) = fan[i];
            let v = self.make_vertex(x, y);
            vfan.push(v);
            i = i + 1;
        }
        proof {
            assert(fan@.subrange(0, i as int) =~= fan@);
        }
        self.painting.push_fan(&v0, vfan.as_slice());
        flushed
    }
}

/// A flush loses nothing that later shapes need: where a model is being
/// built its matrix is current before and after, the drawing state is the
/// same, and the next vertex differs from the one that would have been made
/// before the flush in its matrix index alone.
pub proof fn lemma_flush_keeps_drawing_state<S, M>(painter: PainterView<S, M>, x: S, y: S)
    requires
        painter.wf(),
    ensures
        painter.flushed().wf(),
        painter.flushed().settings == painter.settings,
        painter.flushed().mesh.vertices.len() == 0,
        painter.flushed().mesh.indices.len() == 0,
        painter.flushed().mesh.max_vertices == painter.mesh.max_vertices,
        painter.flushed().mesh.max_indices == painter.mesh.max_indices,
        painter.flushed().transforms.building == painter.transforms.building,
        painter.transforms.building ==> painter.flushed().transforms.current()
            == painter.transforms.current(),
        painter.flushed().vertex(x, y).pos == painter.vertex(x, y).pos,
        painter.flushed().vertex(x, y).color == painter.vertex(x, y).color,
        painter.flushed().vertex(x, y).model == (if painter.transforms.building {
            1usize
        } else {
            0usize
        }),
{
    crate::transform_stack_2d::lemma_reset_carries_model(painter.transforms);
}

/// A shape is never split and never overflows: for a shape of `n_vertices`
/// vertices and `n_indices` indices that fits an empty mesh, a batch is
/// handed out exactly when the mesh is full or has not the room, and then
/// the mesh is empty for the shape to open the next batch. A full mesh is
/// always flushed; for a shape that adds a vertex and an index, being full
/// is one way of not having the room.
pub proof fn lemma_room_made_fits<S, M>(painter: PainterView<S, M>, n_vertices: nat, n_indices: nat)
    requires
        painter.wf(),
        n_vertices <= painter.mesh.max_vertices,
        n_indices <= painter.mesh.max_indices,
    ensures
        painter.room_made(n_vertices, n_indices).wf(),
        painter.room_made(n_vertices, n_indices).mesh.fits(n_vertices, n_indices),
        painter.room_event(n_vertices, n_indices) is Some <==> painter.must_flush(
            n_vertices,
            n_indices,
        ),
        painter.must_flush(n_vertices, n_indices) ==> painter.room_made(
            n_vertices,
            n_indices,
        ).mesh.vertices.len() == 0,
        !painter.must_flush(n_vertices, n_indices) ==> painter.room_made(n_vertices, n_indices)
            == painter,
        painter.mesh.full() ==> painter.must_flush(n_vertices, n_indices),
        n_vertices >= 1 && n_indices >= 1 ==> (painter.must_flush(n_vertices, n_indices)
            <==> !painter.mesh.fits(n_vertices, n_indices)),
{
    lemma_flush_keeps_drawing_state(painter, painter.opaque, painter.opaque);
}

/// Making room loses nothing: what is handed out, followed by what stays in
/// the mesh, is what the mesh held, vertices and indices alike.
pub proof fn lemma_room_made_loses_nothing<S, M>(
    painter: PainterView<S, M>,
    n_vertices: nat,
    n_indices: nat,
)
    ensures
        match painter.room_event(n_vertices, n_indices) {
            Some(batch) => {
                &&& batch.vertices + painter.room_made(n_vertices, n_indices).mesh.vertices
                    == painter.mesh.vertices
                &&& batch.indices + painter.room_made(n_vertices, n_indices).mesh.indices
                    == painter.mesh.indices
                &&& batch.models == painter.transforms.models
            },
            None => painter.room_made(n_vertices, n_indices) == painter,
        },
{
    if painter.must_flush(n_vertices, n_indices) {
        assert(painter.batch().vertices + painter.flushed().mesh.vertices =~= painter.mesh.vertices);
        assert(painter.batch().indices + painter.flushed().mesh.indices =~= painter.mesh.indices);
    }
}

} // verus!
