//! The render context: owner of the registered scene objects, the render
//! mode and the camera projection. It does not touch a GPU itself —
//! instead, registration and each frame tick produce an ordered stream of
//! drawing commands (`RenderOp`) for the GPU-facing host layer to perform,
//! and the contracts pin that stream down exactly.

use vstd::prelude::*;
use crate::convert::{Mat4, flat_of};
use crate::mesh::{Drawable, WebGlTriangles};

verus! {

/// How registered objects are drawn each frame.
#[derive(Clone, Copy, Debug, PartialEq, Eq, Structural)]
pub enum RenderMode {
    /// One closed line loop per triangle: per-triangle outlines, so edges
    /// shared by two triangles are drawn twice. A known, accepted
    /// approximation of a wireframe, not an edge-deduplicated one.
    WIREFRAME,
    /// One indexed triangle draw over an object's whole index buffer.
    SHADE,
}

/// One drawing command for the host layer to perform, in stream order.
/// Matrices are 16 elements, column-major; coordinates and matrix elements
/// are bit patterns of single-precision scalars.
#[derive(Debug, PartialEq, Eq)]
pub enum RenderOp {
    /// Clear the color buffer.
    Clear,
    /// Upload the surface width and height as the two scalar uniforms.
    UploadViewport(u32, u32),
    /// Upload the camera projection matrix uniform.
    UploadProjection(Vec<u32>),
    /// Upload an object's vertex and index buffers into its dedicated pair
    /// of GPU buffers.
    UploadGeometry(Vec<u32>, Vec<u32>),
    /// Upload a model transform as the active model uniform.
    UploadModelTransform(Vec<u32>),
    /// One indexed triangle draw call over this many indices, from the
    /// start of the bound index buffer.
    DrawTriangles(usize),
    /// One line-loop draw call over three indices, starting at this index
    /// offset into the bound index buffer.
    DrawLineLoop(usize),
}

/// The mathematical shape of one drawing command.
#[verifier::ext_equal]
pub enum OpView {
    /// Clear the color buffer.
    Clear,
    /// Upload the surface width and height.
    UploadViewport(u32, u32),
    /// Upload the camera projection matrix.
    UploadProjection(Seq<u32>),
    /// Upload an object's vertex and index buffers.
    UploadGeometry(Seq<u32>, Seq<u32>),
    /// Upload a model transform.
    UploadModelTransform(Seq<u32>),
    /// One indexed triangle draw call over this many indices.
    DrawTriangles(nat),
    /// One line-loop draw call over three indices at this offset.
    DrawLineLoop(nat),
}

impl View for RenderOp {
    type V = OpView;

    open spec fn view(&self) -> OpView {
        match self {
            RenderOp::Clear => OpView::Clear,
            RenderOp::UploadViewport(w, h) => OpView::UploadViewport(*w, *h),
            RenderOp::UploadProjection(m) => OpView::UploadProjection(m@),
            RenderOp::UploadGeometry(v, i) => OpView::UploadGeometry(v@, i@),
            RenderOp::UploadModelTransform(m) => OpView::UploadModelTransform(m@),
            RenderOp::DrawTriangles(n) => OpView::DrawTriangles(*n as nat),
            RenderOp::DrawLineLoop(s) => OpView::DrawLineLoop(*s as nat),
        }
    }
}

/// The shapes of a command stream, in order.
pub open spec fn ops_view(ops: Seq<RenderOp>) -> Seq<OpView> {
    ops.map_values(|op: RenderOp| op@)
}

/// The commands that registering one object issues: its geometry upload,
/// then its model transform upload at registration time.
pub open spec fn add_ops(o: Drawable) -> Seq<OpView> {
    seq![
        OpView::UploadGeometry(o.gl_vertices(), o.gl_indices()),
        OpView::UploadModelTransform(flat_of(o.gl_model())),
    ]
}

/// The draw calls one frame issues for one object's index buffer under the
/// given mode: a single indexed triangle draw when shaded, or one line
/// loop per consecutive index triple when wireframe.
pub open spec fn draw_ops(mode: RenderMode, n: nat) -> Seq<OpView> {
    match mode {
        RenderMode::SHADE => seq![OpView::DrawTriangles(n)],
        RenderMode::WIREFRAME => Seq::new(n / 3, |t: int| OpView::DrawLineLoop((3 * t) as nat)),
    }
}

/// The commands one frame issues for one object: re-upload its current
/// model transform, then its mode-dependent draw calls.
pub open spec fn object_ops(o: Drawable, mode: RenderMode) -> Seq<OpView> {
    seq![OpView::UploadModelTransform(flat_of(o.gl_model()))] + draw_ops(
        mode,
        o.gl_indices().len(),
    )
}

/// The per-object command groups of one frame, in registration order.
pub open spec fn objects_ops(objs: Seq<Drawable>, mode: RenderMode) -> Seq<OpView>
    decreases objs.len(),
{
    if objs.len() == 0 {
        Seq::empty()
    } else {
        objects_ops(objs.drop_last(), mode) + object_ops(objs.last(), mode)
    }
}

/// The commands of one whole frame: clear the color buffer first, then
/// every object's group, in registration order.
pub open spec fn tick_ops(objs: Seq<Drawable>, mode: RenderMode) -> Seq<OpView> {
    seq![OpView::Clear] + objects_ops(objs, mode)
}

/// Extending the registered prefix by one object appends that object's
/// command group to the frame's stream.
proof fn lemma_objects_ops_step(objs: Seq<Drawable>, mode: RenderMode, i: int)
    requires
        0 <= i < objs.len(),
    ensures
        objects_ops(objs.subrange(0, i + 1), mode) == objects_ops(objs.subrange(0, i), mode)
            + object_ops(objs[i], mode),
{
    let pre = objs.subrange(0, i + 1);
    assert(pre.drop_last() =~= objs.subrange(0, i));
    assert(pre.last() == objs[i]);
}

/// The render context. It owns the scene object list exclusively; the
/// camera projection is fixed at construction and uploaded once, while
/// model transforms are re-uploaded every frame.
pub struct RenderContext {
    width: u32,
    height: u32,
    projection: Mat4,
    objects: Vec<Drawable>,
    render_mode: RenderMode,
}

impl RenderContext {
    /// The registered objects, in registration order.
    pub closed spec fn spec_objects(&self) -> Seq<Drawable> {
        self.objects@
    }

    /// The current render mode.
    pub closed spec fn spec_mode(&self) -> RenderMode {
        self.render_mode
    }

    /// The camera projection, column by column.
    pub closed spec fn spec_projection(&self) -> Seq<Seq<u32>> {
        self.projection@
    }

    /// The surface size in pixels.
    pub closed spec fn spec_size(&self) -> (u32, u32) {
        (self.width, self.height)
    }

    /// Creates a context for a surface of the given pixel size with a
    /// fixed camera projection, holding no objects and defaulting to
    /// wireframe mode. The returned commands upload the viewport size and
    /// the projection uniform, once each.
    pub fn new(width: u32, height: u32, projection: Mat4) -> (r: (RenderContext, Vec<RenderOp>))
        ensures
            r.0.spec_objects() == Seq::<Drawable>::empty(),
            r.0.spec_mode() == RenderMode::WIREFRAME,
            r.0.spec_projection() == projection@,
            r.0.spec_size() == (width, height),
            ops_view(r.1@) == seq![
                OpView::UploadViewport(width, height),
                OpView::UploadProjection(flat_of(projection@)),
            ],
    {
        proof {
            use_type_invariant(&projection);
        }
        let flat = crate::convert::flatten(&projection);
        let mut ops: Vec<RenderOp> = Vec::new();
        ops.push(RenderOp::UploadViewport(width, height));
        ops.push(RenderOp::UploadProjection(flat));
        let ctx = RenderContext {
            width,
            height,
            projection,
            objects: Vec::new(),
            render_mode: RenderMode::WIREFRAME,
        };
        proof {
            assert(ops_view(ops@) =~= seq![
                OpView::UploadViewport(width, height),
                OpView::UploadProjection(flat_of(ctx.projection@)),
            ]);
        }
        (ctx, ops)
    }

    /// Registers an object: appends it to the scene list and returns the
    /// commands that upload its geometry into a dedicated buffer pair and
    /// its current model transform, in that order.
    pub fn add_object(&mut self, object: Drawable) -> (ops: Vec<RenderOp>)
        ensures
            final(self).spec_objects() == old(self).spec_objects().push(object),
            final(self).spec_mode() == old(self).spec_mode(),
            final(self).spec_projection() == old(self).spec_projection(),
            final(self).spec_size() == old(self).spec_size(),
            ops_view(ops@) == add_ops(object),
    {
        let vertices = object.to_gl_triangles_vertices();
        let indices = object.to_gl_triangles_indices();
        let model = object.to_model_view_mat4();
        let mut ops: Vec<RenderOp> = Vec::new();
        ops.push(RenderOp::UploadGeometry(vertices, indices));
        ops.push(RenderOp::UploadModelTransform(model));
        proof {
            assert(ops_view(ops@) =~= add_ops(object));
        }
        self.objects.push(object);
        ops
    }

    /// Switches how every object is drawn from the next frame on.
    pub fn set_render_mode(&mut self, mode: RenderMode)
        ensures
            final(self).spec_mode() == mode,
            final(self).spec_objects() == old(self).spec_objects(),
            final(self).spec_projection() == old(self).spec_projection(),
            final(self).spec_size() == old(self).spec_size(),
    {
        self.render_mode = mode;
    }

    /// Replaces the model transform of the object at the given position;
    /// its geometry and every other object stay untouched. The new
    /// transform reaches the GPU with the next frame's re-upload.
    pub fn set_model_view(&mut self, index: usize, m: Mat4)
        requires
            index < old(self).spec_objects().len(),
        ensures
            final(self).spec_objects().len() == old(self).spec_objects().len(),
            final(self).spec_objects()[index as int].gl_model() == m@,
            final(self).spec_objects()[index as int].gl_vertices() == old(self).spec_objects()[
                index as int
            ].gl_vertices(),
            final(self).spec_objects()[index as int].gl_indices() == old(self).spec_objects()[
                index as int
            ].gl_indices(),
            forall|j: int|
                0 <= j < old(self).spec_objects().len() && j != index
                    ==> #[trigger] final(self).spec_objects()[j] == old(self).spec_objects()[j],
            final(self).spec_mode() == old(self).spec_mode(),
            final(self).spec_projection() == old(self).spec_projection(),
            final(self).spec_size() == old(self).spec_size(),
    {
        let obj = &mut self.objects[index];
        obj.set_model_view(m);
    }

    /// Emits one frame's per-object command groups, in registration order:
    /// for each object, its current model transform, then its draw calls
    /// under the current mode.
    fn draw_objects(&self) -> (ops: Vec<RenderOp>)
        ensures
            ops_view(ops@) == objects_ops(self.spec_objects(), self.spec_mode()),
    {
        let mut ops: Vec<RenderOp> = Vec::new();
        let mut i: usize = 0;
        while i < self.objects.len()
            invariant
                i <= self.objects@.len(),
                ops_view(ops@) == objects_ops(
                    self.objects@.subrange(0, i as int),
                    self.render_mode,
                ),
            decreases self.objects@.len() - i,
        {
            let o = &self.objects[i];
            let model = o.to_model_view_mat4();
            ops.push(RenderOp::UploadModelTransform(model));
            let indices = o.to_gl_triangles_indices();
            let ghost mid = ops_view(ops@);
            proof {
                assert(mid =~= objects_ops(self.objects@.subrange(0, i as int), self.render_mode)
                    + seq![OpView::UploadModelTransform(flat_of(self.objects@[i as int].gl_model()))]);
            }
            match self.render_mode {
                RenderMode::SHADE => {
                    ops.push(RenderOp::DrawTriangles(indices.len()));
                    proof {
                        assert(ops_view(ops@) =~= mid + draw_ops(
                            RenderMode::SHADE,
                            self.objects@[i as int].gl_indices().len(),
                        ));
                    }
                },
                RenderMode::WIREFRAME => {
                    let total = indices.len() / 3;
                    proof {
                        assert(3 * total == indices@.len());
                        assert(3 * total <= usize::MAX);
                    }
                    let mut t: usize = 0;
                    while t < total
                        invariant
                            t <= total,
                            3 * total == indices@.len(),
                            3 * total <= usize::MAX,
                            indices@ == self.objects@[i as int].gl_indices(),
                            i < self.objects@.len(),
                            ops_view(ops@) == mid + Seq::new(
                                t as nat,
                                |k: int| OpView::DrawLineLoop((3 * k) as nat),
                            ),
                        decreases total - t,
                    {
                        let ghost prev = ops@;
                        ops.push(RenderOp::DrawLineLoop(3 * t));
                        proof {
                            assert(ops@ == prev.push(RenderOp::DrawLineLoop((3 * t) as usize)));
                            assert(ops_view(ops@) =~= ops_view(prev).push(
                                OpView::DrawLineLoop((3 * t) as nat),
                            ));
                            assert(ops_view(ops@) =~= mid + Seq::new(
                                (t + 1) as nat,
                                |k: int| OpView::DrawLineLoop((3 * k) as nat),
                            ));
                        }
                        t += 1;
                    }
                    proof {
                        assert(ops_view(ops@) =~= mid + draw_ops(
                            RenderMode::WIREFRAME,
                            self.objects@[i as int].gl_indices().len(),
                        ));
                    }
                },
            }
            proof {
                lemma_objects_ops_step(self.objects@, self.render_mode, i as int);
                assert(ops_view(ops@) =~= objects_ops(
                    self.objects@.subrange(0, i as int + 1),
                    self.render_mode,
                ));
            }
            i += 1;
        }
        proof {
            assert(self.objects@.subrange(0, self.objects@.len() as int) =~= self.objects@);
        }
        ops
    }

    /// Performs one frame: clear the color buffer first, then for every
    /// registered object, in registration order, re-upload its current
    /// model transform and issue its mode-dependent draw calls. Returns
    /// the frame's command stream; the host layer performs it and
    /// schedules the next tick.
    pub fn tick(&self) -> (ops: Vec<RenderOp>)
        ensures
            ops_view(ops@) == tick_ops(self.spec_objects(), self.spec_mode()),
    {
        let mut ops: Vec<RenderOp> = Vec::new();
        ops.push(RenderOp::Clear);
        let mut rest = self.draw_objects();
        ops.append(&mut rest);
        proof {
            assert(ops_view(ops@) =~= tick_ops(self.objects@, self.render_mode));
        }
        ops
    }

    /// Removes and returns the object at the given position; the ones
    /// after it move up one place. The current session only ever grows the
    /// scene, but removal is supported structurally.
    pub fn remove_object(&mut self, index: usize) -> (removed: Drawable)
        requires
            index < old(self).spec_objects().len(),
        ensures
            removed == old(self).spec_objects()[index as int],
            final(self).spec_objects() == old(self).spec_objects().remove(index as int),
            final(self).spec_mode() == old(self).spec_mode(),
            final(self).spec_projection() == old(self).spec_projection(),
            final(self).spec_size() == old(self).spec_size(),
    {
        self.objects.remove(index)
    }

    /// How many objects are registered.
    pub fn object_count(&self) -> (n: usize)
        ensures
            n == self.spec_objects().len(),
    {
        self.objects.len()
    }

    /// The current render mode.
    pub fn render_mode(&self) -> (m: RenderMode)
        ensures
            m == self.spec_mode(),
    {
        self.render_mode
    }
}

/// A model-transform upload.
pub open spec fn is_model_upload(op: OpView) -> bool {
    op is UploadModelTransform
}

/// A draw call of either mode.
pub open spec fn is_draw_call(op: OpView) -> bool {
    op is DrawTriangles || op is DrawLineLoop
}

/// The commands of a stream that satisfy the predicate, in stream order.
pub open spec fn keep_ops(s: Seq<OpView>, pred: spec_fn(OpView) -> bool) -> Seq<OpView>
    decreases s.len(),
{
    if s.len() == 0 {
        Seq::empty()
    } else if pred(s.last()) {
        keep_ops(s.drop_last(), pred).push(s.last())
    } else {
        keep_ops(s.drop_last(), pred)
    }
}

/// The model-transform uploads of a command stream, in stream order.
pub open spec fn model_uploads(s: Seq<OpView>) -> Seq<OpView> {
    keep_ops(s, |op: OpView| is_model_upload(op))
}

/// The draw calls of a command stream, in stream order.
pub open spec fn draw_calls(s: Seq<OpView>) -> Seq<OpView> {
    keep_ops(s, |op: OpView| is_draw_call(op))
}

/// Both selections distribute over concatenation of streams.
proof fn lemma_stream_filters_add(a: Seq<OpView>, b: Seq<OpView>)
    ensures
        model_uploads(a + b) == model_uploads(a) + model_uploads(b),
        draw_calls(a + b) == draw_calls(a) + draw_calls(b),
    decreases b.len(),
{
    if b.len() == 0 {
        assert(a + b =~= a);
        assert(model_uploads(a) + model_uploads(b) =~= model_uploads(a));
        assert(draw_calls(a) + draw_calls(b) =~= draw_calls(a));
    } else {
        lemma_stream_filters_add(a, b.drop_last());
        assert((a + b).drop_last() =~= a + b.drop_last());
        assert((a + b).last() == b.last());
        if is_model_upload(b.last()) {
            assert(model_uploads(a) + model_uploads(b) =~= (model_uploads(a) + model_uploads(
                b.drop_last(),
            )).push(b.last()));
        }
        if is_draw_call(b.last()) {
            assert(draw_calls(a) + draw_calls(b) =~= (draw_calls(a) + draw_calls(
                b.drop_last(),
            )).push(b.last()));
        }
    }
}

/// A stream of draw calls alone selects to itself and holds no uploads.
proof fn lemma_stream_of_draws(s: Seq<OpView>)
    requires
        forall|i: int| 0 <= i < s.len() ==> is_draw_call(#[trigger] s[i]),
    ensures
        draw_calls(s) == s,
        model_uploads(s) == Seq::<OpView>::empty(),
    decreases s.len(),
{
    if s.len() > 0 {
        assert(forall|i: int| 0 <= i < s.len() - 1 ==> s.drop_last()[i] == s[i]);
        lemma_stream_of_draws(s.drop_last());
        assert(s.drop_last().push(s.last()) =~= s);
    }
}

/// The model uploads and draw calls of one object's frame group: the
/// upload comes alone, and every other command of the group is a draw.
proof fn lemma_object_ops_filters(o: Drawable, mode: RenderMode)
    ensures
        model_uploads(object_ops(o, mode)) == seq![
            OpView::UploadModelTransform(flat_of(o.gl_model())),
        ],
        draw_calls(object_ops(o, mode)) == draw_ops(mode, o.gl_indices().len()),
        mode is SHADE ==> draw_calls(object_ops(o, mode)) == seq![
            OpView::DrawTriangles(o.gl_indices().len()),
        ],
        mode is WIREFRAME ==> draw_calls(object_ops(o, mode)).len() == o.gl_indices().len() / 3,
{
    let upload = seq![OpView::UploadModelTransform(flat_of(o.gl_model()))];
    let draws = draw_ops(mode, o.gl_indices().len());
    lemma_stream_filters_add(upload, draws);
    assert(model_uploads(upload) =~= upload) by {
        reveal_with_fuel(keep_ops, 3);
    }
    assert(draw_calls(upload) =~= Seq::<OpView>::empty()) by {
        reveal_with_fuel(keep_ops, 3);
    }
    assert(forall|i: int| 0 <= i < draws.len() ==> is_draw_call(#[trigger] draws[i]));
    lemma_stream_of_draws(draws);
    assert(model_uploads(object_ops(o, mode)) =~= upload);
    assert(draw_calls(object_ops(o, mode)) =~= draws);
}

/// Total line-loop draws one wireframe frame issues: one per index triple
/// of every registered object.
pub open spec fn wire_draws(objs: Seq<Drawable>) -> nat
    decreases objs.len(),
{
    if objs.len() == 0 {
        0
    } else {
        wire_draws(objs.drop_last()) + objs.last().gl_indices().len() / 3
    }
}

/// Filters of one frame's per-object groups, by induction over the
/// registration order.
proof fn lemma_objects_ops_filters(objs: Seq<Drawable>, mode: RenderMode)
    ensures
        model_uploads(objects_ops(objs, mode)).len() == objs.len(),
        forall|i: int|
            0 <= i < objs.len() ==> model_uploads(objects_ops(objs, mode))[i]
                == OpView::UploadModelTransform(flat_of(#[trigger] objs[i].gl_model())),
        mode is SHADE ==> draw_calls(objects_ops(objs, mode)).len() == objs.len(),
        mode is SHADE ==> forall|i: int|
            0 <= i < objs.len() ==> draw_calls(objects_ops(objs, mode))[i] == OpView::DrawTriangles(
                #[trigger] objs[i].gl_indices().len(),
            ),
        mode is WIREFRAME ==> draw_calls(objects_ops(objs, mode)).len() == wire_draws(objs),
    decreases objs.len(),
{
    if objs.len() > 0 {
        let rest = objs.drop_last();
        let last = objs.last();
        lemma_objects_ops_filters(rest, mode);
        lemma_object_ops_filters(last, mode);
        lemma_stream_filters_add(objects_ops(rest, mode), object_ops(last, mode));
        assert(model_uploads(objects_ops(objs, mode)) == model_uploads(objects_ops(rest, mode))
            + seq![OpView::UploadModelTransform(flat_of(last.gl_model()))]);
        assert forall|i: int| 0 <= i < objs.len() implies model_uploads(objects_ops(objs, mode))[i]
            == OpView::UploadModelTransform(flat_of(#[trigger] objs[i].gl_model())) by {
            if i < rest.len() {
                assert(rest[i] == objs[i]);
                assert(model_uploads(objects_ops(objs, mode))[i] == model_uploads(
                    objects_ops(rest, mode),
                )[i]);
            } else {
                assert(objs[i] == last);
            }
        }
        if mode is SHADE {
            assert(draw_calls(objects_ops(objs, mode)) == draw_calls(objects_ops(rest, mode))
                + seq![OpView::DrawTriangles(last.gl_indices().len())]);
            assert forall|i: int| 0 <= i < objs.len() implies draw_calls(objects_ops(objs, mode))[i]
                == OpView::DrawTriangles(#[trigger] objs[i].gl_indices().len()) by {
                if i < rest.len() {
                    assert(rest[i] == objs[i]);
                    assert(draw_calls(objects_ops(objs, mode))[i] == draw_calls(
                        objects_ops(rest, mode),
                    )[i]);
                } else {
                    assert(objs[i] == last);
                }
            }
        }
    }
}

/// Registering N objects and ticking once re-uploads exactly N model
/// transforms, one per object in registration order; shaded mode then
/// issues exactly one triangle draw per object, in the same order, and
/// wireframe mode one line-loop draw per index triple of every object.
pub proof fn lemma_tick_per_object(objs: Seq<Drawable>, mode: RenderMode)
    ensures
        model_uploads(tick_ops(objs, mode)).len() == objs.len(),
        forall|i: int|
            0 <= i < objs.len() ==> model_uploads(tick_ops(objs, mode))[i]
                == OpView::UploadModelTransform(flat_of(#[trigger] objs[i].gl_model())),
        mode is SHADE ==> draw_calls(tick_ops(objs, mode)).len() == objs.len(),
        mode is SHADE ==> forall|i: int|
            0 <= i < objs.len() ==> draw_calls(tick_ops(objs, mode))[i] == OpView::DrawTriangles(
                #[trigger] objs[i].gl_indices().len(),
            ),
        mode is WIREFRAME ==> draw_calls(tick_ops(objs, mode)).len() == wire_draws(objs),
{
    let clear = seq![OpView::Clear];
    lemma_objects_ops_filters(objs, mode);
    lemma_stream_filters_add(clear, objects_ops(objs, mode));
    assert(model_uploads(clear) =~= Seq::<OpView>::empty()) by {
        reveal_with_fuel(keep_ops, 3);
    }
    assert(draw_calls(clear) =~= Seq::<OpView>::empty()) by {
        reveal_with_fuel(keep_ops, 3);
    }
    assert(model_uploads(tick_ops(objs, mode)) =~= model_uploads(objects_ops(objs, mode)));
    assert(draw_calls(tick_ops(objs, mode)) =~= draw_calls(objects_ops(objs, mode)));
}

/// Per object and frame, shaded mode issues exactly one indexed triangle
/// draw over the whole index buffer, and wireframe mode exactly
/// `indices.len() / 3` line-loop draws, one per consecutive index triple,
/// each at its triple's offset; the object's model transform is
/// re-uploaded just before its draws.
pub proof fn lemma_mode_draw_calls(o: Drawable, mode: RenderMode)
    ensures
        object_ops(o, mode)[0] == OpView::UploadModelTransform(flat_of(o.gl_model())),
        mode is SHADE ==> object_ops(o, mode).len() == 2 && object_ops(o, mode)[1]
            == OpView::DrawTriangles(o.gl_indices().len()),
        mode is WIREFRAME ==> object_ops(o, mode).len() == 1 + o.gl_indices().len() / 3
            && forall|t: int|
            0 <= t < o.gl_indices().len() / 3 ==> (#[trigger] object_ops(o, mode)[1 + t])
                == OpView::DrawLineLoop((3 * t) as nat),
{
}

/// The first frame of a context that held nothing and had one object
/// registered: registration uploaded the geometry and then the transform;
/// the tick clears first, re-uploads the transform second, and only then
/// draws — the clear precedes every draw, and so does the upload.
pub proof fn lemma_first_frame(o: Drawable, mode: RenderMode)
    ensures
        add_ops(o) == seq![
            OpView::UploadGeometry(o.gl_vertices(), o.gl_indices()),
            OpView::UploadModelTransform(flat_of(o.gl_model())),
        ],
        tick_ops(seq![o], mode) == seq![
            OpView::Clear,
            OpView::UploadModelTransform(flat_of(o.gl_model())),
        ] + draw_ops(mode, o.gl_indices().len()),
        forall|j: int|
            0 <= j < tick_ops(seq![o], mode).len() && ((#[trigger] tick_ops(seq![o], mode)[j])
                is DrawTriangles || tick_ops(seq![o], mode)[j] is DrawLineLoop) ==> j >= 2,
{
    let one = seq![o];
    assert(one.drop_last() =~= Seq::<Drawable>::empty());
    assert(one.last() == o);
    assert(objects_ops(one, mode) == objects_ops(Seq::<Drawable>::empty(), mode) + object_ops(
        o,
        mode,
    ));
    assert(tick_ops(one, mode) =~= seq![
        OpView::Clear,
        OpView::UploadModelTransform(flat_of(o.gl_model())),
    ] + draw_ops(mode, o.gl_indices().len()));
}

} // verus!
