use vstd::prelude::*;
use crate::canvas::{apply, run, submissions, lemma_run_append, lemma_submissions_append, CanvasState, DrawOp};
use crate::geometry::{Color, Matrix, Rect, Vector2, FIXED_ONE};
use crate::state::State;

verus! {

broadcast use vstd::std_specs::hash::group_hash_axioms;

/// A rectangle in its own local space, placed by a scale, a translation and a skew,
/// each a pair of 16.16 fixed-point scalars.
#[derive(Clone, Copy, Debug, PartialEq, Eq, Structural)]
pub struct Shape {
    pub id: u64,
    pub selrect: Rect,
    pub scale: Vector2,
    pub translation: Vector2,
    pub skew: Vector2,
}

impl Shape {
    /// The shape's matrix: scale and translation, with the skew entries set in it.
    pub open spec fn spec_transform(self) -> Matrix {
        Matrix {
            scale_x: self.scale.x,
            skew_x: self.skew.x,
            trans_x: self.translation.x,
            skew_y: self.skew.y,
            scale_y: self.scale.y,
            trans_y: self.translation.y,
        }
    }

    pub fn transform(&self) -> (m: Matrix)
        ensures
            m == self.spec_transform(),
    {
        let mut m = Matrix::scale_translate(self.scale, self.translation);
        m.set_skew_x(self.skew.x);
        m.set_skew_y(self.skew.y);
        m
    }
}

/// The commands that paint one shape, in a scope of its own.
pub open spec fn shape_ops(s: Shape) -> Seq<DrawOp> {
    seq![
        DrawOp::Save,
        DrawOp::Concat(s.spec_transform()),
        DrawOp::DrawRect(s.selrect, Color::from_rgb_spec(0xff, 0, 0)),
        DrawOp::Restore,
    ]
}

/// The commands for one entry of a display list: none where the shape is gone.
pub open spec fn entry_ops(shapes: Map<u64, Shape>, id: u64) -> Seq<DrawOp> {
    if shapes.contains_key(id) {
        shape_ops(shapes[id])
    } else {
        Seq::empty()
    }
}

/// The commands that paint a display list, entry after entry.
pub open spec fn render_ops(shapes: Map<u64, Shape>, ids: Seq<u64>) -> Seq<DrawOp>
    decreases ids.len(),
{
    if ids.len() == 0 {
        Seq::empty()
    } else {
        render_ops(shapes, ids.drop_last()) + entry_ops(shapes, ids.last())
    }
}

/// Paints every shape of the display list that is still in the scene, in order.
/// Nothing is submitted; the canvas transform is left as it was.
pub fn render_all(state: &State) -> (ops: Vec<DrawOp>)
    ensures
        ops@ == render_ops(state.shapes@, state.display_list@),
        forall|c: CanvasState| #[trigger] run(c, ops@) == c,
        submissions(ops@) == 0,
{
    let mut ops: Vec<DrawOp> = Vec::new();
    let n = state.display_list.len();
    let mut i: usize = 0;
    while i < n
        invariant
            n == state.display_list@.len(),
            i <= n,
            ops@ == render_ops(state.shapes@, state.display_list@.take(i as int)),
        decreases n - i,
    {
        let id = state.display_list[i];
        let ghost before = ops@;
        match state.shapes.get(&id) {
            Some(shape) => {
                ops.push(DrawOp::Save);
                ops.push(DrawOp::Concat(shape.transform()));
                ops.push(DrawOp::DrawRect(shape.selrect, Color::red()));
                ops.push(DrawOp::Restore);
                assert(ops@ =~= before + entry_ops(state.shapes@, id));
            },
            None => {
                assert(ops@ =~= before + entry_ops(state.shapes@, id));
            },
        }
        assert(state.display_list@.take(i + 1).drop_last() =~= state.display_list@.take(i as int));
        i += 1;
    }
    assert(state.display_list@.take(n as int) =~= state.display_list@);
    proof {
        assert forall|c: CanvasState| #[trigger] run(c, ops@) == c by {
            lemma_render_restores(c, state.shapes@, state.display_list@);
        }
        lemma_render_restores(CanvasState::fresh(), state.shapes@, state.display_list@);
    }
    ops
}

/// Rendering a concatenation of display lists renders each in turn.
pub proof fn lemma_render_ops_append(shapes: Map<u64, Shape>, a: Seq<u64>, b: Seq<u64>)
    ensures
        render_ops(shapes, a + b) == render_ops(shapes, a) + render_ops(shapes, b),
    decreases b.len(),
{
    if b.len() == 0 {
        assert(a + b =~= a);
        assert(render_ops(shapes, a) + Seq::<DrawOp>::empty() =~= render_ops(shapes, a));
    } else {
        assert((a + b).drop_last() =~= a + b.drop_last());
        lemma_render_ops_append(shapes, a, b.drop_last());
        assert(render_ops(shapes, a + b) =~= render_ops(shapes, a) + render_ops(shapes, b));
    }
}

proof fn lemma_entry_restores(c: CanvasState, shapes: Map<u64, Shape>, id: u64)
    ensures
        run(c, entry_ops(shapes, id)) == c,
        submissions(entry_ops(shapes, id)) == 0,
{
    if shapes.contains_key(id) {
        let s = shapes[id];
        let ops = shape_ops(s);
        let p3 = seq![
            DrawOp::Save,
            DrawOp::Concat(s.spec_transform()),
            DrawOp::DrawRect(s.selrect, Color::from_rgb_spec(0xff, 0, 0)),
        ];
        let p2 = seq![DrawOp::Save, DrawOp::Concat(s.spec_transform())];
        let p1 = seq![DrawOp::Save];
        assert(ops.drop_last() =~= p3);
        assert(p3.drop_last() =~= p2);
        assert(p2.drop_last() =~= p1);
        assert(p1.drop_last() =~= Seq::<DrawOp>::empty());
        assert(c.saved.push(c.current).drop_last() =~= c.saved);
        assert(run(c, Seq::<DrawOp>::empty()) == c);
        assert(submissions(Seq::<DrawOp>::empty()) == 0);
        assert(p1.last() == DrawOp::Save);
        assert(run(c, p1) == apply(c, DrawOp::Save));
        assert(run(c, p2).saved == c.saved.push(c.current));
        assert(run(c, p3).saved == c.saved.push(c.current));
        assert(run(c, ops) == c);
        assert(submissions(p1) == 0);
        assert(submissions(p2) == 0);
        assert(submissions(p3) == 0);
    }
}

/// Rendering a display list leaves the canvas transform and the save stack as
/// they were before, and submits nothing.
pub proof fn lemma_render_restores(c: CanvasState, shapes: Map<u64, Shape>, ids: Seq<u64>)
    ensures
        run(c, render_ops(shapes, ids)) == c,
        submissions(render_ops(shapes, ids)) == 0,
    decreases ids.len(),
{
    if ids.len() > 0 {
        lemma_render_restores(c, shapes, ids.drop_last());
        lemma_entry_restores(c, shapes, ids.last());
        lemma_run_append(c, render_ops(shapes, ids.drop_last()), entry_ops(shapes, ids.last()));
        lemma_submissions_append(render_ops(shapes, ids.drop_last()), entry_ops(shapes, ids.last()));
    }
}

/// An entry whose shape is missing from the scene adds no command: the
/// entries around it are painted as if it were not in the list.
pub proof fn lemma_missing_shape_skipped(
    shapes: Map<u64, Shape>,
    before: Seq<u64>,
    id: u64,
    after: Seq<u64>,
)
    requires
        !shapes.contains_key(id),
    ensures
        render_ops(shapes, before + seq![id] + after) == render_ops(shapes, before + after),
{
    lemma_render_ops_append(shapes, before + seq![id], after);
    lemma_render_ops_append(shapes, before, seq![id]);
    lemma_render_ops_append(shapes, before, after);
    assert(seq![id].drop_last() =~= Seq::<u64>::empty());
    assert(seq![id].last() == id);
    assert(render_ops(shapes, Seq::<u64>::empty()) == Seq::<DrawOp>::empty());
    assert(Seq::<DrawOp>::empty() + Seq::<DrawOp>::empty() =~= Seq::<DrawOp>::empty());
    assert(render_ops(shapes, seq![id]) =~= Seq::<DrawOp>::empty());
    assert(render_ops(shapes, before) + Seq::<DrawOp>::empty() =~= render_ops(shapes, before));
}

/// A shape with unit scale and no translation or skew has the identity as its
/// matrix, so its rectangle is drawn at its own coordinates.
pub proof fn lemma_plain_shape_identity(s: Shape)
    requires
        s.scale == (Vector2 { x: FIXED_ONE, y: FIXED_ONE }),
        s.translation == (Vector2 { x: 0, y: 0 }),
        s.skew == (Vector2 { x: 0, y: 0 }),
    ensures
        s.spec_transform() == Matrix::spec_identity(),
        shape_ops(s) == seq![
            DrawOp::Save,
            DrawOp::Concat(Matrix::spec_identity()),
            DrawOp::DrawRect(s.selrect, Color::from_rgb_spec(0xff, 0, 0)),
            DrawOp::Restore,
        ],
        forall|x: int, y: int|
            s.spec_transform().map_x(x, y) == FIXED_ONE * x && s.spec_transform().map_y(x, y)
                == FIXED_ONE * y,
{
    assert forall|x: int, y: int|
        s.spec_transform().map_x(x, y) == FIXED_ONE * x && s.spec_transform().map_y(x, y)
            == FIXED_ONE * y by {
        assert(0int * y == 0 && 0int * x == 0) by (nonlinear_arith);
    }
}

/// A shape's matrix first scales and translates a point; the skew entries then
/// add `skew.x * y` and `skew.y * x` to that image. The local origin lands on
/// the translation.
pub proof fn lemma_transform_order(s: Shape, x: int, y: int)
    ensures
        s.spec_transform().map_x(x, y) == Matrix::spec_scale_translate(s.scale, s.translation).map_x(x, y)
            + s.skew.x * y,
        s.spec_transform().map_y(x, y) == Matrix::spec_scale_translate(s.scale, s.translation).map_y(x, y)
            + s.skew.y * x,
        s.spec_transform().map_x(0, 0) == s.translation.x,
        s.spec_transform().map_y(0, 0) == s.translation.y,
{
}

} // verus!
