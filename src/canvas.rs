use vstd::prelude::*;
use crate::geometry::{Color, Matrix, Rect};

verus! {

/// One command for the canvas of a surface, or for the GPU context behind it.
#[derive(Clone, Copy, Debug, PartialEq, Eq, Structural)]
pub enum DrawOp {
    /// Push the current transform onto the save stack.
    Save,
    /// Pop the save stack into the current transform; no effect when it is empty.
    Restore,
    /// Concatenate a matrix onto the current transform.
    Concat(Matrix),
    /// Set the current transform back to the identity.
    ResetMatrix,
    /// Fill a rectangle, anti-aliased, in the current transform.
    DrawRect(Rect, Color),
    /// Flush the surface's pending work and submit it to the GPU.
    FlushAndSubmit,
}

/// The transform state of a canvas: the matrices concatenated onto the
/// identity since the last reset, and the stack of saved transforms.
pub struct CanvasState {
    pub current: Seq<Matrix>,
    pub saved: Seq<Seq<Matrix>>,
}

impl CanvasState {
    /// The state of the canvas of a freshly created surface.
    pub open spec fn fresh() -> CanvasState {
        CanvasState { current: Seq::empty(), saved: Seq::empty() }
    }
}

/// The canvas state after one command.
pub open spec fn apply(c: CanvasState, op: DrawOp) -> CanvasState {
    match op {
        DrawOp::Save => CanvasState { current: c.current, saved: c.saved.push(c.current) },
        DrawOp::Restore => if c.saved.len() > 0 {
            CanvasState { current: c.saved.last(), saved: c.saved.drop_last() }
        } else {
            c
        },
        DrawOp::Concat(m) => CanvasState { current: c.current.push(m), saved: c.saved },
        DrawOp::ResetMatrix => CanvasState { current: Seq::empty(), saved: c.saved },
        DrawOp::DrawRect(_, _) => c,
        DrawOp::FlushAndSubmit => c,
    }
}

/// The canvas state after a sequence of commands, in order.
pub open spec fn run(c: CanvasState, ops: Seq<DrawOp>) -> CanvasState
    decreases ops.len(),
{
    if ops.len() == 0 {
        c
    } else {
        apply(run(c, ops.drop_last()), ops.last())
    }
}

/// How many of the commands submit work to the GPU.
pub open spec fn submissions(ops: Seq<DrawOp>) -> nat
    decreases ops.len(),
{
    if ops.len() == 0 {
        0
    } else {
        submissions(ops.drop_last()) + if ops.last() == DrawOp::FlushAndSubmit {
            1nat
        } else {
            0nat
        }
    }
}

/// Running two sequences of commands is running their concatenation.
pub proof fn lemma_run_append(c: CanvasState, a: Seq<DrawOp>, b: Seq<DrawOp>)
    ensures
        run(c, a + b) == run(run(c, a), b),
    decreases b.len(),
{
    if b.len() == 0 {
        assert(a + b =~= a);
    } else {
        assert((a + b).drop_last() =~= a + b.drop_last());
        lemma_run_append(c, a, b.drop_last());
    }
}

/// Submissions of a concatenation add up.
pub proof fn lemma_submissions_append(a: Seq<DrawOp>, b: Seq<DrawOp>)
    ensures
        submissions(a + b) == submissions(a) + submissions(b),
    decreases b.len(),
{
    if b.len() == 0 {
        assert(a + b =~= a);
    } else {
        assert((a + b).drop_last() =~= a + b.drop_last());
        lemma_submissions_append(a, b.drop_last());
    }
}

/// Fills `rect` with an opaque colour in the current transform, then submits the frame.
pub fn draw_rect(left: i32, top: i32, right: i32, bottom: i32, r: u8, g: u8, b: u8) -> (ops: Vec<
    DrawOp,
>)
    ensures
        ops@ == seq![
            DrawOp::DrawRect(Rect { left, top, right, bottom }, Color::from_rgb_spec(r, g, b)),
            DrawOp::FlushAndSubmit,
        ],
        submissions(ops@) == 1,
{
    let rect = Rect::new(left, top, right, bottom);
    let color = Color::from_rgb(r, g, b);
    let ops = vec![DrawOp::DrawRect(rect, color), DrawOp::FlushAndSubmit];
    proof {
        let first = seq![DrawOp::DrawRect(rect, color)];
        assert(ops@.drop_last() =~= first);
        assert(first.drop_last() =~= Seq::<DrawOp>::empty());
        assert(submissions(Seq::<DrawOp>::empty()) == 0);
        assert(submissions(first) == 0);
    }
    ops
}

/// Moves the persistent canvas transform by `(dx, dy)`, in 16.16 fixed point.
pub fn translate(dx: i32, dy: i32) -> (op: DrawOp)
    ensures
        op == DrawOp::Concat(Matrix::spec_translate(dx, dy)),
{
    DrawOp::Concat(Matrix::translate(dx, dy))
}

/// Scales the persistent canvas transform by `(sx, sy)`, in 16.16 fixed point.
pub fn scale(sx: i32, sy: i32) -> (op: DrawOp)
    ensures
        op == DrawOp::Concat(Matrix::spec_scale(sx, sy)),
{
    DrawOp::Concat(Matrix::scale(sx, sy))
}

/// Sets the persistent canvas transform back to the identity.
pub fn reset_canvas() -> (op: DrawOp)
    ensures
        op == DrawOp::ResetMatrix,
{
    DrawOp::ResetMatrix
}

} // verus!
