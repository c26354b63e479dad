//! The frame cycle: what one run of the GUI leaves for the next paint.
//!
//! A run stores the frame's shapes and queues its texture delta. A paint
//! takes the queued deltas and draws the stored shapes, which stay stored:
//! painting again before the next run draws them again with no delta.

use vstd::prelude::*;

verus! {

/// The abstract state of a frame cycle.
pub ghost struct FrameView<S, D> {
    /// Whether the resources were released; no run or paint may follow.
    pub destroyed: bool,
    /// The shapes of the last run.
    pub shapes: S,
    /// The texture deltas of the runs since the last paint, oldest first.
    pub pending: Seq<D>,
}

/// The state once a run produced `shapes` and `delta`.
pub open spec fn ran<S, D>(v: FrameView<S, D>, shapes: S, delta: D) -> FrameView<S, D> {
    FrameView { destroyed: v.destroyed, shapes, pending: v.pending.push(delta) }
}

/// The state once a paint took the queued deltas.
pub open spec fn painted<S, D>(v: FrameView<S, D>) -> FrameView<S, D> {
    FrameView { destroyed: v.destroyed, shapes: v.shapes, pending: Seq::empty() }
}

/// The state once the resources are released.
pub open spec fn destroyed<S, D>(v: FrameView<S, D>) -> FrameView<S, D> {
    FrameView { destroyed: true, shapes: v.shapes, pending: v.pending }
}

/// The frame cycle of one painter, over the GUI's shape list `S` and
/// texture delta `D`.
pub struct FrameState<S, D> {
    destroyed: bool,
    shapes: S,
    pending: Vec<D>,
}

impl<S, D> View for FrameState<S, D> {
    type V = FrameView<S, D>;

    closed spec fn view(&self) -> FrameView<S, D> {
        FrameView { destroyed: self.destroyed, shapes: self.shapes, pending: self.pending@ }
    }
}

impl<S, D> FrameState<S, D> {
    /// A ready cycle whose last shapes are `shapes` (an empty frame) and
    /// with no delta queued.
    pub fn new(shapes: S) -> (r: FrameState<S, D>)
        ensures
            r@ == (FrameView { destroyed: false, shapes, pending: Seq::<D>::empty() }),
    {
        FrameState { destroyed: false, shapes, pending: Vec::new() }
    }

    /// Whether the resources were released.
    pub fn is_destroyed(&self) -> (r: bool)
        ensures
            r == self@.destroyed,
    {
        self.destroyed
    }

    /// Records a run: its shapes replace the stored ones and its texture
    /// delta is queued after the others.
    pub fn record_run(&mut self, shapes: S, delta: D)
        requires
            !old(self)@.destroyed,
        ensures
            final(self)@ == ran(old(self)@, shapes, delta),
    {
        self.shapes = shapes;
        self.pending.push(delta);
    }

    /// Starts a paint: hands out the queued deltas, oldest first, and leaves
    /// none queued. The stored shapes stay.
    pub fn take_pending(&mut self) -> (r: Vec<D>)
        requires
            !old(self)@.destroyed,
        ensures
            r@ == old(self)@.pending,
            final(self)@ == painted(old(self)@),
    {
        let mut taken: Vec<D> = Vec::new();
        std::mem::swap(&mut taken, &mut self.pending);
        taken
    }

    /// The shapes of the last run.
    pub fn shapes(&self) -> (r: &S)
        ensures
            *r == self@.shapes,
    {
        &self.shapes
    }

    /// Marks the resources as released. The deltas still queued are handed
    /// out, so that the textures they would set can be accounted for.
    pub fn destroy(&mut self) -> (r: Vec<D>)
        ensures
            r@ == old(self)@.pending,
            final(self)@ == painted(destroyed(old(self)@)),
    {
        self.destroyed = true;
        let mut taken: Vec<D> = Vec::new();
        std::mem::swap(&mut taken, &mut self.pending);
        taken
    }
}

/// Painting twice with no run between draws the same shapes both times, and
/// the second paint finds no delta to apply: the state is as the first paint
/// left it.
pub proof fn lemma_repaint_reuses_frame<S, D>(v: FrameView<S, D>)
    ensures
        painted(v).shapes == v.shapes,
        painted(painted(v)).shapes == v.shapes,
        painted(v).pending.len() == 0,
        painted(painted(v)) == painted(v),
{
}

} // verus!
