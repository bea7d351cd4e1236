//! What one frame of the host loop does with the live instance.
use vstd::prelude::*;

verus! {

/// Developer switches kept across frames.
#[derive(Debug, Default)]
pub struct DebugState {
    /// While set, frames render the instance without updating it.
    pub skip_update: bool,
}

impl DebugState {
    pub fn toggle_skip_update(&mut self)
        ensures
            final(self).skip_update == !old(self).skip_update,
    {
        self.skip_update = !self.skip_update;
    }
}

/// The calls of one frame, in order: dump the saved state (if `dump_state`),
/// update (if `update`), render, flush the deferred draws, and draw the
/// "skip update" banner (if `skip_banner`).
#[derive(Clone, Copy, Debug, PartialEq, Eq, Structural)]
pub struct FramePlan {
    pub update: bool,
    pub dump_state: bool,
    pub skip_banner: bool,
}

/// Plans a frame. With `debug_keys` off, every frame updates and the keys do
/// nothing. With it on, F1 toggles skipping the update from the next frame
/// on, and F2 dumps the instance's saved state.
pub fn plan_frame(debug: &mut DebugState, debug_keys: bool, f1_pressed: bool, f2_pressed: bool) -> (r:
    FramePlan)
    ensures
        !debug_keys ==> r == (FramePlan { update: true, dump_state: false, skip_banner: false })
            && *final(debug) == *old(debug),
        debug_keys ==> r == (FramePlan {
            update: !old(debug).skip_update,
            dump_state: f2_pressed,
            skip_banner: old(debug).skip_update,
        }) && final(debug).skip_update == (old(debug).skip_update != f1_pressed),
{
    if !debug_keys {
        return FramePlan { update: true, dump_state: false, skip_banner: false };
    }
    let skip = debug.skip_update;
    if f1_pressed {
        debug.toggle_skip_update();
    }
    FramePlan { update: !skip, dump_state: f2_pressed, skip_banner: skip }
}

/// Draw requests that the module makes during its render call and that the
/// host carries out once per frame, after that call, in the order they came.
pub struct DrawQueue<T> {
    pending: Vec<T>,
}

impl<T> View for DrawQueue<T> {
    type V = Seq<T>;

    closed spec fn view(&self) -> Seq<T> {
        self.pending@
    }
}

impl<T> DrawQueue<T> {
    pub fn new() -> (r: DrawQueue<T>)
        ensures
            r@ == Seq::<T>::empty(),
    {
        DrawQueue { pending: Vec::new() }
    }

    pub fn push(&mut self, request: T)
        ensures
            final(self)@ == old(self)@.push(request),
    {
        self.pending.push(request);
    }

    pub fn len(&self) -> (r: usize)
        ensures
            r == self@.len(),
    {
        self.pending.len()
    }

    /// Hands every queued request over, oldest first, and empties the queue.
    pub fn drain(&mut self) -> (r: Vec<T>)
        ensures
            r@ == old(self)@,
            final(self)@ == Seq::<T>::empty(),
    {
        let mut taken: Vec<T> = Vec::new();
        std::mem::swap(&mut taken, &mut self.pending);
        taken
    }
}

} // verus!
