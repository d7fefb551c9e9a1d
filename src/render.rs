use vstd::prelude::*;

verus! {

/// An input event that the visualization loop reacts to. `P` is a cursor
/// position already normalized to the surface.
pub enum LoopEvent<P> {
    /// The window was asked to close.
    WindowClosed,
    /// The cursor moved; the payload is its normalized position.
    CursorMoved(P),
    /// Any other event; it changes nothing.
    Other,
}

/// The loop-local state of the visualization: whether to keep drawing, and
/// where the cursor last was.
pub struct RenderState<P> {
    pub running: bool,
    pub mouse: P,
}

/// The state after one event is processed.
pub open spec fn next_state<P>(s: RenderState<P>, ev: LoopEvent<P>) -> RenderState<P> {
    match ev {
        LoopEvent::WindowClosed => RenderState { running: false, mouse: s.mouse },
        LoopEvent::CursorMoved(p) => RenderState { running: s.running, mouse: p },
        LoopEvent::Other => s,
    }
}

/// The state after the events of `evs` are processed, in order.
pub open spec fn after_events<P>(s: RenderState<P>, evs: Seq<LoopEvent<P>>) -> RenderState<P>
    decreases evs.len(),
{
    if evs.len() == 0 {
        s
    } else {
        next_state(after_events(s, evs.drop_last()), evs.last())
    }
}

impl<P> RenderState<P> {
    /// A running loop with the cursor at `mouse`.
    pub fn new(mouse: P) -> (r: RenderState<P>)
        ensures
            r.running,
            r.mouse == mouse,
    {
        RenderState { running: true, mouse }
    }

    /// Whether another draw iteration is to be made.
    pub fn should_draw(&self) -> (r: bool)
        ensures
            r == self.running,
    {
        self.running
    }

    /// Applies one event: a close request stops the loop, a cursor move sets
    /// the mouse position, anything else leaves the state as it is.
    pub fn process(&mut self, ev: LoopEvent<P>)
        ensures
            *final(self) == next_state(*old(self), ev),
    {
        match ev {
            LoopEvent::WindowClosed => {
                self.running = false;
            },
            LoopEvent::CursorMoved(p) => {
                self.mouse = p;
            },
            LoopEvent::Other => {},
        }
    }

    /// Applies every event that one poll drained, in the order they came.
    pub fn process_all(&mut self, evs: Vec<LoopEvent<P>>)
        ensures
            *final(self) == after_events(*old(self), evs@),
    {
        let mut rest = evs;
        let ghost all = rest@;
        let ghost start = *self;
        let total: usize = rest.len();
        let mut done: usize = 0;
        while rest.len() > 0
            invariant
                all.len() == total,
                done + rest@.len() == all.len(),
                rest@ =~= all.subrange(done as int, all.len() as int),
                *self == after_events(start, all.subrange(0, done as int)),
            decreases rest@.len(),
        {
            let ev = rest.remove(0);
            proof {
                assert(all.subrange(0, done + 1).drop_last() =~= all.subrange(0, done as int));
            }
            self.process(ev);
            done = done + 1;
        }
        assert(all.subrange(0, done as int) =~= all);
    }
}

/// A close request, once processed, stops the loop for good: whatever events
/// follow it in the same or later polls, no further iteration is drawn.
pub proof fn lemma_close_is_final<P>(s: RenderState<P>, evs: Seq<LoopEvent<P>>, i: int)
    requires
        0 <= i < evs.len(),
        evs[i] is WindowClosed,
    ensures
        !after_events(s, evs).running,
    decreases evs.len(),
{
    if i < evs.len() - 1 {
        lemma_close_is_final(s, evs.drop_last(), i);
    }
}

} // verus!
