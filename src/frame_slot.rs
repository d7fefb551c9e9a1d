use vstd::prelude::*;

verus! {

/// A single-slot mailbox with a latest-wins policy: each write replaces
/// whatever the slot held, so at most the most recent frame is kept.
pub struct FrameSlot<F> {
    latest: Option<F>,
}

/// The slot's content after one write of `frame`, whatever it held before.
pub open spec fn after_write<F>(content: Option<F>, frame: F) -> Option<F> {
    Some(frame)
}

/// The slot's content after the writes of `frames`, in order, from `content`.
pub open spec fn after_writes<F>(content: Option<F>, frames: Seq<F>) -> Option<F>
    decreases frames.len(),
{
    if frames.len() == 0 {
        content
    } else {
        after_write(after_writes(content, frames.drop_last()), frames.last())
    }
}

impl<F> View for FrameSlot<F> {
    type V = Option<F>;

    closed spec fn view(&self) -> Option<F> {
        self.latest
    }
}

impl<F> FrameSlot<F> {
    /// An empty slot: no frame has been written yet.
    pub fn new() -> (r: FrameSlot<F>)
        ensures
            r@ == None::<F>,
    {
        FrameSlot { latest: None }
    }

    /// Replaces the slot's content with `frame`, discarding any frame it held.
    pub fn write(&mut self, frame: F)
        ensures
            final(self)@ == after_write(old(self)@, frame),
    {
        self.latest = Some(frame);
    }

    /// The frame most recently written, left in place; `None` before the first write.
    pub fn peek_latest(&self) -> (r: Option<&F>)
        ensures
            r == match self@ {
                Some(f) => Some(&f),
                None => None::<&F>,
            },
    {
        match &self.latest {
            Some(f) => Some(f),
            None => None,
        }
    }

    /// Whether no frame has been written yet.
    pub fn is_empty(&self) -> (r: bool)
        ensures
            r == (self@ is None),
    {
        self.latest.is_none()
    }
}

/// Latest wins: after any nonempty sequence of writes, the slot holds exactly
/// the last frame written, whatever it held before.
pub proof fn lemma_latest_wins<F>(content: Option<F>, frames: Seq<F>)
    requires
        frames.len() > 0,
    ensures
        after_writes(content, frames) == Some(frames.last()),
{
}

} // verus!
