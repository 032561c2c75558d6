//! The per-frame queue of rectangle draw commands.

use vstd::prelude::*;
use crate::rectangle::RectangleInstance;

verus! {

/// Rectangles submitted during the current frame, in submission order.
pub struct UiQueue {
    rectangles: Vec<RectangleInstance>,
}

impl View for UiQueue {
    type V = Seq<RectangleInstance>;

    closed spec fn view(&self) -> Seq<RectangleInstance> {
        self.rectangles@
    }
}

impl UiQueue {
    /// An empty queue.
    pub fn new() -> (queue: UiQueue)
        ensures
            queue@ == Seq::<RectangleInstance>::empty(),
    {
        UiQueue { rectangles: Vec::new() }
    }

    /// Appends one rectangle behind those already queued.
    pub fn add_rectangle(&mut self, rectangle: RectangleInstance)
        ensures
            final(self)@ == old(self)@.push(rectangle),
    {
        self.rectangles.push(rectangle);
    }

    /// Hands out everything queued so far, in submission order, and leaves
    /// the queue empty.
    pub fn clear_rectangles(&mut self) -> (taken: Vec<RectangleInstance>)
        ensures
            taken@ == old(self)@,
            final(self)@ == Seq::<RectangleInstance>::empty(),
    {
        let mut taken: Vec<RectangleInstance> = Vec::new();
        std::mem::swap(&mut self.rectangles, &mut taken);
        taken
    }

    /// How many rectangles are queued.
    pub fn len(&self) -> (n: usize)
        ensures
            n == self@.len(),
    {
        self.rectangles.len()
    }
}

} // verus!
