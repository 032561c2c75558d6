//! The compositors: one per rectangle layer, and one for text. Each keeps
//! what its side of the graphics device holds and says what the device has to
//! do next.

use vstd::prelude::*;
use crate::frame::{
    InstanceWrite, InstanceWriteView, Layer, LoadOp, RectanglePass, RectanglePassView, TextPass,
    TextPassView,
};
use crate::rectangle::RectangleInstance;
use crate::text::{TextSection, TextSectionView};

verus! {

/// Copies a list of rectangles.
pub fn copy_instances(instances: &Vec<RectangleInstance>) -> (copy: Vec<RectangleInstance>)
    ensures
        copy@ == instances@,
{
    let mut copy: Vec<RectangleInstance> = Vec::new();
    let mut i: usize = 0;
    while i < instances.len()
        invariant
            i <= instances.len(),
            copy@ == instances@.subrange(0, i as int),
        decreases instances.len() - i,
    {
        copy.push(instances[i]);
        i += 1;
        assert(copy@ =~= instances@.subrange(0, i as int));
    }
    assert(copy@ =~= instances@);
    copy
}

/// Draws the rectangles of one layer. It mirrors the contents of the
/// layer's instance buffer on the device.
pub struct RectangleCompositor {
    layer: Layer,
    instances: Vec<RectangleInstance>,
}

impl View for RectangleCompositor {
    type V = Seq<RectangleInstance>;

    /// The rectangles in the instance buffer, in drawing order.
    closed spec fn view(&self) -> Seq<RectangleInstance> {
        self.instances@
    }
}

impl RectangleCompositor {
    /// The layer this compositor draws.
    pub closed spec fn spec_layer(&self) -> Layer {
        self.layer
    }

    /// A compositor for `layer` with an empty instance buffer.
    pub fn new(layer: Layer) -> (compositor: RectangleCompositor)
        ensures
            compositor.spec_layer() == layer,
            compositor@ == Seq::<RectangleInstance>::empty(),
    {
        RectangleCompositor { layer, instances: Vec::new() }
    }

    /// The layer this compositor draws.
    #[verifier::when_used_as_spec(spec_layer)]
    pub fn layer(&self) -> (layer: Layer)
        ensures
            layer == self.spec_layer(),
    {
        self.layer
    }

    /// The rectangles in the instance buffer, in drawing order.
    pub fn instances(&self) -> (instances: &Vec<RectangleInstance>)
        ensures
            instances@ == self@,
    {
        &self.instances
    }

    /// Replaces the contents of the instance buffer with `instances`. The
    /// write that is returned carries the same rectangles to the device.
    pub fn update_instance_buffer(&mut self, instances: Vec<RectangleInstance>) -> (write:
        InstanceWrite)
        ensures
            final(self)@ == instances@,
            final(self).spec_layer() == old(self).spec_layer(),
            write@ == (InstanceWriteView { layer: old(self).spec_layer(), instances: instances@ }),
    {
        self.instances = copy_instances(&instances);
        InstanceWrite { layer: self.layer, instances }
    }

    /// The pass that draws every rectangle now in the instance buffer on top
    /// of what the target already shows. It never clears the target.
    pub fn render(&self) -> (pass: RectanglePass)
        ensures
            pass@ == RectanglePassView::over(self.spec_layer(), self@.len()),
    {
        RectanglePass {
            layer: self.layer,
            instance_count: self.instances.len(),
            load: LoadOp::Load,
            store: true,
        }
    }
}

/// Collects the text sections of a frame until they are drawn.
pub struct TextCompositor {
    pending: Vec<TextSection>,
}

impl View for TextCompositor {
    type V = Seq<TextSectionView>;

    /// The sections waiting to be drawn, oldest first.
    closed spec fn view(&self) -> Seq<TextSectionView> {
        self.pending.deep_view()
    }
}

impl TextCompositor {
    /// A compositor with nothing pending.
    pub fn new() -> (compositor: TextCompositor)
        ensures
            compositor@ == Seq::<TextSectionView>::empty(),
    {
        let compositor = TextCompositor { pending: Vec::new() };
        assert(compositor@ =~= Seq::<TextSectionView>::empty());
        compositor
    }

    /// Appends one section behind those already pending.
    pub fn queue(&mut self, section: TextSection)
        ensures
            final(self)@ == old(self)@.push(section@),
    {
        self.pending.push(section);
        assert(self@ =~= old(self)@.push(section@));
    }

    /// How many sections are pending.
    pub fn pending_len(&self) -> (n: usize)
        ensures
            n == self@.len(),
    {
        self.pending.len()
    }

    /// The pass that draws every pending section onto a target of `width` by
    /// `height` logical pixels. Nothing is pending afterwards.
    pub fn draw_queued(&mut self, width: u32, height: u32) -> (pass: TextPass)
        ensures
            final(self)@ == Seq::<TextSectionView>::empty(),
            pass@ == (TextPassView { sections: old(self)@, width, height }),
    {
        let mut sections: Vec<TextSection> = Vec::new();
        std::mem::swap(&mut self.pending, &mut sections);
        assert(self@ =~= Seq::<TextSectionView>::empty());
        TextPass { sections, width, height }
    }
}

} // verus!
