//! The overlay of one window: rectangles and text queued during a frame, a
//! fade overlay on top, and the order in which they reach the screen.

use vstd::prelude::*;
use crate::compositor::{RectangleCompositor, TextCompositor};
use crate::frame::{
    InstanceWrite, InstanceWriteView, Layer, RectanglePassView, RenderStep, RenderStepView,
    TextPassView,
};
use crate::queue::UiQueue;
use crate::rectangle::RectangleInstance;
use crate::scalar::{Scalar, POSITIVE_ZERO_BITS};
use crate::text::{fps_section, fps_section_view, TextSection, TextSectionView};

verus! {

/// The overlay as a mathematical value.
pub struct UiView {
    /// Rectangles queued for the frame in progress, in submission order.
    pub queue: Seq<RectangleInstance>,
    /// Text sections queued and not yet drawn, oldest first.
    pub pending_text: Seq<TextSectionView>,
    /// Contents of the base layer's instance buffer.
    pub base_buffer: Seq<RectangleInstance>,
    /// Contents of the transition layer's instance buffer.
    pub transition_buffer: Seq<RectangleInstance>,
    /// Opacity of the fade overlay as last submitted.
    pub transition_alpha: Scalar,
}

impl UiView {
    /// The overlay before anything was submitted.
    pub open spec fn initial() -> UiView {
        UiView {
            queue: Seq::empty(),
            pending_text: Seq::empty(),
            base_buffer: Seq::empty(),
            transition_buffer: Seq::empty(),
            transition_alpha: Scalar { bits: POSITIVE_ZERO_BITS },
        }
    }

    /// The opacity and the overlay rectangle belong together: either no
    /// overlay was ever submitted and the opacity is still zero, or the
    /// transition buffer holds the one rectangle the opacity was read from.
    pub open spec fn coupled(self) -> bool {
        if self.transition_buffer.len() == 0 {
            self.transition_alpha.bits == POSITIVE_ZERO_BITS
        } else {
            &&& self.transition_buffer.len() == 1
            &&& self.transition_alpha == self.transition_buffer[0].color.alpha
        }
    }

    /// Whether a frame rendered now includes the overlay pass.
    pub open spec fn overlay_active(self) -> bool {
        !self.transition_alpha.spec_is_zero()
    }

    /// The overlay after one more rectangle was queued.
    pub open spec fn queue_rectangle(self, rectangle: RectangleInstance) -> UiView {
        UiView { queue: self.queue.push(rectangle), ..self }
    }

    /// The overlay after `rectangles` were queued one by one, first to last.
    pub open spec fn queue_rectangles(self, rectangles: Seq<RectangleInstance>) -> UiView
        decreases rectangles.len(),
    {
        if rectangles.len() == 0 {
            self
        } else {
            self.queue_rectangles(rectangles.drop_last()).queue_rectangle(rectangles.last())
        }
    }

    /// The overlay after one more text section was queued.
    pub open spec fn queue_text(self, section: TextSectionView) -> UiView {
        UiView { pending_text: self.pending_text.push(section), ..self }
    }

    /// The overlay after the frame-rate readout for `fps` was queued.
    pub open spec fn queue_fps(self, fps: int) -> UiView {
        self.queue_text(fps_section_view(fps))
    }

    /// The overlay after `rectangle` was submitted as the fade overlay.
    pub open spec fn set_transition_alpha(self, rectangle: RectangleInstance) -> UiView {
        UiView {
            transition_buffer: seq![rectangle],
            transition_alpha: rectangle.color.alpha,
            ..self
        }
    }

    /// The overlay after the queued rectangles were flushed into the base
    /// layer's instance buffer.
    pub open spec fn update(self) -> UiView {
        UiView { queue: Seq::empty(), base_buffer: self.queue, ..self }
    }

    /// The overlay after a frame was rendered.
    pub open spec fn render(self) -> UiView {
        UiView { pending_text: Seq::empty(), ..self.update() }
    }

    /// The steps of a frame rendered now onto a target of `width` by `height`
    /// logical pixels: the queued rectangles are written to the base layer
    /// and drawn, then the pending text is drawn, then, if the overlay is
    /// active, the transition layer is drawn.
    pub open spec fn frame(self, width: u32, height: u32) -> Seq<RenderStepView> {
        let below = seq![
            RenderStepView::Write(InstanceWriteView { layer: Layer::Base, instances: self.queue }),
            RenderStepView::Rectangles(RectanglePassView::over(Layer::Base, self.queue.len())),
            RenderStepView::Text(TextPassView { sections: self.pending_text, width, height }),
        ];
        if self.overlay_active() {
            below.push(
                RenderStepView::Rectangles(
                    RectanglePassView::over(Layer::Transition, self.transition_buffer.len()),
                ),
            )
        } else {
            below
        }
    }
}

/// The overlay of one window.
pub struct Ui {
    rectangle_pipeline: RectangleCompositor,
    text: TextCompositor,
    queue: UiQueue,
    transition_pipeline: RectangleCompositor,
    transition_alpha: Scalar,
}

impl View for Ui {
    type V = UiView;

    closed spec fn view(&self) -> UiView {
        UiView {
            queue: self.queue@,
            pending_text: self.text@,
            base_buffer: self.rectangle_pipeline@,
            transition_buffer: self.transition_pipeline@,
            transition_alpha: self.transition_alpha,
        }
    }
}

impl Ui {
    /// The layer that the compositor fed from the queue draws.
    pub closed spec fn queue_layer(&self) -> Layer {
        self.rectangle_pipeline.spec_layer()
    }

    /// The layer that the compositor holding the fade overlay draws.
    pub closed spec fn overlay_layer(&self) -> Layer {
        self.transition_pipeline.spec_layer()
    }

    /// Each compositor draws its own layer, and opacity and overlay rectangle
    /// belong together.
    pub open spec fn wf(&self) -> bool {
        &&& self.queue_layer() == Layer::Base
        &&& self.overlay_layer() == Layer::Transition
        &&& self@.coupled()
    }

    /// An overlay with nothing queued and no fade.
    pub fn new() -> (ui: Ui)
        ensures
            ui.wf(),
            ui@ == UiView::initial(),
    {
        Ui {
            rectangle_pipeline: RectangleCompositor::new(Layer::Base),
            text: TextCompositor::new(),
            queue: UiQueue::new(),
            transition_pipeline: RectangleCompositor::new(Layer::Transition),
            transition_alpha: Scalar::zero(),
        }
    }

    /// Submits `rectangle` as the fade overlay: its alpha becomes the
    /// opacity that decides whether the overlay is drawn, and it becomes the
    /// only rectangle of the transition layer. The write that is returned
    /// carries it to the device.
    pub fn set_transition_alpha(&mut self, rectangle: RectangleInstance) -> (write: InstanceWrite)
        requires
            old(self).wf(),
        ensures
            final(self).wf(),
            final(self)@ == old(self)@.set_transition_alpha(rectangle),
            write@ == (InstanceWriteView { layer: Layer::Transition, instances: seq![rectangle] }),
    {
        self.transition_alpha = rectangle.color.alpha;
        let mut instances: Vec<RectangleInstance> = Vec::new();
        instances.push(rectangle);
        assert(instances@ =~= seq![rectangle]);
        self.transition_pipeline.update_instance_buffer(instances)
    }

    /// Queues one rectangle for the frame in progress.
    pub fn queue_rectangle(&mut self, rectangle: RectangleInstance)
        requires
            old(self).wf(),
        ensures
            final(self).wf(),
            final(self)@ == old(self)@.queue_rectangle(rectangle),
    {
        self.queue.add_rectangle(rectangle);
    }

    /// Queues one text section for the frame in progress.
    pub fn queue_text(&mut self, section: TextSection)
        requires
            old(self).wf(),
        ensures
            final(self).wf(),
            final(self)@ == old(self)@.queue_text(section@),
    {
        self.text.queue(section);
    }

    /// Queues the frame-rate readout for `fps`.
    pub fn queue_fps(&mut self, fps: i32)
        requires
            old(self).wf(),
        ensures
            final(self).wf(),
            final(self)@ == old(self)@.queue_fps(fps as int),
    {
        self.queue_text(fps_section(fps));
    }

    /// Flushes the queued rectangles into the base layer's instance buffer,
    /// in submission order, and leaves the queue empty. The write that is
    /// returned carries them to the device.
    pub fn update(&mut self) -> (write: InstanceWrite)
        requires
            old(self).wf(),
        ensures
            final(self).wf(),
            final(self)@ == old(self)@.update(),
            write@ == (InstanceWriteView { layer: Layer::Base, instances: old(self)@.queue }),
    {
        let rectangles = self.queue.clear_rectangles();
        self.rectangle_pipeline.update_instance_buffer(rectangles)
    }

    /// Renders one frame onto a target of `width` by `height` logical
    /// pixels. The steps come back in the order in which the device has to
    /// perform them; afterwards nothing is queued or pending.
    pub fn render(&mut self, width: u32, height: u32) -> (steps: Vec<RenderStep>)
        requires
            old(self).wf(),
        ensures
            final(self).wf(),
            final(self)@ == old(self)@.render(),
            steps.deep_view() == old(self)@.frame(width, height),
    {
        let mut steps: Vec<RenderStep> = Vec::new();
        let write = self.update();
        steps.push(RenderStep::Write(write));
        let base_pass = self.rectangle_pipeline.render();
        steps.push(RenderStep::Rectangles(base_pass));
        let text_pass = self.text.draw_queued(width, height);
        steps.push(RenderStep::Text(text_pass));
        if !self.transition_alpha.is_zero() {
            let overlay_pass = self.transition_pipeline.render();
            steps.push(RenderStep::Rectangles(overlay_pass));
        }
        assert(steps.deep_view() =~= old(self)@.frame(width, height));
        steps
    }

    /// How many rectangles are queued for the frame in progress.
    pub fn queued_rectangles(&self) -> (n: usize)
        ensures
            n == self@.queue.len(),
    {
        self.queue.len()
    }

    /// How many text sections are waiting to be drawn.
    pub fn pending_text(&self) -> (n: usize)
        ensures
            n == self@.pending_text.len(),
    {
        self.text.pending_len()
    }

    /// The rectangles in the base layer's instance buffer.
    pub fn base_instances(&self) -> (instances: &Vec<RectangleInstance>)
        ensures
            instances@ == self@.base_buffer,
    {
        self.rectangle_pipeline.instances()
    }

    /// The rectangles in the transition layer's instance buffer.
    pub fn transition_instances(&self) -> (instances: &Vec<RectangleInstance>)
        ensures
            instances@ == self@.transition_buffer,
    {
        self.transition_pipeline.instances()
    }

    /// The opacity of the fade overlay as last submitted.
    pub fn transition_alpha(&self) -> (alpha: Scalar)
        ensures
            alpha == self@.transition_alpha,
    {
        self.transition_alpha
    }

    /// Whether a frame rendered now includes the overlay pass.
    pub fn overlay_active(&self) -> (active: bool)
        ensures
            active == self@.overlay_active(),
    {
        !self.transition_alpha.is_zero()
    }
}

} // verus!
