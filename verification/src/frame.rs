//! Render steps: what the graphics device is asked to do for one frame, in
//! the order in which it must be done.

use vstd::prelude::*;
use crate::rectangle::RectangleInstance;
use crate::text::{TextSection, TextSectionView};

verus! {

/// The two rectangle layers of a frame.
#[derive(Clone, Copy, Debug, PartialEq, Eq, Structural)]
pub enum Layer {
    /// Ordinary interface rectangles, drawn first.
    Base,
    /// The full-screen fade overlay, drawn last.
    Transition,
}

/// What a pass does with the contents its target already has.
#[derive(Clone, Copy, Debug, PartialEq, Eq, Structural)]
pub enum LoadOp {
    /// Keep them and draw on top.
    Load,
    /// Discard them and start from a cleared target.
    Clear,
}

/// Replace the contents of a layer's instance buffer with `instances`.
#[derive(Debug)]
pub struct InstanceWrite {
    pub layer: Layer,
    pub instances: Vec<RectangleInstance>,
}

/// An instance write as a mathematical value.
pub struct InstanceWriteView {
    pub layer: Layer,
    pub instances: Seq<RectangleInstance>,
}

impl View for InstanceWrite {
    type V = InstanceWriteView;

    open spec fn view(&self) -> InstanceWriteView {
        InstanceWriteView { layer: self.layer, instances: self.instances@ }
    }
}

/// Open a pass on the target as `load` says, draw the `instance_count`
/// rectangles in the layer's instance buffer, close the pass, and keep the
/// result if `store` is set.
#[derive(Clone, Copy, Debug, PartialEq, Eq)]
pub struct RectanglePass {
    pub layer: Layer,
    pub instance_count: usize,
    pub load: LoadOp,
    pub store: bool,
}

/// A rectangle pass as a mathematical value.
pub struct RectanglePassView {
    pub layer: Layer,
    pub instance_count: nat,
    pub load: LoadOp,
    pub store: bool,
}

impl View for RectanglePass {
    type V = RectanglePassView;

    open spec fn view(&self) -> RectanglePassView {
        RectanglePassView {
            layer: self.layer,
            instance_count: self.instance_count as nat,
            load: self.load,
            store: self.store,
        }
    }
}

impl RectanglePassView {
    /// The pass that composites `instance_count` rectangles of `layer` on top
    /// of what the target already shows, and keeps the result.
    pub open spec fn over(layer: Layer, instance_count: nat) -> RectanglePassView {
        RectanglePassView { layer, instance_count, load: LoadOp::Load, store: true }
    }
}

/// Draw `sections` onto the target, which is `width` by `height` logical
/// pixels, on top of what it already shows.
#[derive(Debug)]
pub struct TextPass {
    pub sections: Vec<TextSection>,
    pub width: u32,
    pub height: u32,
}

/// A text pass as a mathematical value.
pub struct TextPassView {
    pub sections: Seq<TextSectionView>,
    pub width: u32,
    pub height: u32,
}

impl View for TextPass {
    type V = TextPassView;

    open spec fn view(&self) -> TextPassView {
        TextPassView {
            sections: self.sections.deep_view(),
            width: self.width,
            height: self.height,
        }
    }
}

/// One action for the graphics device.
#[derive(Debug)]
pub enum RenderStep {
    Write(InstanceWrite),
    Rectangles(RectanglePass),
    Text(TextPass),
}

/// A render step as a mathematical value.
pub enum RenderStepView {
    Write(InstanceWriteView),
    Rectangles(RectanglePassView),
    Text(TextPassView),
}

impl View for RenderStep {
    type V = RenderStepView;

    open spec fn view(&self) -> RenderStepView {
        match *self {
            RenderStep::Write(write) => RenderStepView::Write(write@),
            RenderStep::Rectangles(pass) => RenderStepView::Rectangles(pass@),
            RenderStep::Text(pass) => RenderStepView::Text(pass@),
        }
    }
}

impl DeepView for RenderStep {
    type V = RenderStepView;

    open spec fn deep_view(&self) -> RenderStepView {
        self@
    }
}

impl RenderStepView {
    /// Whether this step writes the instance buffer of `layer`.
    pub open spec fn writes_layer(self, layer: Layer) -> bool {
        self matches RenderStepView::Write(write) && write.layer == layer
    }

    /// Whether this step draws the rectangles of `layer`.
    pub open spec fn draws_layer(self, layer: Layer) -> bool {
        self matches RenderStepView::Rectangles(pass) && pass.layer == layer
    }

    /// Whether this step draws text.
    pub open spec fn draws_text(self) -> bool {
        self is Text
    }
}

} // verus!
