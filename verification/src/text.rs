//! Text sections: what to write, where, and how to lay it out.

use vstd::prelude::*;
use vstd::string::*;
use crate::decimal::{append_decimal, decimal};
use crate::rectangle::{Color, Point, Size};
use crate::scalar::{Scalar, FIVE_BITS, INFINITY_BITS, ONE_BITS, POSITIVE_ZERO_BITS, TWENTY_BITS};

verus! {

/// Horizontal anchoring of text relative to its position.
#[derive(Clone, Copy, Debug, PartialEq, Eq, Structural)]
pub enum HorizontalAlign {
    Left,
    Center,
    Right,
}

/// Vertical anchoring of text relative to its position.
#[derive(Clone, Copy, Debug, PartialEq, Eq, Structural)]
pub enum VerticalAlign {
    Top,
    Center,
    Bottom,
}

/// How lines are formed inside the bounds of a section.
#[derive(Clone, Copy, Debug, PartialEq, Eq, Structural)]
pub enum TextLayout {
    /// Everything on one line; what does not fit is cut off.
    SingleLine { h_align: HorizontalAlign, v_align: VerticalAlign },
    /// Lines break between words where the bounds are reached.
    Wrap { h_align: HorizontalAlign, v_align: VerticalAlign },
}

/// One request to draw text.
#[derive(Debug)]
pub struct TextSection {
    /// The characters to draw.
    pub content: String,
    /// Where the text is anchored on screen.
    pub position: Point,
    /// The box the layout may fill; infinite where unbounded.
    pub bounds: Size,
    /// Colour of the glyphs.
    pub color: Color,
    /// Glyph height in pixels.
    pub scale: Scalar,
    /// Line forming and alignment.
    pub layout: TextLayout,
}

/// A text section as a mathematical value.
pub struct TextSectionView {
    pub content: Seq<char>,
    pub position: Point,
    pub bounds: Size,
    pub color: Color,
    pub scale: Scalar,
    pub layout: TextLayout,
}

impl View for TextSection {
    type V = TextSectionView;

    open spec fn view(&self) -> TextSectionView {
        TextSectionView {
            content: self.content@,
            position: self.position,
            bounds: self.bounds,
            color: self.color,
            scale: self.scale,
            layout: self.layout,
        }
    }
}

impl DeepView for TextSection {
    type V = TextSectionView;

    open spec fn deep_view(&self) -> TextSectionView {
        self@
    }
}

/// The label in front of the frame rate.
pub open spec fn fps_prefix() -> Seq<char> {
    seq!['F', 'P', 'S', ':', ' ']
}

/// Opaque white.
pub open spec fn white() -> Color {
    Color {
        red: Scalar { bits: ONE_BITS },
        green: Scalar { bits: ONE_BITS },
        blue: Scalar { bits: ONE_BITS },
        alpha: Scalar { bits: ONE_BITS },
    }
}

/// The frame-rate readout for `fps`: the label and the number in decimal,
/// white, twenty pixels high, anchored by its top-left corner at (0, 5),
/// word-wrapped inside unbounded space.
pub open spec fn fps_section_view(fps: int) -> TextSectionView {
    TextSectionView {
        content: fps_prefix() + decimal(fps),
        position: Point { x: Scalar { bits: POSITIVE_ZERO_BITS }, y: Scalar { bits: FIVE_BITS } },
        bounds: Size {
            width: Scalar { bits: INFINITY_BITS },
            height: Scalar { bits: INFINITY_BITS },
        },
        color: white(),
        scale: Scalar { bits: TWENTY_BITS },
        layout: TextLayout::Wrap { h_align: HorizontalAlign::Left, v_align: VerticalAlign::Top },
    }
}

/// Builds the frame-rate readout for `fps`.
pub fn fps_section(fps: i32) -> (section: TextSection)
    ensures
        section@ == fps_section_view(fps as int),
{
    proof {
        reveal_strlit("FPS: ");
    }
    let mut content = String::from_str("FPS: ");
    assert(content@ =~= fps_prefix());
    append_decimal(&mut content, fps);
    let one = Scalar::from_bits(ONE_BITS);
    TextSection {
        content,
        position: Point { x: Scalar::from_bits(POSITIVE_ZERO_BITS), y: Scalar::from_bits(FIVE_BITS) },
        bounds: Size {
            width: Scalar::from_bits(INFINITY_BITS),
            height: Scalar::from_bits(INFINITY_BITS),
        },
        color: Color { red: one, green: one, blue: one, alpha: one },
        scale: Scalar::from_bits(TWENTY_BITS),
        layout: TextLayout::Wrap { h_align: HorizontalAlign::Left, v_align: VerticalAlign::Top },
    }
}

} // verus!
