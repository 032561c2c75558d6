//! What holds of every frame, whatever was submitted before it.

use vstd::prelude::*;
use crate::frame::{InstanceWriteView, Layer, RectanglePassView, RenderStepView, TextPassView};
use crate::rectangle::RectangleInstance;
use crate::text::TextSectionView;
use crate::ui::UiView;

verus! {

/// The steps of a frame in which nothing is queued and nothing is pending,
/// without the overlay pass.
pub open spec fn idle_steps(width: u32, height: u32) -> Seq<RenderStepView> {
    seq![
        RenderStepView::Write(
            InstanceWriteView { layer: Layer::Base, instances: Seq::<RectangleInstance>::empty() },
        ),
        RenderStepView::Rectangles(RectanglePassView::over(Layer::Base, 0)),
        RenderStepView::Text(
            TextPassView { sections: Seq::<TextSectionView>::empty(), width, height },
        ),
    ]
}

/// Queueing rectangles one by one appends them to the queue in the order of
/// the calls and touches nothing else.
pub proof fn lemma_queue_rectangles_appends(ui: UiView, rectangles: Seq<RectangleInstance>)
    ensures
        ui.queue_rectangles(rectangles) == (UiView { queue: ui.queue + rectangles, ..ui }),
    decreases rectangles.len(),
{
    if rectangles.len() == 0 {
        assert(ui.queue + rectangles =~= ui.queue);
    } else {
        lemma_queue_rectangles_appends(ui, rectangles.drop_last());
        assert((ui.queue + rectangles.drop_last()).push(rectangles.last()) =~= ui.queue
            + rectangles);
    }
}

/// Whatever rectangles are queued during a frame, the first step of the frame
/// writes exactly them to the base layer, in the order of submission behind
/// what the queue already held, the base pass draws as many, the base
/// layer's buffer then holds them, and the queue is empty.
pub proof fn law_flush_keeps_submission_order(
    ui: UiView,
    rectangles: Seq<RectangleInstance>,
    width: u32,
    height: u32,
)
    ensures
        ui.queue_rectangles(rectangles).frame(width, height)[0] == RenderStepView::Write(
            InstanceWriteView { layer: Layer::Base, instances: ui.queue + rectangles },
        ),
        ui.queue_rectangles(rectangles).frame(width, height)[1] == RenderStepView::Rectangles(
            RectanglePassView::over(Layer::Base, (ui.queue + rectangles).len()),
        ),
        ui.queue_rectangles(rectangles).update().base_buffer == ui.queue + rectangles,
        ui.queue_rectangles(rectangles).update().queue == Seq::<RectangleInstance>::empty(),
        ui.queue.len() == 0 ==> ui.queue + rectangles == rectangles,
{
    lemma_queue_rectangles_appends(ui, rectangles);
    if ui.queue.len() == 0 {
        assert(ui.queue + rectangles =~= rectangles);
    }
}

/// After a frame was rendered the queue is empty and no text is pending,
/// however many rectangles were queued before.
pub proof fn law_render_drains(ui: UiView, rectangles: Seq<RectangleInstance>)
    ensures
        ui.render().queue == Seq::<RectangleInstance>::empty(),
        ui.render().pending_text == Seq::<TextSectionView>::empty(),
        ui.queue_rectangles(rectangles).render().queue == Seq::<RectangleInstance>::empty(),
{
}

/// Once a rectangle was submitted as the fade overlay, the frame draws the
/// transition layer exactly when the alpha of that rectangle is not zero:
/// with zero alpha the frame has three steps and none of them draws the
/// transition layer, otherwise a fourth step draws that one rectangle.
pub proof fn law_overlay_follows_alpha(
    ui: UiView,
    rectangle: RectangleInstance,
    width: u32,
    height: u32,
)
    ensures
        ui.set_transition_alpha(rectangle).coupled(),
        ui.set_transition_alpha(rectangle).overlay_active() == !rectangle.color.alpha.spec_is_zero(),
        rectangle.color.alpha.spec_is_zero() ==> {
            let frame = ui.set_transition_alpha(rectangle).frame(width, height);
            &&& frame.len() == 3
            &&& forall|i: int|
                0 <= i < frame.len() ==> !(#[trigger] frame[i]).draws_layer(Layer::Transition)
        },
        !rectangle.color.alpha.spec_is_zero() ==> {
            let frame = ui.set_transition_alpha(rectangle).frame(width, height);
            &&& frame.len() == 4
            &&& frame[3] == RenderStepView::Rectangles(
                RectanglePassView::over(Layer::Transition, 1),
            )
        },
{
}

/// However often a fade overlay is submitted, only the last submission
/// counts: the transition layer holds that one rectangle, and its alpha alone
/// decides whether the layer is drawn.
pub proof fn law_last_overlay_counts(
    ui: UiView,
    earlier: RectangleInstance,
    last: RectangleInstance,
)
    ensures
        ui.set_transition_alpha(earlier).set_transition_alpha(last) == ui.set_transition_alpha(
            last,
        ),
        ui.set_transition_alpha(last).transition_buffer == seq![last],
        ui.set_transition_alpha(last).transition_alpha == last.color.alpha,
        ui.set_transition_alpha(last).queue == ui.queue,
        ui.set_transition_alpha(last).pending_text == ui.pending_text,
        ui.set_transition_alpha(last).base_buffer == ui.base_buffer,
{
}

/// Queueing rectangles or text neither starts nor stops the fade overlay.
pub proof fn law_queueing_keeps_overlay(
    ui: UiView,
    rectangle: RectangleInstance,
    section: TextSectionView,
    fps: int,
)
    ensures
        ui.queue_rectangle(rectangle).overlay_active() == ui.overlay_active(),
        ui.queue_text(section).overlay_active() == ui.overlay_active(),
        ui.queue_fps(fps).overlay_active() == ui.overlay_active(),
        ui.render().overlay_active() == ui.overlay_active(),
{
}

/// In every frame the base layer is written before it is drawn, the text is
/// drawn after the base layer, and the transition layer, where it is drawn at
/// all, is drawn strictly after both. With an active overlay the transition
/// pass is there.
pub proof fn law_overlay_is_drawn_last(ui: UiView, width: u32, height: u32)
    ensures
        ({
            let frame = ui.frame(width, height);
            &&& frame[0].writes_layer(Layer::Base)
            &&& frame[1].draws_layer(Layer::Base)
            &&& frame[2].draws_text()
            &&& forall|i: int, j: int|
                0 <= i < frame.len() && 0 <= j < frame.len() && (#[trigger] frame[i]).draws_layer(
                    Layer::Transition,
                ) && ((#[trigger] frame[j]).draws_layer(Layer::Base) || frame[j].draws_text()
                    || frame[j].writes_layer(Layer::Base)) ==> j < i
            &&& ui.overlay_active() ==> frame.len() == 4 && frame[3].draws_layer(Layer::Transition)
            &&& !ui.overlay_active() ==> frame.len() == 3
        }),
{
}

/// Rendering again with nothing submitted in between shows only the fade
/// overlay as last submitted: the second frame writes and draws an empty base
/// layer, draws no text, and its transition pass is the one of the first
/// frame, or absent as it was there. Every later frame is the same, and
/// from the second frame on the overlay no longer changes.
pub proof fn law_second_render_shows_only_overlay(ui: UiView, width: u32, height: u32)
    ensures
        ui.render().render().render() == ui.render().render(),
        ui.render().render().frame(width, height) == ui.render().frame(width, height),
        ui.render().render().base_buffer == Seq::<RectangleInstance>::empty(),
        ui.render().transition_buffer == ui.transition_buffer,
        ui.render().transition_alpha == ui.transition_alpha,
        !ui.overlay_active() ==> ui.render().frame(width, height) == idle_steps(width, height),
        ui.overlay_active() ==> ui.render().frame(width, height) == idle_steps(width, height).push(
            ui.frame(width, height)[3],
        ),
        ui.overlay_active() ==> ui.frame(width, height)[3] == RenderStepView::Rectangles(
            RectanglePassView::over(Layer::Transition, ui.transition_buffer.len()),
        ),
{
    let once = ui.render();
    assert(once.frame(width, height) =~= if ui.overlay_active() {
        idle_steps(width, height).push(ui.frame(width, height)[3])
    } else {
        idle_steps(width, height)
    });
}

/// A frame rendered before anything was submitted writes and draws no
/// rectangle, has no transition pass, and still has its text pass, with no
/// section in it.
pub proof fn law_empty_frame(width: u32, height: u32)
    ensures
        UiView::initial().coupled(),
        !UiView::initial().overlay_active(),
        UiView::initial().frame(width, height) == idle_steps(width, height),
        UiView::initial().render() == UiView::initial(),
{
    assert(UiView::initial().frame(width, height) =~= idle_steps(width, height));
}

/// Every operation keeps opacity and overlay rectangle together.
pub proof fn law_coupling_is_kept(
    ui: UiView,
    rectangle: RectangleInstance,
    section: TextSectionView,
    fps: int,
)
    requires
        ui.coupled(),
    ensures
        ui.queue_rectangle(rectangle).coupled(),
        ui.queue_text(section).coupled(),
        ui.queue_fps(fps).coupled(),
        ui.set_transition_alpha(rectangle).coupled(),
        ui.update().coupled(),
        ui.render().coupled(),
{
}

} // verus!
