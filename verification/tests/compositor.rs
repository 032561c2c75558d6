use ui_overlay::compositor::{copy_instances, RectangleCompositor, TextCompositor};
use ui_overlay::frame::{Layer, LoadOp, RectanglePass};
use ui_overlay::rectangle::{Color, Point, RectangleInstance, Size};
use ui_overlay::scalar::Scalar;
use ui_overlay::text::fps_section;

fn scalar(value: f32) -> Scalar {
    Scalar::from_bits(value.to_bits())
}

fn rectangle(x: f32) -> RectangleInstance {
    RectangleInstance {
        position: Point { x: scalar(x), y: scalar(1.0) },
        size: Size { width: scalar(2.0), height: scalar(3.0) },
        color: Color { red: scalar(1.0), green: scalar(0.0), blue: scalar(0.0), alpha: scalar(1.0) },
    }
}

#[test]
fn copy_instances_copies_every_rectangle_in_order() {
    assert_eq!(copy_instances(&vec![]), vec![]);
    let list = vec![rectangle(1.0), rectangle(2.0), rectangle(3.0)];
    assert_eq!(copy_instances(&list), list);
}

#[test]
fn new_compositor_is_empty_and_knows_its_layer() {
    let base = RectangleCompositor::new(Layer::Base);
    assert_eq!(base.layer(), Layer::Base);
    assert!(base.instances().is_empty());
    let overlay = RectangleCompositor::new(Layer::Transition);
    assert_eq!(overlay.layer(), Layer::Transition);
}

#[test]
fn update_instance_buffer_replaces_the_contents() {
    let mut compositor = RectangleCompositor::new(Layer::Base);
    let first = vec![rectangle(1.0), rectangle(2.0)];
    let write = compositor.update_instance_buffer(first.clone());
    assert_eq!(write.layer, Layer::Base);
    assert_eq!(write.instances, first);
    assert_eq!(compositor.instances(), &first);
    let second = vec![rectangle(9.0)];
    let write = compositor.update_instance_buffer(second.clone());
    assert_eq!(write.instances, second);
    assert_eq!(compositor.instances(), &second);
    assert_eq!(compositor.layer(), Layer::Base);
    let write = compositor.update_instance_buffer(vec![]);
    assert!(write.instances.is_empty());
    assert!(compositor.instances().is_empty());
}

#[test]
fn compositor_render_draws_what_the_buffer_holds_and_never_clears() {
    let mut compositor = RectangleCompositor::new(Layer::Transition);
    assert_eq!(
        compositor.render(),
        RectanglePass { layer: Layer::Transition, instance_count: 0, load: LoadOp::Load, store: true }
    );
    compositor.update_instance_buffer(vec![rectangle(1.0), rectangle(2.0), rectangle(3.0)]);
    assert_eq!(
        compositor.render(),
        RectanglePass { layer: Layer::Transition, instance_count: 3, load: LoadOp::Load, store: true }
    );
    assert_eq!(compositor.instances().len(), 3);
}

#[test]
fn text_compositor_drains_on_draw() {
    let mut text = TextCompositor::new();
    assert_eq!(text.pending_len(), 0);
    text.queue(fps_section(1));
    text.queue(fps_section(2));
    assert_eq!(text.pending_len(), 2);
    let pass = text.draw_queued(300, 200);
    assert_eq!(pass.width, 300);
    assert_eq!(pass.height, 200);
    assert_eq!(pass.sections.len(), 2);
    assert_eq!(pass.sections[0].content, "FPS: 1");
    assert_eq!(pass.sections[1].content, "FPS: 2");
    assert_eq!(text.pending_len(), 0);
    let pass = text.draw_queued(300, 200);
    assert!(pass.sections.is_empty());
    assert_eq!(pass.width, 300);
}
