use ui_overlay::rectangle::{Color, Point, Size};
use ui_overlay::scalar::Scalar;
use ui_overlay::text::{fps_section, HorizontalAlign, TextLayout, TextSection, VerticalAlign};
use ui_overlay::ui::Ui;
use ui_overlay::frame::RenderStep;

fn number(s: Scalar) -> f32 {
    f32::from_bits(s.to_bits())
}

fn text_of(steps: Vec<RenderStep>) -> Vec<TextSection> {
    for step in steps {
        if let RenderStep::Text(pass) = step {
            return pass.sections;
        }
    }
    panic!("no text pass");
}

#[test]
fn queue_fps_42_is_the_fixed_readout() {
    let mut ui = Ui::new();
    ui.queue_fps(42);
    let sections = text_of(ui.render(800, 600));
    assert_eq!(sections.len(), 1);
    let section = &sections[0];
    assert_eq!(section.content, "FPS: 42");
    assert_eq!(number(section.color.red), 1.0);
    assert_eq!(number(section.color.green), 1.0);
    assert_eq!(number(section.color.blue), 1.0);
    assert_eq!(number(section.color.alpha), 1.0);
    assert_eq!(number(section.scale), 20.0);
    assert_eq!(number(section.position.x), 0.0);
    assert_eq!(number(section.position.y), 5.0);
    assert_eq!(
        section.layout,
        TextLayout::Wrap { h_align: HorizontalAlign::Left, v_align: VerticalAlign::Top }
    );
    assert_eq!(number(section.bounds.width), f32::INFINITY);
    assert_eq!(number(section.bounds.height), f32::INFINITY);
}

#[test]
fn fps_section_formats_like_the_standard_library() {
    let samples = [
        0,
        1,
        9,
        10,
        11,
        42,
        99,
        100,
        101,
        1000,
        12345,
        1_000_000_000,
        i32::MAX,
        -1,
        -9,
        -10,
        -42,
        -100,
        -2_000_000_000,
        i32::MIN,
    ];
    for fps in samples {
        assert_eq!(fps_section(fps).content, format!("FPS: {}", fps));
    }
}

#[test]
fn fps_section_exact_strings() {
    assert_eq!(fps_section(0).content, "FPS: 0");
    assert_eq!(fps_section(7).content, "FPS: 7");
    assert_eq!(fps_section(60).content, "FPS: 60");
    assert_eq!(fps_section(144).content, "FPS: 144");
    assert_eq!(fps_section(-5).content, "FPS: -5");
    assert_eq!(fps_section(i32::MAX).content, "FPS: 2147483647");
    assert_eq!(fps_section(i32::MIN).content, "FPS: -2147483648");
}

#[test]
fn fps_section_sweep_matches_format() {
    let mut fps: i32 = -5000;
    while fps <= 5000 {
        assert_eq!(fps_section(fps).content, format!("FPS: {}", fps));
        fps += 1;
    }
}

#[test]
fn queue_text_keeps_sections_in_order_and_unchanged() {
    let mut ui = Ui::new();
    let first = TextSection {
        content: String::from("first"),
        position: Point { x: Scalar::from_bits(10.0f32.to_bits()), y: Scalar::from_bits(20.0f32.to_bits()) },
        bounds: Size { width: Scalar::from_bits(300.0f32.to_bits()), height: Scalar::from_bits(f32::INFINITY.to_bits()) },
        color: Color {
            red: Scalar::from_bits(0.5f32.to_bits()),
            green: Scalar::from_bits(0.25f32.to_bits()),
            blue: Scalar::from_bits(0.0f32.to_bits()),
            alpha: Scalar::from_bits(1.0f32.to_bits()),
        },
        scale: Scalar::from_bits(12.0f32.to_bits()),
        layout: TextLayout::SingleLine { h_align: HorizontalAlign::Center, v_align: VerticalAlign::Bottom },
    };
    ui.queue_text(first);
    ui.queue_fps(30);
    assert_eq!(ui.pending_text(), 2);
    let sections = text_of(ui.render(640, 480));
    assert_eq!(sections.len(), 2);
    assert_eq!(sections[0].content, "first");
    assert_eq!(number(sections[0].position.x), 10.0);
    assert_eq!(number(sections[0].position.y), 20.0);
    assert_eq!(number(sections[0].bounds.width), 300.0);
    assert_eq!(number(sections[0].color.red), 0.5);
    assert_eq!(number(sections[0].scale), 12.0);
    assert_eq!(
        sections[0].layout,
        TextLayout::SingleLine { h_align: HorizontalAlign::Center, v_align: VerticalAlign::Bottom }
    );
    assert_eq!(sections[1].content, "FPS: 30");
    assert_eq!(ui.pending_text(), 0);
}

#[test]
fn text_is_drawn_once() {
    let mut ui = Ui::new();
    ui.queue_fps(1);
    ui.queue_fps(2);
    assert_eq!(text_of(ui.render(10, 10)).len(), 2);
    assert_eq!(text_of(ui.render(10, 10)).len(), 0);
}
