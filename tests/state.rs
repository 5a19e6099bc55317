use canvas_wasm::keywords::{BlendMode, StrokeCap, StrokeJoin, TextAlign, TextDirection, Baseline, FilterQuality, DashStyle};
use canvas_wasm::state::{GraphicsState, StateStack};

fn bits(v: &[f32]) -> Vec<u32> {
    v.iter().map(|x| x.to_bits()).collect()
}

#[test]
fn dash_list_with_negative_entry_is_ignored() {
    let mut s = GraphicsState::new(());
    s.set_line_dash(bits(&[3.0, -1.0, 5.0]));
    assert_eq!(s.get_line_dash(), Vec::<u32>::new());
    s.set_line_dash(bits(&[4.0, 2.0]));
    s.set_line_dash(bits(&[3.0, -1.0, 5.0]));
    assert_eq!(s.get_line_dash(), bits(&[4.0, 2.0]));
}

#[test]
fn dash_list_even_length_kept() {
    let mut s = GraphicsState::new(());
    s.set_line_dash(bits(&[3.0, 5.0]));
    assert_eq!(s.get_line_dash(), bits(&[3.0, 5.0]));
}

#[test]
fn dash_list_odd_length_doubled() {
    let mut s = GraphicsState::new(());
    s.set_line_dash(bits(&[3.0]));
    assert_eq!(s.get_line_dash(), bits(&[3.0, 3.0]));
    s.set_line_dash(bits(&[1.0, 2.0, 3.0]));
    assert_eq!(s.get_line_dash(), bits(&[1.0, 2.0, 3.0, 1.0, 2.0, 3.0]));
}

#[test]
fn dash_list_rejects_non_finite() {
    let mut s = GraphicsState::new(());
    s.set_line_dash(bits(&[1.0]));
    s.set_line_dash(bits(&[2.0, f32::INFINITY]));
    assert_eq!(s.get_line_dash(), bits(&[1.0, 1.0]));
    s.set_line_dash(bits(&[2.0, f32::NAN]));
    assert_eq!(s.get_line_dash(), bits(&[1.0, 1.0]));
    s.set_line_dash(bits(&[0.0, -0.0]));
    assert_eq!(s.get_line_dash(), bits(&[0.0, -0.0]));
    s.set_line_dash(vec![]);
    assert_eq!(s.get_line_dash(), Vec::<u32>::new());
}

#[test]
fn defaults() {
    let s = GraphicsState::new(7u8);
    assert_eq!(f32::from_bits(s.line_width), 1.0);
    assert_eq!(f32::from_bits(s.miter_limit), 10.0);
    assert_eq!(f32::from_bits(s.global_alpha), 1.0);
    assert_eq!(s.line_cap, StrokeCap::Butt);
    assert_eq!(s.line_join, StrokeJoin::Miter);
    assert_eq!(s.composite, BlendMode::SrcOver);
    assert_eq!(s.text_baseline, Baseline::Alphabetic);
    assert_eq!(s.text_align, TextAlign::Start);
    assert_eq!(s.direction, TextDirection::Ltr);
    assert_eq!(s.smoothing_quality, FilterQuality::Low);
    assert_eq!(s.line_dash_fit, DashStyle::Translate);
    assert!(s.image_smoothing);
    assert_eq!(s.font, "10px sans-serif");
    assert_eq!(s.engine, 7);
}

#[test]
fn line_width_only_positive() {
    let mut s = GraphicsState::new(());
    s.set_line_width(2.5f32.to_bits());
    assert_eq!(f32::from_bits(s.line_width), 2.5);
    s.set_line_width(0.0f32.to_bits());
    s.set_line_width((-3.0f32).to_bits());
    s.set_line_width(f32::NAN.to_bits());
    s.set_line_width((-0.0f32).to_bits());
    assert_eq!(f32::from_bits(s.line_width), 2.5);
    s.set_miter_limit((-1.0f32).to_bits());
    assert_eq!(f32::from_bits(s.miter_limit), 10.0);
    s.set_miter_limit(4.0f32.to_bits());
    assert_eq!(f32::from_bits(s.miter_limit), 4.0);
}

#[test]
fn keyword_setters_ignore_unknown_names() {
    let mut s = GraphicsState::new(());
    s.set_line_cap("ROUND");
    assert_eq!(s.line_cap, StrokeCap::Round);
    s.set_line_cap("pointy");
    assert_eq!(s.line_cap, StrokeCap::Round);
    s.set_line_join("bevel");
    assert_eq!(s.line_join, StrokeJoin::Bevel);
    s.set_text_align("Center");
    assert_eq!(s.text_align, TextAlign::Center);
    s.set_text_baseline("hanging");
    assert_eq!(s.text_baseline, Baseline::Hanging);
    s.set_text_baseline("nowhere");
    assert_eq!(s.text_baseline, Baseline::Hanging);
    s.set_direction("rtl");
    assert_eq!(s.direction, TextDirection::Rtl);
    s.set_global_composite_operation("multiply");
    assert_eq!(s.composite, BlendMode::Multiply);
    s.set_global_composite_operation("source-over-ish");
    assert_eq!(s.composite, BlendMode::Multiply);
    s.set_image_smoothing_quality("high");
    assert_eq!(s.smoothing_quality, FilterQuality::High);
    s.set_line_dash_fit("turn");
    assert_eq!(s.line_dash_fit, DashStyle::Rotate);
}

#[test]
fn push_then_pop_restores_state() {
    let mut stack = StateStack::new(GraphicsState::new(vec![1, 2, 3]));
    stack.current.set_line_dash(bits(&[4.0, 2.0]));
    stack.current.set_line_cap("square");
    stack.push();
    assert_eq!(stack.depth(), 1);
    assert_eq!(stack.current.line_cap, StrokeCap::Square);
    assert_eq!(stack.current.get_line_dash(), bits(&[4.0, 2.0]));
    assert_eq!(stack.current.engine, vec![1, 2, 3]);
    stack.pop();
    assert_eq!(stack.depth(), 0);
    assert_eq!(stack.current.line_cap, StrokeCap::Square);
    assert_eq!(stack.current.get_line_dash(), bits(&[4.0, 2.0]));
    assert_eq!(stack.current.engine, vec![1, 2, 3]);
}

#[test]
fn pop_undoes_changes_made_after_push() {
    let mut stack = StateStack::new(GraphicsState::new(0u32));
    stack.push();
    stack.current.set_line_width(8.0f32.to_bits());
    stack.current.set_text_align("right");
    stack.current.engine = 9;
    stack.pop();
    assert_eq!(f32::from_bits(stack.current.line_width), 1.0);
    assert_eq!(stack.current.text_align, TextAlign::Start);
    assert_eq!(stack.current.engine, 0);
}

#[test]
fn extra_pops_keep_base_state() {
    let mut stack = StateStack::new(GraphicsState::new(()));
    stack.current.set_line_join("round");
    stack.push();
    stack.current.set_line_join("bevel");
    stack.pop();
    stack.pop();
    stack.pop();
    assert_eq!(stack.depth(), 0);
    assert_eq!(stack.current.line_join, StrokeJoin::Round);
}

#[test]
fn reset_drops_saved_states() {
    let mut stack = StateStack::new(GraphicsState::new(()));
    stack.push();
    stack.push();
    stack.current.set_line_cap("round");
    stack.reset(GraphicsState::new(()));
    assert_eq!(stack.depth(), 0);
    assert_eq!(stack.current.line_cap, StrokeCap::Butt);
}
