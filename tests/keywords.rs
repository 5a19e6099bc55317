use canvas_wasm::keywords::{
    fill_rule_from_string, from_1d_style, from_blend_mode, from_filter_quality, from_slant,
    from_stroke_cap, from_stroke_join, from_text_align, from_text_baseline, from_text_direction,
    from_width, to_1d_style, to_blend_mode, to_filter_quality, to_path_op, to_repeat_mode,
    to_slant, to_stroke_cap, to_stroke_join, to_text_align, to_text_baseline, to_text_direction,
    to_width, Baseline, BlendMode, DashStyle, FillRule, FilterQuality, FontWidth, PathOp, Slant,
    StrokeCap, StrokeJoin, TextAlign, TextDirection, TileMode,
};

#[test]
fn baselines_round_trip() {
    let all = [
        Baseline::Top,
        Baseline::Hanging,
        Baseline::Middle,
        Baseline::Alphabetic,
        Baseline::Ideographic,
        Baseline::Bottom,
    ];
    for b in all {
        assert_eq!(to_text_baseline(&from_text_baseline(b)), Some(b));
    }
    assert_eq!(to_text_baseline("TOP"), Some(Baseline::Top));
    assert_eq!(to_text_baseline("Ideographic"), Some(Baseline::Ideographic));
    assert_eq!(to_text_baseline("center"), None);
    assert_eq!(to_text_baseline(""), None);
    assert_eq!(from_text_baseline(Baseline::Middle), "middle");
}

#[test]
fn filter_quality_names() {
    assert_eq!(to_filter_quality("low"), Some(FilterQuality::Low));
    assert_eq!(to_filter_quality("Medium"), Some(FilterQuality::Medium));
    assert_eq!(to_filter_quality("HIGH"), Some(FilterQuality::High));
    assert_eq!(to_filter_quality("none"), None);
    assert_eq!(from_filter_quality(FilterQuality::Off), "low");
    assert_eq!(from_filter_quality(FilterQuality::Medium), "medium");
    assert_eq!(from_filter_quality(FilterQuality::High), "high");
}

#[test]
fn text_align_and_direction_names() {
    assert_eq!(to_text_align("left"), Some(TextAlign::Left));
    assert_eq!(to_text_align("RIGHT"), Some(TextAlign::Right));
    assert_eq!(to_text_align("center"), Some(TextAlign::Center));
    assert_eq!(to_text_align("start"), Some(TextAlign::Start));
    assert_eq!(to_text_align("end"), Some(TextAlign::End));
    assert_eq!(to_text_align("justify"), None);
    assert_eq!(from_text_align(TextAlign::Justify), "justify");
    assert_eq!(from_text_align(TextAlign::End), "end");
    assert_eq!(to_text_direction("RTL"), Some(TextDirection::Rtl));
    assert_eq!(to_text_direction("ltr"), Some(TextDirection::Ltr));
    assert_eq!(to_text_direction("auto"), None);
    assert_eq!(from_text_direction(TextDirection::Rtl), "rtl");
}

#[test]
fn stroke_names() {
    assert_eq!(to_stroke_cap("butt"), Some(StrokeCap::Butt));
    assert_eq!(to_stroke_cap("Square"), Some(StrokeCap::Square));
    assert_eq!(to_stroke_cap("flat"), None);
    assert_eq!(from_stroke_cap(StrokeCap::Round), "round");
    assert_eq!(to_stroke_join("MITER"), Some(StrokeJoin::Miter));
    assert_eq!(to_stroke_join("bevel"), Some(StrokeJoin::Bevel));
    assert_eq!(to_stroke_join("sharp"), None);
    assert_eq!(from_stroke_join(StrokeJoin::Round), "round");
    assert_eq!(to_1d_style("move"), Some(DashStyle::Translate));
    assert_eq!(to_1d_style("Turn"), Some(DashStyle::Rotate));
    assert_eq!(to_1d_style("follow"), Some(DashStyle::Morph));
    assert_eq!(to_1d_style("slide"), None);
    assert_eq!(from_1d_style(DashStyle::Morph), "follow");
}

#[test]
fn blend_mode_names() {
    let names = [
        "source-over", "destination-over", "copy", "destination", "clear", "source-in",
        "destination-in", "source-out", "destination-out", "source-atop", "destination-atop",
        "xor", "lighter", "multiply", "screen", "overlay", "darken", "lighten", "color-dodge",
        "color-burn", "hard-light", "soft-light", "difference", "exclusion", "hue",
        "saturation", "color", "luminosity",
    ];
    for name in names {
        let mode = to_blend_mode(name).unwrap();
        assert_eq!(from_blend_mode(mode), name);
        assert_eq!(to_blend_mode(&name.to_uppercase()), Some(mode));
    }
    assert_eq!(to_blend_mode("copy"), Some(BlendMode::Src));
    assert_eq!(to_blend_mode("lighter"), Some(BlendMode::Plus));
    assert_eq!(to_blend_mode("plus"), None);
}

#[test]
fn path_op_and_fill_rule_names() {
    assert_eq!(to_path_op("difference"), Some(PathOp::Difference));
    assert_eq!(to_path_op("Intersect"), Some(PathOp::Intersect));
    assert_eq!(to_path_op("UNION"), Some(PathOp::Union));
    assert_eq!(to_path_op("xor"), Some(PathOp::Xor));
    assert_eq!(to_path_op("ReverseDifference"), Some(PathOp::ReverseDifference));
    assert_eq!(to_path_op("complement"), Some(PathOp::ReverseDifference));
    assert_eq!(to_path_op("subtract"), None);
    assert_eq!(fill_rule_from_string("nonzero"), Some(FillRule::Winding));
    assert_eq!(fill_rule_from_string("evenodd"), Some(FillRule::EvenOdd));
    assert_eq!(fill_rule_from_string("EvenOdd"), None);
}

#[test]
fn repeat_names() {
    assert_eq!(to_repeat_mode("repeat"), Some((TileMode::Repeat, TileMode::Repeat)));
    assert_eq!(to_repeat_mode(""), Some((TileMode::Repeat, TileMode::Repeat)));
    assert_eq!(to_repeat_mode("Repeat-X"), Some((TileMode::Repeat, TileMode::Decal)));
    assert_eq!(to_repeat_mode("repeat-y"), Some((TileMode::Decal, TileMode::Repeat)));
    assert_eq!(to_repeat_mode("no-repeat"), Some((TileMode::Decal, TileMode::Decal)));
    assert_eq!(to_repeat_mode("repeat-z"), None);
}

#[test]
fn font_style_names() {
    assert_eq!(to_slant("italic"), Slant::Italic);
    assert_eq!(to_slant("OBLIQUE"), Slant::Oblique);
    assert_eq!(to_slant("normal"), Slant::Upright);
    assert_eq!(to_slant("slanted"), Slant::Upright);
    assert_eq!(from_slant(Slant::Upright), "normal");
    assert_eq!(from_slant(Slant::Italic), "italic");
    assert_eq!(to_width("condensed"), FontWidth::Condensed);
    assert_eq!(to_width("Ultra-Expanded"), FontWidth::UltraExpanded);
    assert_eq!(to_width("wide"), FontWidth::Normal);
    assert_eq!(from_width(FontWidth::SemiCondensed), "semi-condensed");
    assert_eq!(from_width(FontWidth::Normal), "normal");
}

use canvas_wasm::keywords::{baseline_from_lowercase, blend_mode_from_lowercase, repeat_mode_from_lowercase};

#[test]
fn lowercase_matchers_are_exact() {
    assert_eq!(baseline_from_lowercase("top"), Some(Baseline::Top));
    assert_eq!(baseline_from_lowercase("TOP"), None);
    assert_eq!(blend_mode_from_lowercase("copy"), Some(BlendMode::Src));
    assert_eq!(blend_mode_from_lowercase("Copy"), None);
    assert_eq!(repeat_mode_from_lowercase("no-repeat"), Some((TileMode::Decal, TileMode::Decal)));
    assert_eq!(repeat_mode_from_lowercase("No-Repeat"), None);
}
