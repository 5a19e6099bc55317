//! The keywords of the canvas style properties, each with its parser and
//! its printer.
use vstd::prelude::*;
use crate::strings::{lower_of, lowercase, str_eq};

verus! {

/// Where the text's vertical anchor sits.
#[derive(Clone, Copy, Debug, PartialEq, Eq, Hash, Structural)]
pub enum Baseline {
    Top,
    Hanging,
    Middle,
    Alphabetic,
    Ideographic,
    Bottom,
}

/// The value that a keyword names, once its case is settled.
pub open spec fn baseline_named(s: Seq<char>) -> Option<Baseline> {
    if s == "top"@ {
        Some(Baseline::Top)
    } else if s == "hanging"@ {
        Some(Baseline::Hanging)
    } else if s == "middle"@ {
        Some(Baseline::Middle)
    } else if s == "alphabetic"@ {
        Some(Baseline::Alphabetic)
    } else if s == "ideographic"@ {
        Some(Baseline::Ideographic)
    } else if s == "bottom"@ {
        Some(Baseline::Bottom)
    } else {
        None
    }
}

/// Matches a keyword already in lowercase.
pub fn baseline_from_lowercase(s: &str) -> (r: Option<Baseline>)
    ensures
        r == baseline_named(s@),
{
    if str_eq(s, "top") {
        Some(Baseline::Top)
    } else if str_eq(s, "hanging") {
        Some(Baseline::Hanging)
    } else if str_eq(s, "middle") {
        Some(Baseline::Middle)
    } else if str_eq(s, "alphabetic") {
        Some(Baseline::Alphabetic)
    } else if str_eq(s, "ideographic") {
        Some(Baseline::Ideographic)
    } else if str_eq(s, "bottom") {
        Some(Baseline::Bottom)
    } else {
        None
    }
}

/// Parses a `textBaseline` keyword, ignoring case.
pub fn to_text_baseline(mode_name: &str) -> (r: Option<Baseline>)
    ensures
        r == baseline_named(lower_of(mode_name@)),
{
    baseline_from_lowercase(lowercase(mode_name).as_str())
}

/// The keyword printed for each value.
pub open spec fn baseline_name(mode: Baseline) -> Seq<char> {
    match mode {
        Baseline::Top => "top"@,
        Baseline::Hanging => "hanging"@,
        Baseline::Middle => "middle"@,
        Baseline::Alphabetic => "alphabetic"@,
        Baseline::Ideographic => "ideographic"@,
        Baseline::Bottom => "bottom"@,
    }
}

/// The `textBaseline` keyword of a baseline.
pub fn from_text_baseline(mode: Baseline) -> (r: String)
    ensures
        r@ == baseline_name(mode),
{
    match mode {
        Baseline::Top => String::from_str("top"),
        Baseline::Hanging => String::from_str("hanging"),
        Baseline::Middle => String::from_str("middle"),
        Baseline::Alphabetic => String::from_str("alphabetic"),
        Baseline::Ideographic => String::from_str("ideographic"),
        Baseline::Bottom => String::from_str("bottom"),
    }
}

/// The sampling quality used when images are scaled.
#[derive(Clone, Copy, Debug, PartialEq, Eq, Hash, Structural)]
pub enum FilterQuality {
    Off,
    Low,
    Medium,
    High,
}

/// The value that a keyword names, once its case is settled.
pub open spec fn filter_quality_named(s: Seq<char>) -> Option<FilterQuality> {
    if s == "low"@ {
        Some(FilterQuality::Low)
    } else if s == "medium"@ {
        Some(FilterQuality::Medium)
    } else if s == "high"@ {
        Some(FilterQuality::High)
    } else {
        None
    }
}

/// Matches a keyword already in lowercase.
pub fn filter_quality_from_lowercase(s: &str) -> (r: Option<FilterQuality>)
    ensures
        r == filter_quality_named(s@),
{
    if str_eq(s, "low") {
        Some(FilterQuality::Low)
    } else if str_eq(s, "medium") {
        Some(FilterQuality::Medium)
    } else if str_eq(s, "high") {
        Some(FilterQuality::High)
    } else {
        None
    }
}

/// Parses an `imageSmoothingQuality` keyword, ignoring case.
pub fn to_filter_quality(mode_name: &str) -> (r: Option<FilterQuality>)
    ensures
        r == filter_quality_named(lower_of(mode_name@)),
{
    filter_quality_from_lowercase(lowercase(mode_name).as_str())
}

/// The keyword printed for each value.
pub open spec fn filter_quality_name(mode: FilterQuality) -> Seq<char> {
    match mode {
        FilterQuality::Off => "low"@,
        FilterQuality::Low => "low"@,
        FilterQuality::Medium => "medium"@,
        FilterQuality::High => "high"@,
    }
}

/// The `imageSmoothingQuality` keyword of a quality; no smoothing reads as `low`.
pub fn from_filter_quality(mode: FilterQuality) -> (r: String)
    ensures
        r@ == filter_quality_name(mode),
{
    match mode {
        FilterQuality::Off => String::from_str("low"),
        FilterQuality::Low => String::from_str("low"),
        FilterQuality::Medium => String::from_str("medium"),
        FilterQuality::High => String::from_str("high"),
    }
}

/// The horizontal anchor of a line of text.
#[derive(Clone, Copy, Debug, PartialEq, Eq, Hash, Structural)]
pub enum TextAlign {
    Left,
    Right,
    Center,
    Justify,
    Start,
    End,
}

/// The value that a keyword names, once its case is settled.
pub open spec fn text_align_named(s: Seq<char>) -> Option<TextAlign> {
    if s == "left"@ {
        Some(TextAlign::Left)
    } else if s == "right"@ {
        Some(TextAlign::Right)
    } else if s == "center"@ {
        Some(TextAlign::Center)
    } else if s == "start"@ {
        Some(TextAlign::Start)
    } else if s == "end"@ {
        Some(TextAlign::End)
    } else {
        None
    }
}

/// Matches a keyword already in lowercase.
pub fn text_align_from_lowercase(s: &str) -> (r: Option<TextAlign>)
    ensures
        r == text_align_named(s@),
{
    if str_eq(s, "left") {
        Some(TextAlign::Left)
    } else if str_eq(s, "right") {
        Some(TextAlign::Right)
    } else if str_eq(s, "center") {
        Some(TextAlign::Center)
    } else if str_eq(s, "start") {
        Some(TextAlign::Start)
    } else if str_eq(s, "end") {
        Some(TextAlign::End)
    } else {
        None
    }
}

/// Parses a `textAlign` keyword, ignoring case (`justify` is not offered).
pub fn to_text_align(mode_name: &str) -> (r: Option<TextAlign>)
    ensures
        r == text_align_named(lower_of(mode_name@)),
{
    text_align_from_lowercase(lowercase(mode_name).as_str())
}

/// The keyword printed for each value.
pub open spec fn text_align_name(mode: TextAlign) -> Seq<char> {
    match mode {
        TextAlign::Left => "left"@,
        TextAlign::Right => "right"@,
        TextAlign::Center => "center"@,
        TextAlign::Justify => "justify"@,
        TextAlign::Start => "start"@,
        TextAlign::End => "end"@,
    }
}

/// The `textAlign` keyword of an alignment.
pub fn from_text_align(mode: TextAlign) -> (r: String)
    ensures
        r@ == text_align_name(mode),
{
    match mode {
        TextAlign::Left => String::from_str("left"),
        TextAlign::Right => String::from_str("right"),
        TextAlign::Center => String::from_str("center"),
        TextAlign::Justify => String::from_str("justify"),
        TextAlign::Start => String::from_str("start"),
        TextAlign::End => String::from_str("end"),
    }
}

/// The writing direction of a paragraph.
#[derive(Clone, Copy, Debug, PartialEq, Eq, Hash, Structural)]
pub enum TextDirection {
    Ltr,
    Rtl,
}

/// The value that a keyword names, once its case is settled.
pub open spec fn text_direction_named(s: Seq<char>) -> Option<TextDirection> {
    if s == "ltr"@ {
        Some(TextDirection::Ltr)
    } else if s == "rtl"@ {
        Some(TextDirection::Rtl)
    } else {
        None
    }
}

/// Matches a keyword already in lowercase.
pub fn text_direction_from_lowercase(s: &str) -> (r: Option<TextDirection>)
    ensures
        r == text_direction_named(s@),
{
    if str_eq(s, "ltr") {
        Some(TextDirection::Ltr)
    } else if str_eq(s, "rtl") {
        Some(TextDirection::Rtl)
    } else {
        None
    }
}

/// Parses a `direction` keyword, ignoring case.
pub fn to_text_direction(mode_name: &str) -> (r: Option<TextDirection>)
    ensures
        r == text_direction_named(lower_of(mode_name@)),
{
    text_direction_from_lowercase(lowercase(mode_name).as_str())
}

/// The keyword printed for each value.
pub open spec fn text_direction_name(mode: TextDirection) -> Seq<char> {
    match mode {
        TextDirection::Ltr => "ltr"@,
        TextDirection::Rtl => "rtl"@,
    }
}

/// The `direction` keyword of a writing direction.
pub fn from_text_direction(mode: TextDirection) -> (r: String)
    ensures
        r@ == text_direction_name(mode),
{
    match mode {
        TextDirection::Ltr => String::from_str("ltr"),
        TextDirection::Rtl => String::from_str("rtl"),
    }
}

/// The shape drawn at the open ends of a stroke.
#[derive(Clone, Copy, Debug, PartialEq, Eq, Hash, Structural)]
pub enum StrokeCap {
    Butt,
    Round,
    Square,
}

/// The value that a keyword names, once its case is settled.
pub open spec fn stroke_cap_named(s: Seq<char>) -> Option<StrokeCap> {
    if s == "butt"@ {
        Some(StrokeCap::Butt)
    } else if s == "round"@ {
        Some(StrokeCap::Round)
    } else if s == "square"@ {
        Some(StrokeCap::Square)
    } else {
        None
    }
}

/// Matches a keyword already in lowercase.
pub fn stroke_cap_from_lowercase(s: &str) -> (r: Option<StrokeCap>)
    ensures
        r == stroke_cap_named(s@),
{
    if str_eq(s, "butt") {
        Some(StrokeCap::Butt)
    } else if str_eq(s, "round") {
        Some(StrokeCap::Round)
    } else if str_eq(s, "square") {
        Some(StrokeCap::Square)
    } else {
        None
    }
}

/// Parses a `lineCap` keyword, ignoring case.
pub fn to_stroke_cap(mode_name: &str) -> (r: Option<StrokeCap>)
    ensures
        r == stroke_cap_named(lower_of(mode_name@)),
{
    stroke_cap_from_lowercase(lowercase(mode_name).as_str())
}

/// The keyword printed for each value.
pub open spec fn stroke_cap_name(mode: StrokeCap) -> Seq<char> {
    match mode {
        StrokeCap::Butt => "butt"@,
        StrokeCap::Round => "round"@,
        StrokeCap::Square => "square"@,
    }
}

/// The `lineCap` keyword of a cap.
pub fn from_stroke_cap(mode: StrokeCap) -> (r: String)
    ensures
        r@ == stroke_cap_name(mode),
{
    match mode {
        StrokeCap::Butt => String::from_str("butt"),
        StrokeCap::Round => String::from_str("round"),
        StrokeCap::Square => String::from_str("square"),
    }
}

/// The shape drawn where two stroke segments meet.
#[derive(Clone, Copy, Debug, PartialEq, Eq, Hash, Structural)]
pub enum StrokeJoin {
    Miter,
    Round,
    Bevel,
}

/// The value that a keyword names, once its case is settled.
pub open spec fn stroke_join_named(s: Seq<char>) -> Option<StrokeJoin> {
    if s == "miter"@ {
        Some(StrokeJoin::Miter)
    } else if s == "round"@ {
        Some(StrokeJoin::Round)
    } else if s == "bevel"@ {
        Some(StrokeJoin::Bevel)
    } else {
        None
    }
}

/// Matches a keyword already in lowercase.
pub fn stroke_join_from_lowercase(s: &str) -> (r: Option<StrokeJoin>)
    ensures
        r == stroke_join_named(s@),
{
    if str_eq(s, "miter") {
        Some(StrokeJoin::Miter)
    } else if str_eq(s, "round") {
        Some(StrokeJoin::Round)
    } else if str_eq(s, "bevel") {
        Some(StrokeJoin::Bevel)
    } else {
        None
    }
}

/// Parses a `lineJoin` keyword, ignoring case.
pub fn to_stroke_join(mode_name: &str) -> (r: Option<StrokeJoin>)
    ensures
        r == stroke_join_named(lower_of(mode_name@)),
{
    stroke_join_from_lowercase(lowercase(mode_name).as_str())
}

/// The keyword printed for each value.
pub open spec fn stroke_join_name(mode: StrokeJoin) -> Seq<char> {
    match mode {
        StrokeJoin::Miter => "miter"@,
        StrokeJoin::Round => "round"@,
        StrokeJoin::Bevel => "bevel"@,
    }
}

/// The `lineJoin` keyword of a join.
pub fn from_stroke_join(mode: StrokeJoin) -> (r: String)
    ensures
        r@ == stroke_join_name(mode),
{
    match mode {
        StrokeJoin::Miter => String::from_str("miter"),
        StrokeJoin::Round => String::from_str("round"),
        StrokeJoin::Bevel => String::from_str("bevel"),
    }
}

/// How new drawing is composited onto what is already there.
#[derive(Clone, Copy, Debug, PartialEq, Eq, Hash, Structural)]
pub enum BlendMode {
    SrcOver,
    DstOver,
    Src,
    Dst,
    Clear,
    SrcIn,
    DstIn,
    SrcOut,
    DstOut,
    SrcATop,
    DstATop,
    Xor,
    Plus,
    Multiply,
    Screen,
    Overlay,
    Darken,
    Lighten,
    ColorDodge,
    ColorBurn,
    HardLight,
    SoftLight,
    Difference,
    Exclusion,
    Hue,
    Saturation,
    Color,
    Luminosity,
}

/// The value that a keyword names, once its case is settled.
pub open spec fn blend_mode_named(s: Seq<char>) -> Option<BlendMode> {
    if s == "source-over"@ {
        Some(BlendMode::SrcOver)
    } else if s == "destination-over"@ {
        Some(BlendMode::DstOver)
    } else if s == "copy"@ {
        Some(BlendMode::Src)
    } else if s == "destination"@ {
        Some(BlendMode::Dst)
    } else if s == "clear"@ {
        Some(BlendMode::Clear)
    } else if s == "source-in"@ {
        Some(BlendMode::SrcIn)
    } else if s == "destination-in"@ {
        Some(BlendMode::DstIn)
    } else if s == "source-out"@ {
        Some(BlendMode::SrcOut)
    } else if s == "destination-out"@ {
        Some(BlendMode::DstOut)
    } else if s == "source-atop"@ {
        Some(BlendMode::SrcATop)
    } else if s == "destination-atop"@ {
        Some(BlendMode::DstATop)
    } else if s == "xor"@ {
        Some(BlendMode::Xor)
    } else if s == "lighter"@ {
        Some(BlendMode::Plus)
    } else if s == "multiply"@ {
        Some(BlendMode::Multiply)
    } else if s == "screen"@ {
        Some(BlendMode::Screen)
    } else if s == "overlay"@ {
        Some(BlendMode::Overlay)
    } else if s == "darken"@ {
        Some(BlendMode::Darken)
    } else if s == "lighten"@ {
        Some(BlendMode::Lighten)
    } else if s == "color-dodge"@ {
        Some(BlendMode::ColorDodge)
    } else if s == "color-burn"@ {
        Some(BlendMode::ColorBurn)
    } else if s == "hard-light"@ {
        Some(BlendMode::HardLight)
    } else if s == "soft-light"@ {
        Some(BlendMode::SoftLight)
    } else if s == "difference"@ {
        Some(BlendMode::Difference)
    } else if s == "exclusion"@ {
        Some(BlendMode::Exclusion)
    } else if s == "hue"@ {
        Some(BlendMode::Hue)
    } else if s == "saturation"@ {
        Some(BlendMode::Saturation)
    } else if s == "color"@ {
        Some(BlendMode::Color)
    } else if s == "luminosity"@ {
        Some(BlendMode::Luminosity)
    } else {
        None
    }
}

/// Matches a keyword already in lowercase.
pub fn blend_mode_from_lowercase(s: &str) -> (r: Option<BlendMode>)
    ensures
        r == blend_mode_named(s@),
{
    if str_eq(s, "source-over") {
        Some(BlendMode::SrcOver)
    } else if str_eq(s, "destination-over") {
        Some(BlendMode::DstOver)
    } else if str_eq(s, "copy") {
        Some(BlendMode::Src)
    } else if str_eq(s, "destination") {
        Some(BlendMode::Dst)
    } else if str_eq(s, "clear") {
        Some(BlendMode::Clear)
    } else if str_eq(s, "source-in") {
        Some(BlendMode::SrcIn)
    } else if str_eq(s, "destination-in") {
        Some(BlendMode::DstIn)
    } else if str_eq(s, "source-out") {
        Some(BlendMode::SrcOut)
    } else if str_eq(s, "destination-out") {
        Some(BlendMode::DstOut)
    } else if str_eq(s, "source-atop") {
        Some(BlendMode::SrcATop)
    } else if str_eq(s, "destination-atop") {
        Some(BlendMode::DstATop)
    } else if str_eq(s, "xor") {
        Some(BlendMode::Xor)
    } else if str_eq(s, "lighter") {
        Some(BlendMode::Plus)
    } else if str_eq(s, "multiply") {
        Some(BlendMode::Multiply)
    } else if str_eq(s, "screen") {
        Some(BlendMode::Screen)
    } else if str_eq(s, "overlay") {
        Some(BlendMode::Overlay)
    } else if str_eq(s, "darken") {
        Some(BlendMode::Darken)
    } else if str_eq(s, "lighten") {
        Some(BlendMode::Lighten)
    } else if str_eq(s, "color-dodge") {
        Some(BlendMode::ColorDodge)
    } else if str_eq(s, "color-burn") {
        Some(BlendMode::ColorBurn)
    } else if str_eq(s, "hard-light") {
        Some(BlendMode::HardLight)
    } else if str_eq(s, "soft-light") {
        Some(BlendMode::SoftLight)
    } else if str_eq(s, "difference") {
        Some(BlendMode::Difference)
    } else if str_eq(s, "exclusion") {
        Some(BlendMode::Exclusion)
    } else if str_eq(s, "hue") {
        Some(BlendMode::Hue)
    } else if str_eq(s, "saturation") {
        Some(BlendMode::Saturation)
    } else if str_eq(s, "color") {
        Some(BlendMode::Color)
    } else if str_eq(s, "luminosity") {
        Some(BlendMode::Luminosity)
    } else {
        None
    }
}

/// Parses a `globalCompositeOperation` keyword, ignoring case.
pub fn to_blend_mode(mode_name: &str) -> (r: Option<BlendMode>)
    ensures
        r == blend_mode_named(lower_of(mode_name@)),
{
    blend_mode_from_lowercase(lowercase(mode_name).as_str())
}

/// The keyword printed for each value.
pub open spec fn blend_mode_name(mode: BlendMode) -> Seq<char> {
    match mode {
        BlendMode::SrcOver => "source-over"@,
        BlendMode::DstOver => "destination-over"@,
        BlendMode::Src => "copy"@,
        BlendMode::Dst => "destination"@,
        BlendMode::Clear => "clear"@,
        BlendMode::SrcIn => "source-in"@,
        BlendMode::DstIn => "destination-in"@,
        BlendMode::SrcOut => "source-out"@,
        BlendMode::DstOut => "destination-out"@,
        BlendMode::SrcATop => "source-atop"@,
        BlendMode::DstATop => "destination-atop"@,
        BlendMode::Xor => "xor"@,
        BlendMode::Plus => "lighter"@,
        BlendMode::Multiply => "multiply"@,
        BlendMode::Screen => "screen"@,
        BlendMode::Overlay => "overlay"@,
        BlendMode::Darken => "darken"@,
        BlendMode::Lighten => "lighten"@,
        BlendMode::ColorDodge => "color-dodge"@,
        BlendMode::ColorBurn => "color-burn"@,
        BlendMode::HardLight => "hard-light"@,
        BlendMode::SoftLight => "soft-light"@,
        BlendMode::Difference => "difference"@,
        BlendMode::Exclusion => "exclusion"@,
        BlendMode::Hue => "hue"@,
        BlendMode::Saturation => "saturation"@,
        BlendMode::Color => "color"@,
        BlendMode::Luminosity => "luminosity"@,
    }
}

/// The `globalCompositeOperation` keyword of a blend mode.
pub fn from_blend_mode(mode: BlendMode) -> (r: String)
    ensures
        r@ == blend_mode_name(mode),
{
    match mode {
        BlendMode::SrcOver => String::from_str("source-over"),
        BlendMode::DstOver => String::from_str("destination-over"),
        BlendMode::Src => String::from_str("copy"),
        BlendMode::Dst => String::from_str("destination"),
        BlendMode::Clear => String::from_str("clear"),
        BlendMode::SrcIn => String::from_str("source-in"),
        BlendMode::DstIn => String::from_str("destination-in"),
        BlendMode::SrcOut => String::from_str("source-out"),
        BlendMode::DstOut => String::from_str("destination-out"),
        BlendMode::SrcATop => String::from_str("source-atop"),
        BlendMode::DstATop => String::from_str("destination-atop"),
        BlendMode::Xor => String::from_str("xor"),
        BlendMode::Plus => String::from_str("lighter"),
        BlendMode::Multiply => String::from_str("multiply"),
        BlendMode::Screen => String::from_str("screen"),
        BlendMode::Overlay => String::from_str("overlay"),
        BlendMode::Darken => String::from_str("darken"),
        BlendMode::Lighten => String::from_str("lighten"),
        BlendMode::ColorDodge => String::from_str("color-dodge"),
        BlendMode::ColorBurn => String::from_str("color-burn"),
        BlendMode::HardLight => String::from_str("hard-light"),
        BlendMode::SoftLight => String::from_str("soft-light"),
        BlendMode::Difference => String::from_str("difference"),
        BlendMode::Exclusion => String::from_str("exclusion"),
        BlendMode::Hue => String::from_str("hue"),
        BlendMode::Saturation => String::from_str("saturation"),
        BlendMode::Color => String::from_str("color"),
        BlendMode::Luminosity => String::from_str("luminosity"),
    }
}

/// A boolean operation combining two paths.
#[derive(Clone, Copy, Debug, PartialEq, Eq, Hash, Structural)]
pub enum PathOp {
    Difference,
    Intersect,
    Union,
    Xor,
    ReverseDifference,
}

/// The value that a keyword names, once its case is settled.
pub open spec fn path_op_named(s: Seq<char>) -> Option<PathOp> {
    if s == "difference"@ {
        Some(PathOp::Difference)
    } else if s == "intersect"@ {
        Some(PathOp::Intersect)
    } else if s == "union"@ {
        Some(PathOp::Union)
    } else if s == "xor"@ {
        Some(PathOp::Xor)
    } else if s == "reversedifference"@ {
        Some(PathOp::ReverseDifference)
    } else if s == "complement"@ {
        Some(PathOp::ReverseDifference)
    } else {
        None
    }
}

/// Matches a keyword already in lowercase.
pub fn path_op_from_lowercase(s: &str) -> (r: Option<PathOp>)
    ensures
        r == path_op_named(s@),
{
    if str_eq(s, "difference") {
        Some(PathOp::Difference)
    } else if str_eq(s, "intersect") {
        Some(PathOp::Intersect)
    } else if str_eq(s, "union") {
        Some(PathOp::Union)
    } else if str_eq(s, "xor") {
        Some(PathOp::Xor)
    } else if str_eq(s, "reversedifference") {
        Some(PathOp::ReverseDifference)
    } else if str_eq(s, "complement") {
        Some(PathOp::ReverseDifference)
    } else {
        None
    }
}

/// Parses a path operation name, ignoring case; `complement` is a second name of the reverse difference.
pub fn to_path_op(mode_name: &str) -> (r: Option<PathOp>)
    ensures
        r == path_op_named(lower_of(mode_name@)),
{
    path_op_from_lowercase(lowercase(mode_name).as_str())
}

/// How a dash marker follows the stroked path.
#[derive(Clone, Copy, Debug, PartialEq, Eq, Hash, Structural)]
pub enum DashStyle {
    Translate,
    Rotate,
    Morph,
}

/// The value that a keyword names, once its case is settled.
pub open spec fn dash_style_named(s: Seq<char>) -> Option<DashStyle> {
    if s == "move"@ {
        Some(DashStyle::Translate)
    } else if s == "turn"@ {
        Some(DashStyle::Rotate)
    } else if s == "follow"@ {
        Some(DashStyle::Morph)
    } else {
        None
    }
}

/// Matches a keyword already in lowercase.
pub fn dash_style_from_lowercase(s: &str) -> (r: Option<DashStyle>)
    ensures
        r == dash_style_named(s@),
{
    if str_eq(s, "move") {
        Some(DashStyle::Translate)
    } else if str_eq(s, "turn") {
        Some(DashStyle::Rotate)
    } else if str_eq(s, "follow") {
        Some(DashStyle::Morph)
    } else {
        None
    }
}

/// Parses a `lineDashFit` keyword, ignoring case.
pub fn to_1d_style(mode_name: &str) -> (r: Option<DashStyle>)
    ensures
        r == dash_style_named(lower_of(mode_name@)),
{
    dash_style_from_lowercase(lowercase(mode_name).as_str())
}

/// The keyword printed for each value.
pub open spec fn dash_style_name(mode: DashStyle) -> Seq<char> {
    match mode {
        DashStyle::Translate => "move"@,
        DashStyle::Rotate => "turn"@,
        DashStyle::Morph => "follow"@,
    }
}

/// The `lineDashFit` keyword of a dash style.
pub fn from_1d_style(mode: DashStyle) -> (r: String)
    ensures
        r@ == dash_style_name(mode),
{
    match mode {
        DashStyle::Translate => String::from_str("move"),
        DashStyle::Rotate => String::from_str("turn"),
        DashStyle::Morph => String::from_str("follow"),
    }
}

/// How self-overlapping regions of a path are filled.
#[derive(Clone, Copy, Debug, PartialEq, Eq, Hash, Structural)]
pub enum FillRule {
    Winding,
    EvenOdd,
}

/// The value that a keyword names, once its case is settled.
pub open spec fn fill_rule_named(s: Seq<char>) -> Option<FillRule> {
    if s == "nonzero"@ {
        Some(FillRule::Winding)
    } else if s == "evenodd"@ {
        Some(FillRule::EvenOdd)
    } else {
        None
    }
}

/// Parses a fill rule name; the match is exact.
pub fn fill_rule_from_string(s: &str) -> (r: Option<FillRule>)
    ensures
        r == fill_rule_named(s@),
{
    if str_eq(s, "nonzero") {
        Some(FillRule::Winding)
    } else if str_eq(s, "evenodd") {
        Some(FillRule::EvenOdd)
    } else {
        None
    }
}

/// The slant of a font face.
#[derive(Clone, Copy, Debug, PartialEq, Eq, Hash, Structural)]
pub enum Slant {
    Upright,
    Italic,
    Oblique,
}

/// The value that a keyword names, once its case is settled.
pub open spec fn slant_named(s: Seq<char>) -> Slant {
    if s == "italic"@ {
        Slant::Italic
    } else if s == "oblique"@ {
        Slant::Oblique
    } else {
        Slant::Upright
    }
}

/// Matches a keyword already in lowercase.
pub fn slant_from_lowercase(s: &str) -> (r: Slant)
    ensures
        r == slant_named(s@),
{
    if str_eq(s, "italic") {
        Slant::Italic
    } else if str_eq(s, "oblique") {
        Slant::Oblique
    } else {
        Slant::Upright
    }
}

/// Parses a font style keyword, ignoring case; anything else is upright.
pub fn to_slant(mode_name: &str) -> (r: Slant)
    ensures
        r == slant_named(lower_of(mode_name@)),
{
    slant_from_lowercase(lowercase(mode_name).as_str())
}

/// The keyword printed for each value.
pub open spec fn slant_name(mode: Slant) -> Seq<char> {
    match mode {
        Slant::Upright => "normal"@,
        Slant::Italic => "italic"@,
        Slant::Oblique => "oblique"@,
    }
}

/// The font style keyword of a slant.
pub fn from_slant(mode: Slant) -> (r: String)
    ensures
        r@ == slant_name(mode),
{
    match mode {
        Slant::Upright => String::from_str("normal"),
        Slant::Italic => String::from_str("italic"),
        Slant::Oblique => String::from_str("oblique"),
    }
}

/// The width (stretch) of a font face.
#[derive(Clone, Copy, Debug, PartialEq, Eq, Hash, Structural)]
pub enum FontWidth {
    UltraCondensed,
    ExtraCondensed,
    Condensed,
    SemiCondensed,
    Normal,
    SemiExpanded,
    Expanded,
    ExtraExpanded,
    UltraExpanded,
}

/// The value that a keyword names, once its case is settled.
pub open spec fn font_width_named(s: Seq<char>) -> FontWidth {
    if s == "ultra-condensed"@ {
        FontWidth::UltraCondensed
    } else if s == "extra-condensed"@ {
        FontWidth::ExtraCondensed
    } else if s == "condensed"@ {
        FontWidth::Condensed
    } else if s == "semi-condensed"@ {
        FontWidth::SemiCondensed
    } else if s == "semi-expanded"@ {
        FontWidth::SemiExpanded
    } else if s == "expanded"@ {
        FontWidth::Expanded
    } else if s == "extra-expanded"@ {
        FontWidth::ExtraExpanded
    } else if s == "ultra-expanded"@ {
        FontWidth::UltraExpanded
    } else {
        FontWidth::Normal
    }
}

/// Matches a keyword already in lowercase.
pub fn font_width_from_lowercase(s: &str) -> (r: FontWidth)
    ensures
        r == font_width_named(s@),
{
    if str_eq(s, "ultra-condensed") {
        FontWidth::UltraCondensed
    } else if str_eq(s, "extra-condensed") {
        FontWidth::ExtraCondensed
    } else if str_eq(s, "condensed") {
        FontWidth::Condensed
    } else if str_eq(s, "semi-condensed") {
        FontWidth::SemiCondensed
    } else if str_eq(s, "semi-expanded") {
        FontWidth::SemiExpanded
    } else if str_eq(s, "expanded") {
        FontWidth::Expanded
    } else if str_eq(s, "extra-expanded") {
        FontWidth::ExtraExpanded
    } else if str_eq(s, "ultra-expanded") {
        FontWidth::UltraExpanded
    } else {
        FontWidth::Normal
    }
}

/// Parses a font stretch keyword, ignoring case; anything else is normal.
pub fn to_width(mode_name: &str) -> (r: FontWidth)
    ensures
        r == font_width_named(lower_of(mode_name@)),
{
    font_width_from_lowercase(lowercase(mode_name).as_str())
}

/// The keyword printed for each value.
pub open spec fn font_width_name(mode: FontWidth) -> Seq<char> {
    match mode {
        FontWidth::UltraCondensed => "ultra-condensed"@,
        FontWidth::ExtraCondensed => "extra-condensed"@,
        FontWidth::Condensed => "condensed"@,
        FontWidth::SemiCondensed => "semi-condensed"@,
        FontWidth::Normal => "normal"@,
        FontWidth::SemiExpanded => "semi-expanded"@,
        FontWidth::Expanded => "expanded"@,
        FontWidth::ExtraExpanded => "extra-expanded"@,
        FontWidth::UltraExpanded => "ultra-expanded"@,
    }
}

/// The font stretch keyword of a width.
pub fn from_width(mode: FontWidth) -> (r: String)
    ensures
        r@ == font_width_name(mode),
{
    match mode {
        FontWidth::UltraCondensed => String::from_str("ultra-condensed"),
        FontWidth::ExtraCondensed => String::from_str("extra-condensed"),
        FontWidth::Condensed => String::from_str("condensed"),
        FontWidth::SemiCondensed => String::from_str("semi-condensed"),
        FontWidth::Normal => String::from_str("normal"),
        FontWidth::SemiExpanded => String::from_str("semi-expanded"),
        FontWidth::Expanded => String::from_str("expanded"),
        FontWidth::ExtraExpanded => String::from_str("extra-expanded"),
        FontWidth::UltraExpanded => String::from_str("ultra-expanded"),
    }
}

/// How a pattern fills the plane along one axis.
#[derive(Clone, Copy, Debug, PartialEq, Eq, Hash, Structural)]
pub enum TileMode {
    Repeat,
    Decal,
}

/// The tiling on the x and y axes that a repetition keyword names, once its
/// case is settled.
pub open spec fn repeat_mode_named(s: Seq<char>) -> Option<(TileMode, TileMode)> {
    if s == "repeat"@ || s == ""@ {
        Some((TileMode::Repeat, TileMode::Repeat))
    } else if s == "repeat-x"@ {
        Some((TileMode::Repeat, TileMode::Decal))
    } else if s == "repeat-y"@ {
        Some((TileMode::Decal, TileMode::Repeat))
    } else if s == "no-repeat"@ {
        Some((TileMode::Decal, TileMode::Decal))
    } else {
        None
    }
}

/// Matches a repetition keyword already in lowercase.
pub fn repeat_mode_from_lowercase(s: &str) -> (r: Option<(TileMode, TileMode)>)
    ensures
        r == repeat_mode_named(s@),
{
    if str_eq(s, "repeat") || str_eq(s, "") {
        Some((TileMode::Repeat, TileMode::Repeat))
    } else if str_eq(s, "repeat-x") {
        Some((TileMode::Repeat, TileMode::Decal))
    } else if str_eq(s, "repeat-y") {
        Some((TileMode::Decal, TileMode::Repeat))
    } else if str_eq(s, "no-repeat") {
        Some((TileMode::Decal, TileMode::Decal))
    } else {
        None
    }
}

/// Parses a pattern repetition keyword, ignoring case; the empty string
/// repeats both ways.
pub fn to_repeat_mode(repeat: &str) -> (r: Option<(TileMode, TileMode)>)
    ensures
        r == repeat_mode_named(lower_of(repeat@)),
{
    repeat_mode_from_lowercase(lowercase(repeat).as_str())
}

} // verus!
