use canvas_wasm::keywords::{TextAlign, TextDirection};
use canvas_wasm::text::{
    arg_num, font_features, get_alignment_factor, layout_text, string_idx_range,
    typeface_wght_range, VariationAxis, WGHT_TAG,
};

#[test]
fn alignment_factor_left_center_right() {
    let f = |d, a| -(get_alignment_factor(d, a) as f32) / 2.0;
    assert_eq!(f(TextDirection::Ltr, TextAlign::Left), 0.0);
    assert_eq!(f(TextDirection::Ltr, TextAlign::Center), -0.5);
    assert_eq!(f(TextDirection::Ltr, TextAlign::Right), -1.0);
    assert_eq!(f(TextDirection::Ltr, TextAlign::Start), 0.0);
    assert_eq!(f(TextDirection::Ltr, TextAlign::End), -1.0);
    assert_eq!(f(TextDirection::Rtl, TextAlign::Left), 0.0);
    assert_eq!(f(TextDirection::Rtl, TextAlign::Center), -0.5);
    assert_eq!(f(TextDirection::Rtl, TextAlign::Right), -1.0);
    assert_eq!(f(TextDirection::Rtl, TextAlign::Start), -1.0);
    assert_eq!(f(TextDirection::Rtl, TextAlign::End), 0.0);
}

#[test]
fn byte_offsets_become_char_indices() {
    let text = "h\u{e9}llo w\u{f6}rld";
    // h=0 é=1..3 l=3 l=4 o=5 ' '=6 w=7 ö=8..10 r=10 l=11 d=12
    assert_eq!(string_idx_range(text, 0, 3), 0..2);
    assert_eq!(string_idx_range(text, 3, 7), 2..6);
    assert_eq!(string_idx_range(text, 7, 13), 6..11);
    assert_eq!(string_idx_range(text, 7, 100), 6..11);
    assert_eq!(string_idx_range("", 0, 5), 0..0);
    assert_eq!(string_idx_range("abc", 1, 2), 1..2);
    assert_eq!(string_idx_range("\u{1f600}x", 4, 5), 1..2);
}

#[test]
fn ordinals() {
    assert_eq!(arg_num(0), "0th");
    assert_eq!(arg_num(1), "1st");
    assert_eq!(arg_num(2), "2nd");
    assert_eq!(arg_num(3), "3rd");
    assert_eq!(arg_num(4), "4th");
    assert_eq!(arg_num(11), "11th");
    assert_eq!(arg_num(12), "12th");
    assert_eq!(arg_num(13), "13th");
    assert_eq!(arg_num(15), "15th");
    assert_eq!(arg_num(21), "21st");
    assert_eq!(arg_num(102), "102nd");
    assert_eq!(arg_num(111), "111th");
    assert_eq!(arg_num(123), "123rd");
}

#[test]
fn single_line_layout_replaces_newlines() {
    assert_eq!(layout_text("one\ntwo\nthree", false), "one two three");
    assert_eq!(layout_text("one\ntwo", true), "one\ntwo");
    assert_eq!(layout_text("", false), "");
}

#[test]
fn font_feature_values() {
    let entries = vec![
        ("liga".to_string(), "on".to_string()),
        ("kern".to_string(), "off".to_string()),
        ("ss01".to_string(), "3".to_string()),
        ("bad".to_string(), "maybe".to_string()),
        ("cv02".to_string(), "-2".to_string()),
        ("huge".to_string(), "99999999999".to_string()),
        ("sign".to_string(), "+7".to_string()),
        ("empty".to_string(), "".to_string()),
    ];
    let features = font_features(&entries);
    assert_eq!(
        features,
        vec![
            ("liga".to_string(), 1),
            ("kern".to_string(), 0),
            ("ss01".to_string(), 3),
            ("cv02".to_string(), -2),
            ("sign".to_string(), 7),
        ]
    );
}

#[test]
fn weight_axis_lists_hundreds() {
    let axes = vec![VariationAxis { tag: WGHT_TAG, min: 100, max: 900 }];
    assert_eq!(typeface_wght_range(&axes), vec![100, 200, 300, 400, 500, 600, 700, 800, 900]);
    let axes = vec![VariationAxis { tag: WGHT_TAG, min: 150, max: 850 }];
    assert_eq!(
        typeface_wght_range(&axes),
        vec![150, 200, 300, 400, 500, 600, 700, 800, 850]
    );
}

#[test]
fn other_axes_list_nothing() {
    let wdth = u32::from_be_bytes(*b"wdth");
    assert_eq!(u32::from_be_bytes(*b"wght"), WGHT_TAG);
    let axes = vec![VariationAxis { tag: wdth, min: 50, max: 200 }];
    assert_eq!(typeface_wght_range(&axes), Vec::<i32>::new());
    assert_eq!(typeface_wght_range(&vec![]), Vec::<i32>::new());
    let axes = vec![
        VariationAxis { tag: wdth, min: 50, max: 200 },
        VariationAxis { tag: WGHT_TAG, min: 300, max: 300 },
    ];
    assert_eq!(typeface_wght_range(&axes), vec![300]);
}
