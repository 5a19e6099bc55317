use canvas_wasm::geometry::{rect_direction, PathDirection};

fn dir(w: f32, h: f32) -> PathDirection {
    rect_direction(w.to_bits(), h.to_bits())
}

#[test]
fn same_sign_rect_is_clockwise() {
    assert_eq!(dir(10.0, 20.0), PathDirection::Clockwise);
    assert_eq!(dir(-10.0, -20.0), PathDirection::Clockwise);
    assert_eq!(dir(0.0, 5.0), PathDirection::Clockwise);
}

#[test]
fn opposite_sign_rect_is_counter_clockwise() {
    assert_eq!(dir(-10.0, 20.0), PathDirection::CounterClockwise);
    assert_eq!(dir(10.0, -20.0), PathDirection::CounterClockwise);
    assert_eq!(dir(-0.0, 5.0), PathDirection::CounterClockwise);
    assert_eq!(dir(f32::NAN, 5.0), PathDirection::CounterClockwise);
}

#[test]
fn direction_agrees_with_signum() {
    let vals = [1.0f32, -1.0, 0.0, -0.0, f32::INFINITY, f32::NEG_INFINITY, f32::NAN, 1e-40, -1e-40];
    for w in vals {
        for h in vals {
            let expected = if w.signum() == h.signum() {
                PathDirection::Clockwise
            } else {
                PathDirection::CounterClockwise
            };
            assert_eq!(dir(w, h), expected);
        }
    }
}

use canvas_wasm::geometry::{cutting_params, image_data_arity_ok, layout_rects, to_matrix, Xywh};

#[test]
fn draw_image_argument_counts() {
    let r = layout_rects(30.0f32, 20.0, 0.0, &vec![5.0, 6.0]).unwrap();
    assert_eq!(r.0, Xywh { x: 0.0, y: 0.0, w: 30.0, h: 20.0 });
    assert_eq!(r.1, Xywh { x: 5.0, y: 6.0, w: 30.0, h: 20.0 });
    let r = layout_rects(30.0f32, 20.0, 0.0, &vec![1.0, 2.0, 3.0, 4.0]).unwrap();
    assert_eq!(r.0, Xywh { x: 0.0, y: 0.0, w: 30.0, h: 20.0 });
    assert_eq!(r.1, Xywh { x: 1.0, y: 2.0, w: 3.0, h: 4.0 });
    let r = layout_rects(30.0f32, 20.0, 0.0, &vec![1.0, 2.0, 3.0, 4.0, 5.0, 6.0, 7.0, 8.0]).unwrap();
    assert_eq!(r.0, Xywh { x: 1.0, y: 2.0, w: 3.0, h: 4.0 });
    assert_eq!(r.1, Xywh { x: 5.0, y: 6.0, w: 7.0, h: 8.0 });
    assert_eq!(layout_rects(30.0f32, 20.0, 0.0, &vec![1.0, 2.0, 3.0]), None);
    assert_eq!(layout_rects(30.0f32, 20.0, 0.0, &vec![]), None);
}

#[test]
fn matrix_argument_counts() {
    let m = to_matrix(&vec![1, 2, 3, 4, 5, 6], 0, 1).unwrap();
    assert_eq!(m, vec![1, 2, 3, 4, 5, 6, 0, 0, 1]);
    let m = to_matrix(&vec![9, 8, 7, 6, 5, 4, 3, 2, 1], 0, 1).unwrap();
    assert_eq!(m, vec![9, 8, 7, 6, 5, 4, 3, 2, 1]);
    assert_eq!(to_matrix(&vec![1, 2, 3, 4], 0, 1), None);
}

#[test]
fn cutting_needs_seven_numbers() {
    let c = cutting_params(&vec![1.0f32, 2.0, 3.0, 4.0, 5.0, 600.0, 800.0]).unwrap();
    assert_eq!(c.source_offset, 1.0);
    assert_eq!(c.inset_top, 2.0);
    assert_eq!(c.inset_right, 3.0);
    assert_eq!(c.inset_bottom, 4.0);
    assert_eq!(c.inset_left, 5.0);
    assert_eq!(c.page_width, 600.0);
    assert_eq!(c.page_height, 800.0);
    assert!(cutting_params(&vec![1.0f32; 6]).is_none());
    assert!(cutting_params::<f32>(&vec![]).is_none());
}

#[test]
fn image_data_counts() {
    assert!(image_data_arity_ok(2));
    assert!(image_data_arity_ok(6));
    assert!(!image_data_arity_ok(0));
    assert!(!image_data_arity_ok(4));
    assert!(!image_data_arity_ok(7));
}
