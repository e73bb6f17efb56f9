use eww::screen::{ClipRect, ScissorRect, ScreenDescriptor};
use eww::units::Scalar;

fn screen(width: u32, height: u32, scale: f32) -> ScreenDescriptor {
    ScreenDescriptor {
        physical_width: width,
        physical_height: height,
        scale_factor: Scalar::from_bits(scale.to_bits()),
    }
}

fn clip(scale: f32, min: (f32, f32), max: (f32, f32)) -> ClipRect {
    ClipRect {
        min_x: (scale * min.0).round() as i64,
        min_y: (scale * min.1).round() as i64,
        max_x: (scale * max.0).round() as i64,
        max_y: (scale * max.1).round() as i64,
    }
}

#[test]
fn full_viewport_is_kept() {
    let s = screen(800, 600, 1.0);
    let r = s.scissor(&clip(1.0, (0.0, 0.0), (800.0, 600.0)));
    assert_eq!(r, Some(ScissorRect { x: 0, y: 0, width: 800, height: 600 }));
}

#[test]
fn scaled_rect_gives_physical_pixels() {
    let s = screen(1600, 1200, 2.0);
    let r = s.scissor(&clip(2.0, (100.0, 100.0), (200.0, 150.0)));
    assert_eq!(r, Some(ScissorRect { x: 200, y: 200, width: 200, height: 100 }));
}

#[test]
fn rect_reaching_beyond_the_target_is_cut() {
    let s = screen(800, 600, 1.0);
    let r = s.scissor(&ClipRect { min_x: -20, min_y: 550, max_x: 900, max_y: 700 });
    assert_eq!(r, Some(ScissorRect { x: 0, y: 550, width: 800, height: 50 }));
}

#[test]
fn rect_beyond_right_edge_is_skipped() {
    let s = screen(800, 600, 1.0);
    assert_eq!(s.scissor(&ClipRect { min_x: 800, min_y: 0, max_x: 900, max_y: 10 }), None);
    assert_eq!(s.scissor(&ClipRect { min_x: 5000, min_y: 0, max_x: 6000, max_y: 10 }), None);
}

#[test]
fn rect_beyond_bottom_edge_is_skipped() {
    let s = screen(800, 600, 1.0);
    assert_eq!(s.scissor(&ClipRect { min_x: 0, min_y: 600, max_x: 10, max_y: 700 }), None);
}

#[test]
fn rect_left_of_the_target_keeps_one_pixel() {
    let s = screen(800, 600, 1.0);
    let r = s.scissor(&ClipRect { min_x: -50, min_y: -50, max_x: -10, max_y: -10 });
    assert_eq!(r, Some(ScissorRect { x: 0, y: 0, width: 1, height: 1 }));
}

#[test]
fn empty_rect_is_raised_to_one_pixel() {
    let s = screen(800, 600, 1.0);
    let r = s.scissor(&ClipRect { min_x: 10, min_y: 20, max_x: 10, max_y: 20 });
    assert_eq!(r, Some(ScissorRect { x: 10, y: 20, width: 1, height: 1 }));
}

#[test]
fn corners_in_reverse_order_give_one_pixel() {
    let s = screen(800, 600, 1.0);
    let r = s.scissor(&ClipRect { min_x: 100, min_y: 100, max_x: 50, max_y: 50 });
    assert_eq!(r, Some(ScissorRect { x: 100, y: 100, width: 1, height: 1 }));
}

#[test]
fn target_without_pixels_draws_nothing() {
    let s = screen(0, 600, 1.0);
    assert_eq!(s.scissor(&ClipRect { min_x: 0, min_y: 0, max_x: 10, max_y: 10 }), None);
    let s = screen(800, 0, 1.0);
    assert_eq!(s.scissor(&ClipRect { min_x: -5, min_y: -5, max_x: 10, max_y: 10 }), None);
}

#[test]
fn extreme_corners_stay_inside() {
    let s = screen(u32::MAX, u32::MAX, 1.0);
    let r = s.scissor(&ClipRect { min_x: i64::MIN, min_y: i64::MIN, max_x: i64::MAX, max_y: i64::MAX });
    assert_eq!(r, Some(ScissorRect { x: 0, y: 0, width: u32::MAX, height: u32::MAX }));
    let r = s.scissor(&ClipRect { min_x: i64::MAX, min_y: 0, max_x: i64::MIN, max_y: 1 });
    assert_eq!(r, None);
}

#[test]
fn every_scissor_is_inside_the_target() {
    let s = screen(37, 23, 1.0);
    let values: [i64; 9] = [-100, -1, 0, 1, 10, 22, 23, 37, 90];
    for &min_x in values.iter() {
        for &max_x in values.iter() {
            for &min_y in values.iter() {
                for &max_y in values.iter() {
                    let c = ClipRect { min_x, min_y, max_x, max_y };
                    match s.scissor(&c) {
                        Some(r) => {
                            assert!(r.width >= 1 && r.height >= 1);
                            assert!(r.x + r.width <= 37);
                            assert!(r.y + r.height <= 23);
                            assert!(min_x < 37 && min_y < 23);
                        }
                        None => assert!(min_x >= 37 || min_y >= 23),
                    }
                }
            }
        }
    }
}

#[test]
fn scale_factor_validity() {
    assert!(screen(1, 1, 1.0).is_valid());
    assert!(screen(1, 1, 0.5).is_valid());
    assert!(screen(1, 1, f32::INFINITY).is_valid());
    assert!(!screen(1, 1, 0.0).is_valid());
    assert!(!screen(1, 1, -1.0).is_valid());
    assert!(!screen(1, 1, f32::NAN).is_valid());
}
