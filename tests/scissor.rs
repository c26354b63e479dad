use egui_grr::{scissor_region, PixelRect, ScissorRegion};

fn to_pixels(pixels_per_point: f32, points: f32) -> i64 {
    (pixels_per_point * points).round() as i64
}

fn clip_in_pixels(pixels_per_point: f32, min: (f32, f32), max: (f32, f32)) -> PixelRect {
    PixelRect {
        min_x: to_pixels(pixels_per_point, min.0),
        min_y: to_pixels(pixels_per_point, min.1),
        max_x: to_pixels(pixels_per_point, max.0),
        max_y: to_pixels(pixels_per_point, max.1),
    }
}

#[test]
fn scissor_scales_and_flips() {
    let clip = clip_in_pixels(2.0, (10.0, 10.0), (50.0, 50.0));
    let r = scissor_region([800, 600], clip);
    assert_eq!(r, ScissorRegion { x: 20, y: 500, w: 80, h: 80 });
}

#[test]
fn scissor_clamps_far_corner() {
    let clip = clip_in_pixels(1.0, (100.0, 50.0), (1000.0, 1000.0));
    let r = scissor_region([800, 600], clip);
    assert_eq!(r, ScissorRegion { x: 100, y: 0, w: 700, h: 550 });
    assert_eq!(r.x + r.w, 800);
}

#[test]
fn scissor_clamps_negative_corner() {
    let clip = PixelRect { min_x: -30, min_y: -40, max_x: 10, max_y: 20 };
    let r = scissor_region([800, 600], clip);
    assert_eq!(r, ScissorRegion { x: 0, y: 580, w: 10, h: 20 });
}

#[test]
fn scissor_inverted_rect_is_empty() {
    let clip = PixelRect { min_x: 300, min_y: 200, max_x: 100, max_y: 50 };
    let r = scissor_region([800, 600], clip);
    assert_eq!(r, ScissorRegion { x: 300, y: 400, w: 0, h: 0 });
}

#[test]
fn scissor_fully_outside_surface() {
    let clip = PixelRect { min_x: 900, min_y: 700, max_x: 1200, max_y: 900 };
    let r = scissor_region([800, 600], clip);
    assert_eq!(r, ScissorRegion { x: 800, y: 0, w: 0, h: 0 });
}

#[test]
fn scissor_whole_surface() {
    let clip = clip_in_pixels(1.5, (0.0, 0.0), (1000.0, 1000.0));
    let r = scissor_region([1024, 768], clip);
    assert_eq!(r, ScissorRegion { x: 0, y: 0, w: 1024, h: 768 });
}
