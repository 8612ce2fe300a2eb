use embed::geometry::{
    centering_offset, translate_position, OverlayRect, PhysicalPosition, PhysicalSize,
};
use embed::ui::EmbeddedUi;

fn rect() -> OverlayRect<f64> {
    OverlayRect {
        origin: PhysicalPosition { x: 10.5, y: 20.0 },
        size: PhysicalSize {
            width: 30,
            height: 40,
        },
    }
}

fn at(x: f64, y: f64) -> PhysicalPosition<f64> {
    PhysicalPosition { x, y }
}

#[test]
fn near_edges_are_in_and_far_edges_are_out() {
    assert!(rect().contains(at(10.5, 20.0)));
    assert!(rect().contains(at(40.4, 59.9)));
    assert!(!rect().contains(at(40.5, 20.0)));
    assert!(!rect().contains(at(10.5, 60.0)));
    assert!(!rect().contains(at(10.4, 20.0)));
    assert!(!rect().contains(at(10.5, 19.9)));
}

#[test]
fn no_rectangle_contains_what_is_no_number() {
    assert!(!rect().contains(at(f64::NAN, 30.0)));
    assert!(!rect().contains(at(20.0, f64::NAN)));
    assert!(!rect().contains(at(f64::INFINITY, 30.0)));
}

#[test]
fn empty_rectangle_contains_nothing() {
    let empty: OverlayRect<f64> = OverlayRect {
        origin: at(1.0, 1.0),
        size: PhysicalSize {
            width: 0,
            height: 5,
        },
    };
    assert!(!empty.contains(at(1.0, 1.0)));
}

#[test]
fn integer_hit_is_a_local_pixel() {
    let rect: OverlayRect<u64> = OverlayRect {
        origin: PhysicalPosition { x: 330, y: 270 },
        size: PhysicalSize {
            width: 300,
            height: 100,
        },
    };
    let position: PhysicalPosition<u64> = PhysicalPosition { x: 629, y: 270 };
    assert!(rect.contains(position));
    assert_eq!(
        translate_position(position, rect.origin),
        PhysicalPosition { x: 299, y: 0 }
    );
    assert!(!rect.contains(PhysicalPosition { x: 630, y: 270 }));
}

#[test]
fn positions_are_translated_by_the_origin() {
    assert_eq!(
        translate_position(at(12.0, 3.5), at(10.5, 20.0)),
        at(1.5, -16.5)
    );
}

#[test]
fn overlay_lies_in_the_middle_of_the_window() {
    let ui: EmbeddedUi<f64> = EmbeddedUi::new(
        1.0,
        PhysicalSize {
            width: 300,
            height: 100,
        },
    );
    let rect: OverlayRect<f64> = ui.overlay_rect(PhysicalSize {
        width: 960,
        height: 640,
    });
    assert_eq!(rect.origin, at(330.0, 270.0));
    assert_eq!(
        rect.size,
        PhysicalSize {
            width: 300,
            height: 100
        }
    );
    let odd: OverlayRect<f64> = ui.overlay_rect(PhysicalSize {
        width: 301,
        height: 103,
    });
    assert_eq!(odd.origin, at(0.5, 1.5));
}

#[test]
fn overlay_is_flush_with_a_window_too_small_for_it() {
    let ui: EmbeddedUi<f64> = EmbeddedUi::new(
        1.0,
        PhysicalSize {
            width: 300,
            height: 100,
        },
    );
    let rect: OverlayRect<f64> = ui.overlay_rect(PhysicalSize {
        width: 200,
        height: 0,
    });
    assert_eq!(rect.origin, at(0.0, 0.0));
}

#[test]
fn centering_offset_is_half_the_space() {
    let whole: u64 = centering_offset(7);
    assert_eq!(whole, 3);
    let fraction: f64 = centering_offset(7);
    assert_eq!(fraction, 3.5);
}

#[test]
fn size_is_drawable_with_a_pixel() {
    assert!(PhysicalSize {
        width: 1,
        height: 1
    }
    .is_drawable());
    assert!(!PhysicalSize {
        width: 0,
        height: 1
    }
    .is_drawable());
    assert!(!PhysicalSize {
        width: 1,
        height: 0
    }
    .is_drawable());
}

#[test]
fn overlay_is_hit_where_it_is_painted() {
    let size = PhysicalSize {
        width: 300,
        height: 100,
    };
    let window = PhysicalSize {
        width: 961,
        height: 640,
    };
    let mut ui: EmbeddedUi<f64> = EmbeddedUi::new(1.0, size);
    let painted: OverlayRect<u64> = ui.overlay_rect(window);
    ui.hovered = true;
    let hit: OverlayRect<u64> = ui.overlay_rect(window);
    assert_eq!(painted.origin, PhysicalPosition { x: 330, y: 270 });
    assert_eq!(hit.origin, painted.origin);
    assert_eq!(hit.size, painted.size);
    let painted: OverlayRect<f64> = ui.overlay_rect(window);
    let hit: OverlayRect<f64> = ui.overlay_rect(window);
    assert_eq!(painted.origin, at(330.5, 270.0));
    assert_eq!(hit.origin, painted.origin);
}
