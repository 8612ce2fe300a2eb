use embed::geometry::PhysicalSize;
use embed::scene::{aspect_terms, depth_size, DemoScene, Rotation};
use std::f32::consts::{PI, TAU};

const TURN: Rotation<f32> = Rotation {
    step: PI / 7.0,
    full_turn: TAU,
    whole: 1.0,
};

#[test]
fn step_turns_the_cube_and_swaps_the_palettes() {
    let mut scene: DemoScene<f32> = DemoScene {
        angle: 0.85,
        palette_mix: 0.0,
    };
    scene.advance(TURN);
    assert_eq!(scene.angle, 0.85 + PI / 7.0);
    assert_eq!(scene.palette_mix, 1.0);
    scene.advance(TURN);
    assert_eq!(scene.angle, 0.85 + PI / 7.0 + PI / 7.0);
    assert_eq!(scene.palette_mix, 0.0);
}

#[test]
fn angle_stays_within_one_turn() {
    let mut scene: DemoScene<f32> = DemoScene {
        angle: 0.85,
        palette_mix: 0.0,
    };
    for _ in 0..100 {
        let before = scene.angle;
        scene.advance(TURN);
        let turned = before + PI / 7.0;
        let expected = if turned > TAU { turned - TAU } else { turned };
        assert_eq!(scene.angle, expected);
        assert!(scene.angle <= TAU);
    }
    assert_eq!(scene.palette_mix, 0.0);
}

#[test]
fn full_turn_itself_is_kept() {
    let rotation: Rotation<i64> = Rotation {
        step: 3,
        full_turn: 7,
        whole: 1,
    };
    let mut scene: DemoScene<i64> = DemoScene {
        angle: 4,
        palette_mix: 1,
    };
    scene.advance(rotation);
    assert_eq!(
        scene,
        DemoScene {
            angle: 7,
            palette_mix: 0
        }
    );
    scene.advance(rotation);
    assert_eq!(
        scene,
        DemoScene {
            angle: 3,
            palette_mix: 1
        }
    );
}

#[test]
fn palettes_alternate() {
    let rotation: Rotation<i64> = Rotation {
        step: 3,
        full_turn: 7,
        whole: 5,
    };
    let mut scene: DemoScene<i64> = DemoScene {
        angle: 1,
        palette_mix: 5,
    };
    for step in 1..10 {
        scene.advance(rotation);
        assert_eq!(scene.palette_mix, if step % 2 == 0 { 5 } else { 0 });
        assert!(0 <= scene.angle && scene.angle <= 7);
    }
}

#[test]
fn steps_of_a_full_turn_bring_the_angle_back() {
    let rotation: Rotation<i64> = Rotation {
        step: 3,
        full_turn: 12,
        whole: 1,
    };
    for angle in 1..=12 {
        let mut scene: DemoScene<i64> = DemoScene {
            angle,
            palette_mix: 0,
        };
        for _ in 0..3 {
            scene.advance(rotation);
            assert_ne!(scene.angle, angle);
        }
        scene.advance(rotation);
        assert_eq!(scene.angle, angle);
    }
    let mut scene: DemoScene<f32> = DemoScene {
        angle: 0.85,
        palette_mix: 0.0,
    };
    for _ in 0..14 {
        scene.advance(TURN);
    }
    assert!((scene.angle - 0.85).abs() < 0.0001);
}

#[test]
fn aspect_never_divides_by_zero() {
    assert_eq!(
        aspect_terms(PhysicalSize {
            width: 960,
            height: 640
        }),
        (960, 640)
    );
    assert_eq!(
        aspect_terms(PhysicalSize {
            width: 0,
            height: 0
        }),
        (0, 1)
    );
}

#[test]
fn depth_texture_has_a_pixel() {
    let size = |width, height| PhysicalSize { width, height };
    assert_eq!(depth_size(size(960, 640)), size(960, 640));
    assert_eq!(depth_size(size(0, 640)), size(1, 640));
    assert_eq!(depth_size(size(960, 0)), size(960, 1));
    assert_eq!(depth_size(size(0, 0)), size(1, 1));
}
