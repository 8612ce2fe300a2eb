use embed::geometry::{OverlayRect, PhysicalPosition, PhysicalSize};
use embed::scene::DemoScene;
use embed::uniforms::{
    overlay_params, scene_params, QuadParams, SceneParams, QUAD_PARAMS_SIZE, SCENE_PARAMS_SIZE,
};

#[test]
fn quad_words_come_one_after_the_other() {
    let params = QuadParams {
        origin: [[0, 1, 2, 3], [4, 5, 6, 7]],
        size: [[8, 9, 10, 11], [12, 13, 14, 15]],
        surface_size: [[16, 17, 18, 19], [20, 21, 22, 23]],
        padding: [[24, 25, 26, 27], [28, 29, 30, 31]],
    };
    let bytes = params.into_bytes();
    assert_eq!(bytes.len(), QUAD_PARAMS_SIZE);
    for i in 0..32 {
        assert_eq!(bytes[i], i as u8);
    }
}

#[test]
fn scene_words_come_one_after_the_other() {
    let params = SceneParams {
        angle: [10, 11, 12, 13],
        aspect: [14, 15, 16, 17],
        palette_mix: [18, 19, 20, 21],
        padding: [22, 23, 24, 25],
    };
    let bytes = params.into_bytes();
    assert_eq!(bytes.len(), SCENE_PARAMS_SIZE);
    for i in 0..16 {
        assert_eq!(bytes[i], 10 + i as u8);
    }
}

#[test]
fn overlay_is_told_to_the_shader_as_floats() {
    let overlay: OverlayRect<f64> = OverlayRect {
        origin: PhysicalPosition { x: 330.5, y: 270.0 },
        size: PhysicalSize {
            width: 300,
            height: 100,
        },
    };
    let surface = PhysicalSize {
        width: 961,
        height: 640,
    };
    let params = overlay_params(
        overlay,
        surface,
        |coordinate| (coordinate as f32).to_ne_bytes(),
        |length| (length as f32).to_ne_bytes(),
    )
    .unwrap();
    let bytes = params.into_bytes();
    let expected: [f32; 8] = [330.5, 270.0, 300.0, 100.0, 961.0, 640.0, 0.0, 0.0];
    for (i, value) in expected.iter().enumerate() {
        assert_eq!(bytes[4 * i..4 * i + 4], value.to_ne_bytes());
    }
}

#[test]
fn nothing_is_laid_over_a_surface_without_a_pixel() {
    let overlay: OverlayRect<f64> = OverlayRect {
        origin: PhysicalPosition { x: 0.0, y: 0.0 },
        size: PhysicalSize {
            width: 300,
            height: 100,
        },
    };
    for (width, height) in [(0, 640), (960, 0), (0, 0)] {
        let params = overlay_params(
            overlay,
            PhysicalSize { width, height },
            |coordinate| (coordinate as f32).to_ne_bytes(),
            |length| (length as f32).to_ne_bytes(),
        );
        assert_eq!(params, None);
    }
}

#[test]
fn scene_is_told_to_the_shader_as_floats() {
    let scene: DemoScene<f32> = DemoScene {
        angle: 0.85,
        palette_mix: 1.0,
    };
    let expect = |width: u32, height: u32, aspect: f32| {
        let params = scene_params(
            scene,
            PhysicalSize { width, height },
            |number| number.to_ne_bytes(),
            |width, height| f32::max(width as f32 / height as f32, 0.001).to_ne_bytes(),
        );
        assert_eq!(params.angle, 0.85f32.to_ne_bytes());
        assert_eq!(params.aspect, aspect.to_ne_bytes());
        assert_eq!(params.palette_mix, 1.0f32.to_ne_bytes());
        assert_eq!(params.padding, 0.0f32.to_ne_bytes());
    };
    expect(960, 640, 1.5);
    expect(960, 0, 960.0);
    expect(0, 640, 0.001);
}
