use embed::geometry::PhysicalSize;
use embed::host::{
    requested_features, view_format, FollowUp, HostState, RenderOutcome, RenderStage,
    ResizeCommand, SurfaceConfig,
};
use wgpu::{Features, TextureFormat};

fn size(width: u32, height: u32) -> PhysicalSize {
    PhysicalSize { width, height }
}

fn state(width: u32, height: u32) -> HostState {
    HostState::new(
        size(width, height),
        &[TextureFormat::Bgra8Unorm, TextureFormat::Rgba8Unorm],
    )
    .unwrap()
}

fn config(width: u32, height: u32) -> SurfaceConfig {
    SurfaceConfig {
        format: TextureFormat::Bgra8Unorm,
        view_format: TextureFormat::Bgra8UnormSrgb,
        width,
        height,
        desired_maximum_frame_latency: 2,
    }
}

#[test]
fn clearing_textures_is_requested_where_it_is_supported() {
    assert_eq!(
        requested_features(Features::CLEAR_TEXTURE | Features::DEPTH_CLIP_CONTROL),
        Features::CLEAR_TEXTURE
    );
    assert_eq!(
        requested_features(Features::CLEAR_TEXTURE),
        Features::CLEAR_TEXTURE
    );
    assert_eq!(
        requested_features(Features::DEPTH_CLIP_CONTROL),
        Features::empty()
    );
    assert_eq!(requested_features(Features::all()), Features::CLEAR_TEXTURE);
    assert_eq!(Features::CLEAR_TEXTURE.bits().0, [1 << 23, 0]);
}

#[test]
fn views_are_srgb() {
    assert_eq!(
        view_format(TextureFormat::Bgra8Unorm),
        TextureFormat::Bgra8UnormSrgb
    );
    assert_eq!(
        view_format(TextureFormat::Rgba8Unorm),
        TextureFormat::Rgba8UnormSrgb
    );
    assert_eq!(
        view_format(TextureFormat::Rgba8UnormSrgb),
        TextureFormat::Rgba8UnormSrgb
    );
    assert_eq!(
        view_format(TextureFormat::Rgba16Float),
        TextureFormat::Rgba16Float
    );
}

#[test]
fn first_format_is_taken() {
    assert_eq!(state(3, 4).surface_format, TextureFormat::Bgra8Unorm);
    assert_eq!(state(3, 4).size, size(3, 4));
    assert_eq!(HostState::new(size(3, 4), &[]), None);
}

#[test]
fn surface_has_the_size_of_the_window() {
    assert_eq!(state(960, 640).configure_surface(), config(960, 640));
    assert_eq!(
        state(960, 640).configure_if_drawable(),
        Some(config(960, 640))
    );
    assert_eq!(state(0, 640).configure_if_drawable(), None);
    assert_eq!(state(960, 0).configure_if_drawable(), None);
}

#[test]
fn new_size_sets_the_surface_up() {
    let mut state = state(960, 640);
    assert_eq!(
        state.resize(size(120, 80)),
        vec![
            ResizeCommand::ConfigureSurface(config(120, 80)),
            ResizeCommand::CreateDepthTarget(size(120, 80)),
            ResizeCommand::RequestRedraw,
        ]
    );
    assert_eq!(state.size, size(120, 80));
}

#[test]
fn window_without_a_pixel_only_asks_for_a_frame() {
    let mut state = state(960, 640);
    assert_eq!(
        state.resize(size(0, 80)),
        vec![ResizeCommand::RequestRedraw]
    );
    assert_eq!(state.size, size(0, 80));
    assert_eq!(
        state.resize(size(80, 0)),
        vec![ResizeCommand::RequestRedraw]
    );
}

#[test]
fn frame_goes_through_its_stages() {
    let state = state(960, 640);
    assert_eq!(
        state.render(RenderStage::Start, false),
        RenderStage::DrawUi
    );
    assert_eq!(
        state.render(RenderStage::DrawUi, false),
        RenderStage::Present
    );
    assert_eq!(state.render(RenderStage::Present, false), RenderStage::Done);
    assert_eq!(state.render(RenderStage::Done, false), RenderStage::Done);
}

#[test]
fn frame_is_not_shown_when_the_application_ends() {
    let state = state(960, 640);
    assert_eq!(state.render(RenderStage::DrawUi, true), RenderStage::Done);
}

#[test]
fn frame_without_a_pixel_is_done_at_once() {
    assert_eq!(
        state(0, 640).render(RenderStage::Start, false),
        RenderStage::Done
    );
    assert_eq!(
        state(960, 0).render(RenderStage::Start, false),
        RenderStage::Done
    );
}

#[test]
fn lost_surface_is_set_up_anew() {
    for outcome in [RenderOutcome::Lost, RenderOutcome::Outdated] {
        assert_eq!(
            state(960, 640).after_render(outcome),
            FollowUp {
                reconfigure: Some(config(960, 640)),
                exit: false
            }
        );
        assert_eq!(
            state(0, 640).after_render(outcome),
            FollowUp {
                reconfigure: None,
                exit: false
            }
        );
    }
}

#[test]
fn only_want_of_memory_ends_the_application() {
    assert_eq!(
        state(960, 640).after_render(RenderOutcome::OutOfMemory),
        FollowUp {
            reconfigure: None,
            exit: true
        }
    );
    for outcome in [
        RenderOutcome::Drawn,
        RenderOutcome::Timeout,
        RenderOutcome::Other,
    ] {
        assert_eq!(
            state(960, 640).after_render(outcome),
            FollowUp {
                reconfigure: None,
                exit: false
            }
        );
    }
}
