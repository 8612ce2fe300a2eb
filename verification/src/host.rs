//! The window and its surface, as far as the host decides about them.
use crate::geometry::PhysicalSize;
use crate::outside::add_srgb_suffix;
use crate::outside::clear_texture_feature;
use crate::outside::common_features;
use crate::outside::feature_set;
use crate::outside::srgb_variant;
use crate::outside::CLEAR_TEXTURE;
use crate::scene::depth_size;
use vstd::prelude::*;
use wgpu::Features;
use wgpu::TextureFormat;

verus! {

/// How many frames may wait to be shown.
pub const MAXIMUM_FRAME_LATENCY: u32 = 2;

/// What the host keeps of the window and its surface.
#[derive(Debug, PartialEq)]
pub struct HostState {
    /// The size of the window.
    pub size: PhysicalSize,
    /// How the pixels of the surface are stored.
    pub surface_format: TextureFormat,
}

/// How the surface is to be set up.
#[derive(Debug, PartialEq)]
pub struct SurfaceConfig {
    /// How the pixels are stored.
    pub format: TextureFormat,
    /// How the pixels may be looked at besides.
    pub view_format: TextureFormat,
    pub width: u32,
    pub height: u32,
    /// How many frames may wait to be shown.
    pub desired_maximum_frame_latency: u32,
}

/// What a new window size asks for.
#[derive(Debug, PartialEq)]
pub enum ResizeCommand {
    /// Set the surface up anew.
    ConfigureSurface(SurfaceConfig),
    /// Make a new depth texture of this size for the scene.
    CreateDepthTarget(PhysicalSize),
    /// Ask the window for a new frame.
    RequestRedraw,
}

/// How far drawing a frame has come.
#[derive(Clone, Copy, Debug, PartialEq, Eq, Structural)]
pub enum RenderStage {
    /// Nothing is drawn yet.
    Start,
    /// The user interface is to be drawn, and the signals to be processed that come of it.
    DrawUi,
    /// The scene is to be drawn, the user interface laid over it and the frame shown; the
    /// signals that have come meanwhile are processed, and an end that they ask for is not
    /// heard.
    Present,
    /// The frame is done.
    Done,
}

/// How drawing a frame ended.
#[derive(Clone, Copy, Debug, PartialEq, Eq, Structural)]
pub enum RenderOutcome {
    Drawn,
    Timeout,
    Outdated,
    Lost,
    OutOfMemory,
    Other,
}

/// What is to be done once drawing a frame ended.
#[derive(Debug, PartialEq)]
pub struct FollowUp {
    /// Set the surface up anew, and ask the window for a new frame.
    pub reconfigure: Option<SurfaceConfig>,
    /// End the application.
    pub exit: bool,
}

/// The features to ask of a device: that textures can be cleared, if the adapter offers it.
pub fn requested_features(supported: Features) -> (requested: Features)
    ensures
        feature_set(requested) == feature_set(supported).intersect(set![CLEAR_TEXTURE]),
{
    common_features(supported, clear_texture_feature())
}

/// The format for the views of a surface: the pixels as sRGB.
pub fn view_format(surface_format: TextureFormat) -> (format: TextureFormat)
    ensures
        format == srgb_variant(surface_format),
{
    add_srgb_suffix(surface_format)
}

impl HostState {
    /// How the surface is set up for the size that the window has.
    pub open spec fn surface_config(self) -> SurfaceConfig {
        SurfaceConfig {
            format: self.surface_format,
            view_format: srgb_variant(self.surface_format),
            width: self.size.width,
            height: self.size.height,
            desired_maximum_frame_latency: MAXIMUM_FRAME_LATENCY,
        }
    }

    /// What to do, in order, for the surface to have the size that the window has.
    pub open spec fn resize_commands(self) -> Seq<ResizeCommand> {
        if self.size.drawable() {
            seq![
                ResizeCommand::ConfigureSurface(self.surface_config()),
                ResizeCommand::CreateDepthTarget(self.size),
                ResizeCommand::RequestRedraw,
            ]
        } else {
            seq![ResizeCommand::RequestRedraw]
        }
    }

    /// How to set the surface up, unless it has no pixel.
    pub open spec fn config_if_drawable(self) -> Option<SurfaceConfig> {
        if self.size.drawable() {
            Some(self.surface_config())
        } else {
            None
        }
    }

    /// What to do once drawing a frame ended.
    pub open spec fn follow_up(self, outcome: RenderOutcome) -> FollowUp {
        FollowUp {
            reconfigure: if outcome is Lost || outcome is Outdated {
                self.config_if_drawable()
            } else {
                None
            },
            exit: outcome is OutOfMemory,
        }
    }

    /// The state for a window of this size whose surface can have these formats: the first
    /// is taken. A surface without a format is none to draw on.
    pub fn new(size: PhysicalSize, formats: &[TextureFormat]) -> (state: Option<Self>)
        ensures
            state == if formats@.len() == 0 {
                None
            } else {
                Some(HostState { size, surface_format: formats@[0] })
            },
    {
        if formats.len() == 0 {
            None
        } else {
            Some(HostState { size, surface_format: formats[0] })
        }
    }

    /// How to set the surface up for the size that the window has.
    pub fn configure_surface(&self) -> (config: SurfaceConfig)
        ensures
            config == self.surface_config(),
    {
        SurfaceConfig {
            format: self.surface_format,
            view_format: view_format(self.surface_format),
            width: self.size.width,
            height: self.size.height,
            desired_maximum_frame_latency: MAXIMUM_FRAME_LATENCY,
        }
    }

    /// How to set the surface up, unless it has no pixel.
    pub fn configure_if_drawable(&self) -> (config: Option<SurfaceConfig>)
        ensures
            config == self.config_if_drawable(),
    {
        if self.size.is_drawable() {
            Some(self.configure_surface())
        } else {
            None
        }
    }

    /// The window has a new size: what to do, in order. A window without a pixel keeps the
    /// surface and the depth texture of the size before.
    pub fn resize(&mut self, new_size: PhysicalSize) -> (commands: Vec<ResizeCommand>)
        ensures
            *final(self) == (HostState { size: new_size, ..*old(self) }),
            commands@ == final(self).resize_commands(),
    {
        let mut commands: Vec<ResizeCommand> = Vec::new();
        self.size = new_size;
        if let Some(config) = self.configure_if_drawable() {
            commands.push(ResizeCommand::ConfigureSurface(config));
            commands.push(ResizeCommand::CreateDepthTarget(depth_size(new_size)));
        }
        commands.push(ResizeCommand::RequestRedraw);
        commands
    }

    /// What comes after `stage` in drawing a frame. `should_exit` says whether one of the
    /// signals that came of drawing the user interface asks for the end of the application.
    pub open spec fn stage_after(self, stage: RenderStage, should_exit: bool) -> RenderStage {
        match stage {
            RenderStage::Start => if self.size.drawable() {
                RenderStage::DrawUi
            } else {
                RenderStage::Done
            },
            RenderStage::DrawUi => if should_exit {
                RenderStage::Done
            } else {
                RenderStage::Present
            },
            RenderStage::Present => RenderStage::Done,
            RenderStage::Done => RenderStage::Done,
        }
    }

    /// What comes after `stage` in drawing a frame.
    pub fn render(&self, stage: RenderStage, should_exit: bool) -> (next: RenderStage)
        ensures
            next == self.stage_after(stage, should_exit),
    {
        match stage {
            RenderStage::Start => {
                if self.size.width == 0 || self.size.height == 0 {
                    RenderStage::Done
                } else {
                    RenderStage::DrawUi
                }
            },
            RenderStage::DrawUi => {
                if should_exit {
                    RenderStage::Done
                } else {
                    RenderStage::Present
                }
            },
            RenderStage::Present | RenderStage::Done => RenderStage::Done,
        }
    }

    /// What to do once drawing a frame ended: a surface that was lost or is out of date is
    /// set up anew, if it has a pixel; without memory there is no going on.
    pub fn after_render(&self, outcome: RenderOutcome) -> (follow_up: FollowUp)
        ensures
            follow_up == self.follow_up(outcome),
    {
        match outcome {
            RenderOutcome::Lost | RenderOutcome::Outdated => FollowUp {
                reconfigure: self.configure_if_drawable(),
                exit: false,
            },
            RenderOutcome::OutOfMemory => FollowUp { reconfigure: None, exit: true },
            RenderOutcome::Drawn | RenderOutcome::Timeout | RenderOutcome::Other => FollowUp {
                reconfigure: None,
                exit: false,
            },
        }
    }
}

/// A surface is set up, and a depth texture made, only with at least one pixel: when the
/// host starts, when the window changes its size, and when a frame could not be drawn.
pub proof fn law_only_drawable_surfaces_are_set_up(state: HostState, outcome: RenderOutcome)
    ensures
        state.config_if_drawable() matches Some(config) ==> config.width > 0 && config.height > 0,
        forall|i: int|
            0 <= i < state.resize_commands().len() ==> match #[trigger] state.resize_commands()[i] {
                ResizeCommand::ConfigureSurface(config) => config.width > 0 && config.height > 0,
                ResizeCommand::CreateDepthTarget(size) => size.drawable(),
                ResizeCommand::RequestRedraw => true,
            },
        state.follow_up(outcome).reconfigure matches Some(config) ==> config.width > 0
            && config.height > 0,
{
}

/// A change of the window's size ends with a request for a new frame, whatever the size.
pub proof fn law_resize_asks_for_frame(state: HostState)
    ensures
        state.resize_commands().last() == ResizeCommand::RequestRedraw,
{
}

/// A frame is shown if and only if the window has a pixel and nothing asks for the end of the
/// application while the user interface is drawn; and every frame is done after three stages.
pub proof fn law_frame_is_shown(state: HostState, should_exit: bool)
    ensures
        ({
            let first = state.stage_after(RenderStage::Start, should_exit);
            let second = state.stage_after(first, should_exit);
            let third = state.stage_after(second, should_exit);
            &&& first is Present || second is Present <==> state.size.drawable() && !should_exit
            &&& third is Done
        }),
{
}

/// No feature is asked of a device that its adapter does not offer.
pub proof fn law_requested_features_are_supported(supported: Features, requested: Features)
    requires
        feature_set(requested) == feature_set(supported).intersect(set![CLEAR_TEXTURE]),
    ensures
        feature_set(requested).subset_of(feature_set(supported)),
{
}

/// A device is asked to clear textures if and only if its adapter can, and for nothing else.
pub proof fn law_clearing_is_asked_for_where_offered(
    supported: Features,
    requested: Features,
    feature: u32,
)
    requires
        call_ensures(requested_features, (supported,), requested),
    ensures
        feature_set(requested).contains(CLEAR_TEXTURE) <==> feature_set(supported).contains(
            CLEAR_TEXTURE,
        ),
        feature_set(requested).contains(feature) ==> feature == CLEAR_TEXTURE,
        feature_set(requested).subset_of(feature_set(supported)),
{
}

/// The host takes the first format that the surface can have, and keeps it and the size of the
/// window; without a format there is no host.
pub proof fn law_first_format_is_taken(
    size: PhysicalSize,
    formats: &[TextureFormat],
    state: Option<HostState>,
)
    requires
        call_ensures(HostState::new, (size, formats), state),
    ensures
        state is Some <==> formats@.len() > 0,
        state matches Some(state) ==> state.size == size && state.surface_format
            == formats@.first(),
{
}

/// The surface is set up as large as the window, in the format that was taken and with a view of
/// it as sRGB, the one that views of the surface have, and for as many waiting frames as are
/// allowed.
pub proof fn law_surface_fits_the_window(
    state: HostState,
    config: SurfaceConfig,
    viewed: TextureFormat,
)
    requires
        call_ensures(HostState::configure_surface, (&state,), config),
        call_ensures(view_format, (state.surface_format,), viewed),
    ensures
        config.width == state.size.width,
        config.height == state.size.height,
        config.format == state.surface_format,
        config.view_format == viewed,
        config.view_format == srgb_variant(state.surface_format),
        config.desired_maximum_frame_latency == 2,
{
}

/// Where the window has a pixel the surface is set up as it always is, and where it has none it
/// is not.
pub proof fn law_surface_is_set_up_where_drawable(
    state: HostState,
    config: SurfaceConfig,
    answer: Option<SurfaceConfig>,
)
    requires
        call_ensures(HostState::configure_surface, (&state,), config),
        call_ensures(HostState::configure_if_drawable, (&state,), answer),
    ensures
        state.size.width > 0 && state.size.height > 0 ==> answer == Some(config),
        state.size.width == 0 || state.size.height == 0 ==> answer is None,
{
}

/// A change of the window's size changes the size that the host knows and nothing else. The
/// surface and the depth texture get that size, each once and in this order, if and only if it
/// has a pixel, and a new frame is asked for once, last.
pub proof fn law_resize_follows_the_window(
    state: &mut HostState,
    new_size: PhysicalSize,
    commands: Vec<ResizeCommand>,
    settled: HostState,
    config: SurfaceConfig,
)
    requires
        call_ensures(HostState::resize, (state, new_size), commands),
        settled == *final(state),
        call_ensures(HostState::configure_surface, (&settled,), config),
    ensures
        final(state).size == new_size,
        final(state).surface_format == old(state).surface_format,
        commands@.len() == if new_size.width > 0 && new_size.height > 0 {
            3int
        } else {
            1
        },
        new_size.width > 0 && new_size.height > 0 ==> {
            &&& commands@[0] == ResizeCommand::ConfigureSurface(config)
            &&& config.width == new_size.width
            &&& config.height == new_size.height
            &&& config.format == old(state).surface_format
            &&& commands@[1] == ResizeCommand::CreateDepthTarget(new_size)
        },
        commands@.last() is RequestRedraw,
{
}

/// A change of size after another leaves what the later one alone leaves, and asks for the same.
pub proof fn law_last_size_counts(
    first: &mut HostState,
    first_size: PhysicalSize,
    first_commands: Vec<ResizeCommand>,
    second: &mut HostState,
    direct: &mut HostState,
    size: PhysicalSize,
    second_commands: Vec<ResizeCommand>,
    direct_commands: Vec<ResizeCommand>,
)
    requires
        call_ensures(HostState::resize, (first, first_size), first_commands),
        *final(first) == *old(second),
        call_ensures(HostState::resize, (second, size), second_commands),
        *old(direct) == *old(first),
        call_ensures(HostState::resize, (direct, size), direct_commands),
    ensures
        *final(second) == *final(direct),
        second_commands@ == direct_commands@,
{
}

/// A frame begins with drawing the user interface if and only if the window has a pixel, goes on
/// to be shown if and only if nothing asked for the end while the user interface was drawn, and
/// is done after it was shown; what was asked before and after makes no difference.
pub proof fn law_frame_goes_through_its_stages(
    state: HostState,
    stage: RenderStage,
    should_exit: bool,
    next: RenderStage,
)
    requires
        call_ensures(HostState::render, (&state, stage, should_exit), next),
    ensures
        stage is Start ==> next is DrawUi || next is Done,
        stage is Start ==> (next is DrawUi <==> state.size.width > 0 && state.size.height > 0),
        stage is DrawUi ==> next is Present || next is Done,
        stage is DrawUi ==> (next is Present <==> !should_exit),
        stage is Present || stage is Done ==> next is Done,
{
}

/// Once drawing a frame ended, the surface is set up anew if and only if it was lost or is out
/// of date and the window has a pixel, and then as it always is; the application ends if and
/// only if no memory was left.
pub proof fn law_failed_frame_is_followed_up(
    state: HostState,
    outcome: RenderOutcome,
    config: SurfaceConfig,
    follow_up: FollowUp,
)
    requires
        call_ensures(HostState::configure_surface, (&state,), config),
        call_ensures(HostState::after_render, (&state, outcome), follow_up),
    ensures
        follow_up.reconfigure is Some <==> {
            &&& outcome is Lost || outcome is Outdated
            &&& state.size.width > 0 && state.size.height > 0
        },
        follow_up.reconfigure is Some ==> follow_up.reconfigure == Some(config),
        follow_up.exit <==> outcome is OutOfMemory,
{
}

} // verus!
