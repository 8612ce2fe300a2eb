//! What the library takes from `ui_events` and `wgpu`, and what it believes of it.
use ui_events::keyboard::KeyboardEvent;
use ui_events::pointer::PointerButton;
use ui_events::pointer::PointerButtons;
use ui_events::pointer::PointerGesture;
use ui_events::pointer::PointerInfo;
use ui_events::ScrollDelta;
use vstd::prelude::*;
use wgpu::Features;
use wgpu::TextureFormat;

verus! {

/// `ui_events::pointer::PointerInfo`, which says whose event it is. It is carried, not read.
#[verifier::external_type_specification]
#[verifier::external_body]
pub struct ExPointerInfo(PointerInfo);

/// `ui_events::pointer::PointerButton`, the button that changed. It is carried, not read.
#[verifier::external_type_specification]
#[verifier::external_body]
pub struct ExPointerButton(PointerButton);

/// `ui_events::pointer::PointerState`, from which what the routing does not look at (time,
/// modifiers, pressure and the like) comes along. It is carried, not read.
#[verifier::external_type_specification]
#[verifier::external_body]
pub struct ExPointerState(ui_events::pointer::PointerState);

/// `ui_events::ScrollDelta`, how far to scroll. It is carried, not read.
#[verifier::external_type_specification]
#[verifier::external_body]
pub struct ExScrollDelta(ScrollDelta);

/// `ui_events::pointer::PointerGesture`, a touchpad gesture. It is carried, not read.
#[verifier::external_type_specification]
#[verifier::external_body]
pub struct ExPointerGesture(PointerGesture);

/// `ui_events::keyboard::KeyboardEvent`, a key that changed. It is carried, not read.
#[verifier::external_type_specification]
#[verifier::external_body]
pub struct ExKeyboardEvent(KeyboardEvent);

/// `ui_events::pointer::PointerButtons`, a set of buttons.
#[verifier::external_type_specification]
#[verifier::external_body]
pub struct ExPointerButtons(PointerButtons);

/// The buttons in the set, each by the number of its bit: the primary button is 0.
pub uninterp spec fn held_buttons(buttons: PointerButtons) -> Set<u32>;

/// Calls `ui_events::pointer::PointerButtons::is_empty`, which says whether no button is in
/// the set.
#[verifier::external_body]
pub(crate) fn no_buttons_held(buttons: PointerButtons) -> (answer: bool)
    ensures
        answer == (held_buttons(buttons) == Set::<u32>::empty()),
{
    buttons.is_empty()
}

/// `wgpu::Features`, a set of features of a graphics device.
#[verifier::external_type_specification]
#[verifier::external_body]
pub struct ExFeatures(Features);

/// The features in the set, each by the number of its bit; the bits of those that WebGPU
/// knows come after the sixty-four of the others.
pub uninterp spec fn feature_set(features: Features) -> Set<u32>;

/// The number of the feature that a texture can be cleared.
pub const CLEAR_TEXTURE: u32 = 23;

/// Reads `wgpu::Features::CLEAR_TEXTURE`, the set of the one feature that a texture can be
/// cleared.
#[verifier::external_body]
pub(crate) fn clear_texture_feature() -> (features: Features)
    ensures
        feature_set(features) == set![CLEAR_TEXTURE],
{
    Features::CLEAR_TEXTURE
}

/// Calls `&` of `wgpu::Features`, which keeps what is in both sets.
#[verifier::external_body]
pub(crate) fn common_features(left: Features, right: Features) -> (features: Features)
    ensures
        feature_set(features) == feature_set(left).intersect(feature_set(right)),
{
    left & right
}

/// `wgpu::TextureFormat`, how the pixels of a texture are stored.
#[verifier::external_type_specification]
#[verifier::external_body]
pub struct ExTextureFormat(TextureFormat);

/// What `wgpu::TextureFormat::add_srgb_suffix` returns: the format whose colors are stored
/// the same way but encoded as sRGB, or the format itself where there is none or it is one
/// already.
pub uninterp spec fn srgb_variant(format: TextureFormat) -> TextureFormat;

/// Calls `wgpu::TextureFormat::add_srgb_suffix`; the result depends on the format alone.
#[verifier::external_body]
pub(crate) fn add_srgb_suffix(format: TextureFormat) -> (srgb: TextureFormat)
    ensures
        srgb == srgb_variant(format),
{
    format.add_srgb_suffix()
}

} // verus!
