//! The embedded user interface, as the host sees it: its size and scale, where it lies on the
//! window, and which pointer events it gets.
//!
//! What is done to the widget tree and to the graphics device is left to the host, which is
//! told in which order to do it.
use crate::geometry::centering_offset;
use crate::geometry::free_space;
use crate::geometry::half;
use crate::geometry::half_defined;
use crate::geometry::law_half_is_unique;
use crate::geometry::law_offset_centers;
use crate::geometry::OverlayRect;
use crate::geometry::PhysicalPosition;
use crate::geometry::PhysicalSize;
use crate::pointer::pointer_event_buttons_active;
use crate::pointer::pointer_info;
use crate::pointer::pointer_position;
use crate::pointer::translate_pointer_event;
use crate::pointer::PointerEvent;
use crate::routing::crossing;
use crate::routing::law_followed_while_held;
use crate::routing::law_told_of_positioned;
use crate::routing::passed_on;
use crate::routing::step;
use crate::routing::RouteInput;
use crate::routing::RouteState;
use crate::routing::Told;
use core::ops::Add;
use core::ops::Div;
use core::ops::Sub;
use ui_events::pointer::PointerInfo;
use vstd::prelude::*;
use vstd::std_specs::ops::SubSpec;

verus! {

/// The embedded user interface.
#[derive(Debug)]
pub struct EmbeddedUi<T> {
    /// The pixels that it is drawn in.
    pub physical_size: PhysicalSize,
    /// Physical pixels per logical pixel.
    pub scale_factor: T,
    /// The user interface believes that a pointer is over it.
    pub hovered: bool,
    /// Pointer events go to the user interface wherever they happen.
    pub pointer_route_active: bool,
}

/// What a change of scale asks of the host.
#[derive(Clone, Copy, Debug, PartialEq)]
pub enum ScaleCommand<T> {
    /// Make a new texture of this size to draw the user interface in.
    CreateTarget(PhysicalSize),
    /// Tell the widget tree its new scale.
    Rescale(T),
    /// Tell the widget tree its new size.
    Resize(PhysicalSize),
}

/// The first step of routing a pointer event.
#[derive(Debug)]
pub enum Routing<T> {
    /// The user interface is told nothing.
    Ignored,
    /// The user interface is told this, and routing is over.
    Deliver(PointerEvent<T>),
    /// The event happened at a position; routing goes on with
    /// [`EmbeddedUi::forward_pointer_event`].
    Positioned(PositionedEvent<T>),
}

/// An event at a position, on its way to the user interface.
#[derive(Debug)]
pub struct PositionedEvent<T> {
    /// What the user interface is told first.
    pub crossing: Option<PointerEvent<T>>,
    /// The event, as the window heard of it.
    pub event: PointerEvent<T>,
    /// The position lies on the user interface.
    pub inside: bool,
    /// The upper left corner of the user interface.
    pub origin: PhysicalPosition<T>,
}

/// The event that says `told` of `pointer`, for what is told without a position.
pub open spec fn notice<T>(told: Told, pointer: PointerInfo) -> PointerEvent<T>
    recommends
        !(told is Event),
{
    match told {
        Told::Enter => PointerEvent::Enter(pointer),
        Told::Leave => PointerEvent::Leave(pointer),
        _ => PointerEvent::Cancel(pointer),
    }
}

/// `delivered` says `told`, one event for each: of `event`'s pointer, and of `event` itself as
/// seen from `origin`.
pub open spec fn says<T: Sub<Output = T>>(
    delivered: Seq<PointerEvent<T>>,
    told: Seq<Told>,
    event: PointerEvent<T>,
    origin: PhysicalPosition<T>,
) -> bool {
    &&& delivered.len() == told.len()
    &&& forall|i: int|
        #![trigger delivered[i]]
        #![trigger told[i]]
        0 <= i < told.len() ==> if told[i] is Event {
            event.translated(origin, delivered[i])
        } else {
            delivered[i] == notice::<T>(told[i], event.pointer())
        }
}

/// What `event` is to the routing, given where it happened and what holds the pointer.
pub open spec fn route_input<T>(
    event: PointerEvent<T>,
    inside: bool,
    captured: bool,
    captured_after: bool,
) -> RouteInput {
    match event {
        PointerEvent::Enter(_) => RouteInput::Entered,
        PointerEvent::Leave(_) => RouteInput::Left,
        PointerEvent::Cancel(_) => RouteInput::Cancelled,
        _ => RouteInput::Positioned {
            inside,
            buttons: event.buttons_active(),
            captured,
            captured_after,
        },
    }
}

/// Both differences between `left` and `right` are defined.
pub open spec fn gap_defined<T: Sub<Output = T>>(left: T, right: T) -> bool {
    left.sub_req(right) && right.sub_req(left)
}

/// Comparing `left - right` with `tolerance` says `answer` to the question whether it is less.
pub open spec fn exceeds_by_less<T: Sub<Output = T> + PartialOrd>(
    left: T,
    right: T,
    tolerance: T,
    answer: bool,
) -> bool {
    exists|gap: T| #[trigger]
        call_ensures(<T as Sub>::sub, (left, right), gap) && call_ensures(
            T::lt,
            (&gap, &tolerance),
            answer,
        )
}

/// `answer` is what comparing the differences between `left` and `right`, taken both ways,
/// with `tolerance` comes to: the two are nearly equal if both differences are less.
pub open spec fn nearly_equal<T: Sub<Output = T> + PartialOrd>(
    left: T,
    right: T,
    tolerance: T,
    answer: bool,
) -> bool {
    if answer {
        &&& exceeds_by_less(left, right, tolerance, true)
        &&& exceeds_by_less(right, left, tolerance, true)
    } else {
        ||| exceeds_by_less(left, right, tolerance, false)
        ||| exceeds_by_less(right, left, tolerance, false)
    }
}

impl<T> EmbeddedUi<T> {
    /// What is remembered of the pointer.
    pub open spec fn route(self) -> RouteState {
        RouteState { hovered: self.hovered, active: self.pointer_route_active }
    }

    /// The user interface but for what is remembered of the pointer.
    pub open spec fn same_display(self, other: Self) -> bool {
        self.physical_size == other.physical_size && self.scale_factor == other.scale_factor
    }

    /// A user interface that no pointer was ever over.
    pub fn new(scale_factor: T, physical_size: PhysicalSize) -> (ui: Self)
        ensures
            ui == (EmbeddedUi {
                physical_size,
                scale_factor,
                hovered: false,
                pointer_route_active: false,
            }),
    {
        EmbeddedUi { physical_size, scale_factor, hovered: false, pointer_route_active: false }
    }
}

impl<T: Sub<Output = T> + PartialOrd> EmbeddedUi<T> {
    /// `after` is the user interface once it heard that the window's scale is `scale_factor`,
    /// at which it is drawn in `physical_size`, and `commands` is what the host has to do
    /// about it: nothing where the scale is nearly the one it had.
    pub open spec fn rescaled(
        self,
        scale_factor: T,
        tolerance: T,
        physical_size: PhysicalSize,
        after: Self,
        commands: Seq<ScaleCommand<T>>,
    ) -> bool {
        exists|unchanged: bool| #[trigger]
            nearly_equal(self.scale_factor, scale_factor, tolerance, unchanged)
                && if unchanged {
                &&& after == self
                &&& commands == Seq::<ScaleCommand<T>>::empty()
            } else {
                &&& after == (EmbeddedUi {
                    physical_size,
                    scale_factor,
                    hovered: false,
                    pointer_route_active: false,
                })
                &&& commands == seq![
                    ScaleCommand::CreateTarget(physical_size),
                    ScaleCommand::Rescale(scale_factor),
                    ScaleCommand::Resize(physical_size),
                ]
            }
    }
}

impl<T: Copy + Sub<Output = T> + PartialOrd> EmbeddedUi<T> {
    /// The window's scale is now `scale_factor`, at which the user interface is drawn in
    /// `physical_size`. A change below `tolerance` is none. After any other, the pointer has
    /// to come over the user interface anew.
    pub fn update_scale_factor(
        &mut self,
        scale_factor: T,
        tolerance: T,
        physical_size: PhysicalSize,
    ) -> (commands: Vec<ScaleCommand<T>>)
        requires
            gap_defined(old(self).scale_factor, scale_factor),
        ensures
            old(self).rescaled(
                scale_factor,
                tolerance,
                physical_size,
                *final(self),
                commands@,
            ),
    {
        let mut commands: Vec<ScaleCommand<T>> = Vec::new();
        if self.scale_factor - scale_factor < tolerance && scale_factor - self.scale_factor
            < tolerance {
            assert(nearly_equal(old(self).scale_factor, scale_factor, tolerance, true));
            return commands;
        }
        assert(nearly_equal(old(self).scale_factor, scale_factor, tolerance, false));
        self.scale_factor = scale_factor;
        self.physical_size = physical_size;
        self.hovered = false;
        self.pointer_route_active = false;
        commands.push(ScaleCommand::CreateTarget(physical_size));
        commands.push(ScaleCommand::Rescale(scale_factor));
        commands.push(ScaleCommand::Resize(physical_size));
        assert(commands@ =~= seq![
            ScaleCommand::CreateTarget(physical_size),
            ScaleCommand::Rescale(scale_factor),
            ScaleCommand::Resize(physical_size),
        ]);
        commands
    }
}

impl<T> EmbeddedUi<T> {
    /// `rect` is as large as the user interface and has half of what the window leaves free
    /// before it, in both directions.
    pub open spec fn overlays<C: Div<Output = C> + From<u32>>(
        self,
        window_size: PhysicalSize,
        rect: OverlayRect<C>,
    ) -> bool {
        &&& rect.size == self.physical_size
        &&& half(free_space(window_size.width, self.physical_size.width), rect.origin.x)
        &&& half(free_space(window_size.height, self.physical_size.height), rect.origin.y)
    }

    /// Where the user interface lies on a window of this size: in the middle, or flush with
    /// the near edge of a window too small for it.
    pub fn overlay_rect<C: Div<Output = C> + From<u32>>(
        &self,
        window_size: PhysicalSize,
    ) -> (rect: OverlayRect<C>)
        requires
            half_defined::<C>(free_space(window_size.width, self.physical_size.width)),
            half_defined::<C>(free_space(window_size.height, self.physical_size.height)),
        ensures
            self.overlays(window_size, rect),
    {
        let x = centering_offset(window_size.width.saturating_sub(self.physical_size.width));
        let y = centering_offset(window_size.height.saturating_sub(self.physical_size.height));
        OverlayRect { origin: PhysicalPosition { x, y }, size: self.physical_size }
    }
}

impl<T: Copy + PartialOrd + Add<Output = T> + Sub<Output = T> + From<u32>> EmbeddedUi<T> {
    /// The first step of routing a pointer event that the window heard of: tells the user
    /// interface of a pointer that came over it or left it.
    ///
    /// After [`Routing::Positioned`] the host delivers the crossing, if there is one, asks
    /// whether a widget has captured the pointer, and goes on with
    /// [`EmbeddedUi::forward_pointer_event`].
    pub fn begin_pointer_event(&mut self, event: PointerEvent<T>, overlay: OverlayRect<T>) -> (routing:
        Routing<T>)
        requires
            event.snapshot() is Some ==> overlay.edges_defined(),
        ensures
            final(self).same_display(*old(self)),
            match event.snapshot() {
                Some(snapshot) => {
                    &&& routing matches Routing::Positioned(positioned)
                    &&& overlay.hit(snapshot.position, positioned.inside)
                    &&& positioned.event == event
                    &&& positioned.origin == overlay.origin
                    &&& positioned.crossing == match crossing(
                        old(self).hovered,
                        positioned.inside,
                    ) {
                        Some(told) => Some(notice::<T>(told, event.pointer())),
                        None => None,
                    }
                    &&& final(self).hovered == positioned.inside
                    &&& final(self).pointer_route_active == old(self).pointer_route_active
                },
                None => {
                    let (after, told) = step(
                        old(self).route(),
                        route_input(event, false, false, false),
                    );
                    &&& final(self).route() == after
                    &&& routing == if told.len() == 0 {
                        Routing::Ignored
                    } else {
                        Routing::Deliver(notice::<T>(told[0], event.pointer()))
                    }
                },
            },
    {
        match event {
            PointerEvent::Enter(_) => Routing::Ignored,
            PointerEvent::Leave(pointer) => {
                let routing = if self.pointer_route_active {
                    self.pointer_route_active = false;
                    Routing::Deliver(PointerEvent::Cancel(pointer))
                } else if self.hovered {
                    Routing::Deliver(PointerEvent::Leave(pointer))
                } else {
                    Routing::Ignored
                };
                self.hovered = false;
                routing
            },
            PointerEvent::Cancel(pointer) => {
                let routing = if self.pointer_route_active || self.hovered {
                    Routing::Deliver(PointerEvent::Cancel(pointer))
                } else {
                    Routing::Ignored
                };
                self.pointer_route_active = false;
                self.hovered = false;
                routing
            },
            event => {
                let pointer = match pointer_info(&event) {
                    Some(pointer) => pointer,
                    None => return Routing::Ignored,
                };
                let position = match pointer_position(&event) {
                    Some(position) => position,
                    None => return Routing::Ignored,
                };
                let inside = overlay.contains(position);
                let crossing = if inside && !self.hovered {
                    self.hovered = true;
                    Some(PointerEvent::Enter(pointer))
                } else if !inside && self.hovered {
                    self.hovered = false;
                    Some(PointerEvent::Leave(pointer))
                } else {
                    None
                };
                Routing::Positioned(
                    PositionedEvent { crossing, event, inside, origin: overlay.origin },
                )
            },
        }
    }

    /// The second step of routing an event at a position: the event as the user interface is
    /// to see it, if it is to see it. `captured` says whether a widget has captured the
    /// pointer.
    ///
    /// The host delivers the event, asks again whether a widget has captured the pointer, and
    /// ends with [`EmbeddedUi::finish_pointer_event`].
    pub fn forward_pointer_event(&mut self, positioned: PositionedEvent<T>, captured: bool) -> (local:
        Option<PointerEvent<T>>)
        requires
            passed_on(old(self).pointer_route_active, positioned.inside, captured)
                ==> positioned.event.translatable(positioned.origin),
        ensures
            final(self).same_display(*old(self)),
            final(self).hovered == old(self).hovered,
            if passed_on(old(self).pointer_route_active, positioned.inside, captured) {
                &&& local matches Some(local)
                &&& positioned.event.translated(positioned.origin, local)
                &&& final(self).pointer_route_active == (positioned.event.buttons_active()
                    || captured)
            } else {
                &&& local is None
                &&& final(self).pointer_route_active == old(self).pointer_route_active
            },
    {
        let should_route = positioned.inside || self.pointer_route_active || captured;
        if !should_route {
            return None;
        }
        let local = translate_pointer_event(positioned.event, positioned.origin);
        self.pointer_route_active = pointer_event_buttons_active(&local) || captured;
        Some(local)
    }

    /// The last step of routing an event that was passed on. `captured` says whether a widget
    /// has captured the pointer by now.
    pub fn finish_pointer_event(&mut self, captured: bool)
        ensures
            *final(self) == (EmbeddedUi {
                pointer_route_active: old(self).pointer_route_active || captured,
                ..*old(self)
            }),
    {
        self.pointer_route_active = self.pointer_route_active || captured;
    }

    /// All of routing a pointer event, for a widget tree of which it is known beforehand
    /// whether it has captured the pointer when it is asked: the events that the user
    /// interface is told, in order.
    pub fn route_pointer_event(
        &mut self,
        event: PointerEvent<T>,
        overlay: OverlayRect<T>,
        captured: bool,
        captured_after: bool,
    ) -> (delivered: Vec<PointerEvent<T>>)
        requires
            event.snapshot() is Some ==> overlay.edges_defined(),
            event.translatable(overlay.origin),
        ensures
            final(self).same_display(*old(self)),
            exists|inside: bool|
                {
                    &&& event.snapshot() matches Some(snapshot) ==> overlay.hit(
                        snapshot.position,
                        inside,
                    )
                    &&& ({
                        let (after, told) = #[trigger] step(
                            old(self).route(),
                            route_input(event, inside, captured, captured_after),
                        );
                        &&& final(self).route() == after
                        &&& says(delivered@, told, event, overlay.origin)
                    })
                },
    {
        let mut delivered: Vec<PointerEvent<T>> = Vec::new();
        let ghost before = self.route();
        match self.begin_pointer_event(event, overlay) {
            Routing::Ignored => {
                let ghost outcome = step(before, route_input(event, false, captured, captured_after));
                assert(outcome.1.len() == 0);
            },
            Routing::Deliver(notice) => {
                delivered.push(notice);
                let ghost outcome = step(before, route_input(event, false, captured, captured_after));
                assert(outcome.1.len() == 1);
            },
            Routing::Positioned(positioned) => {
                let ghost inside = positioned.inside;
                if let Some(crossing) = positioned.crossing {
                    delivered.push(crossing);
                }
                let ghost outcome = step(before, route_input(event, inside, captured, captured_after));
                let positioned = PositionedEvent { crossing: None, ..positioned };
                if let Some(local) = self.forward_pointer_event(positioned, captured) {
                    delivered.push(local);
                    self.finish_pointer_event(captured_after);
                }
                assert(says(delivered@, outcome.1, event, overlay.origin));
            },
        }
        delivered
    }
}

/// On integers two scales are nearly equal if and only if they are less than the tolerance
/// apart.
pub proof fn law_nearly_equal_is_distance(left: i64, right: i64, tolerance: i64, answer: bool)
    requires
        gap_defined(left, right),
        nearly_equal(left, right, tolerance, answer),
    ensures
        answer == (-tolerance < left - right < tolerance),
{
}

/// Comparing the two scales comes to one answer.
pub open spec fn decided<T: Sub<Output = T> + PartialOrd>(
    left: T,
    right: T,
    tolerance: T,
) -> bool {
    !(nearly_equal(left, right, tolerance, true) && nearly_equal(left, right, tolerance, false))
}

/// Hearing of a scale again changes nothing and asks nothing of the host, whatever hearing of
/// it first did, if the scale is nearly equal to itself and to compare it with the scale before
/// comes to one answer.
pub proof fn law_same_scale_again_does_nothing<T: Sub<Output = T> + PartialOrd>(
    ui: EmbeddedUi<T>,
    scale_factor: T,
    tolerance: T,
    first_size: PhysicalSize,
    first: EmbeddedUi<T>,
    first_commands: Seq<ScaleCommand<T>>,
    second_size: PhysicalSize,
    second: EmbeddedUi<T>,
    second_commands: Seq<ScaleCommand<T>>,
)
    requires
        forall|answer: bool| #[trigger]
            nearly_equal(scale_factor, scale_factor, tolerance, answer) ==> answer,
        decided(ui.scale_factor, scale_factor, tolerance),
        ui.rescaled(scale_factor, tolerance, first_size, first, first_commands),
        first.rescaled(scale_factor, tolerance, second_size, second, second_commands),
    ensures
        second == first,
        second_commands == Seq::<ScaleCommand<T>>::empty(),
{
}

/// On integers, with a tolerance above zero, hearing of a scale again changes nothing and asks
/// nothing of the host, whatever hearing of it first did.
pub proof fn law_same_scale_again_does_nothing_on_integers(
    ui: EmbeddedUi<i64>,
    scale_factor: i64,
    tolerance: i64,
    first_size: PhysicalSize,
    first: EmbeddedUi<i64>,
    first_commands: Seq<ScaleCommand<i64>>,
    second_size: PhysicalSize,
    second: EmbeddedUi<i64>,
    second_commands: Seq<ScaleCommand<i64>>,
)
    requires
        tolerance > 0,
        gap_defined(ui.scale_factor, scale_factor),
        ui.rescaled(scale_factor, tolerance, first_size, first, first_commands),
        first.rescaled(scale_factor, tolerance, second_size, second, second_commands),
    ensures
        second == first,
        second_commands == Seq::<ScaleCommand<i64>>::empty(),
{
    law_same_scale_again_does_nothing(
        ui,
        scale_factor,
        tolerance,
        first_size,
        first,
        first_commands,
        second_size,
        second,
        second_commands,
    );
}

/// A change of scale and the change back leave the user interface at the scale and in the size
/// that it had, if to compare the two scales comes to one answer.
pub proof fn law_scale_change_is_undone<T: Sub<Output = T> + PartialOrd>(
    ui: EmbeddedUi<T>,
    scale_factor: T,
    tolerance: T,
    physical_size: PhysicalSize,
    changed: EmbeddedUi<T>,
    commands: Seq<ScaleCommand<T>>,
    restored: EmbeddedUi<T>,
    restoring_commands: Seq<ScaleCommand<T>>,
)
    requires
        decided(ui.scale_factor, scale_factor, tolerance),
        ui.rescaled(scale_factor, tolerance, physical_size, changed, commands),
        changed.rescaled(
            ui.scale_factor,
            tolerance,
            ui.physical_size,
            restored,
            restoring_commands,
        ),
    ensures
        restored.same_display(ui),
{
}

/// On integers a change of scale and the change back leave the user interface at the scale and
/// in the size that it had.
pub proof fn law_scale_change_is_undone_on_integers(
    ui: EmbeddedUi<i64>,
    scale_factor: i64,
    tolerance: i64,
    physical_size: PhysicalSize,
    changed: EmbeddedUi<i64>,
    commands: Seq<ScaleCommand<i64>>,
    restored: EmbeddedUi<i64>,
    restoring_commands: Seq<ScaleCommand<i64>>,
)
    requires
        gap_defined(ui.scale_factor, scale_factor),
        ui.rescaled(scale_factor, tolerance, physical_size, changed, commands),
        changed.rescaled(
            ui.scale_factor,
            tolerance,
            ui.physical_size,
            restored,
            restoring_commands,
        ),
    ensures
        restored.same_display(ui),
{
    law_scale_change_is_undone(
        ui,
        scale_factor,
        tolerance,
        physical_size,
        changed,
        commands,
        restored,
        restoring_commands,
    );
}

/// Where halving gives one result, the sizes alone determine where the user interface lies on
/// the window: what is hit is what was painted.
pub proof fn law_overlay_is_determined<T, C: Div<Output = C> + From<u32>>(
    painted_ui: EmbeddedUi<T>,
    hit_ui: EmbeddedUi<T>,
    window_size: PhysicalSize,
    painted: OverlayRect<C>,
    hit: OverlayRect<C>,
)
    requires
        forall|space: u32, left: C, right: C| #[trigger]
            half(space, left) && #[trigger] half(space, right) ==> left == right,
        painted_ui.physical_size == hit_ui.physical_size,
        painted_ui.overlays(window_size, painted),
        hit_ui.overlays(window_size, hit),
    ensures
        painted == hit,
{
}

/// On integers the sizes alone determine where the user interface lies on the window: what is
/// hit is what was painted.
pub proof fn law_overlay_is_determined_on_integers<T>(
    painted_ui: EmbeddedUi<T>,
    hit_ui: EmbeddedUi<T>,
    window_size: PhysicalSize,
    painted: OverlayRect<u64>,
    hit: OverlayRect<u64>,
)
    requires
        painted_ui.physical_size == hit_ui.physical_size,
        painted_ui.overlays(window_size, painted),
        hit_ui.overlays(window_size, hit),
    ensures
        painted == hit,
{
    assert forall|space: u32, left: u64, right: u64| #[trigger]
        half(space, left) && #[trigger] half(space, right) implies left == right by {
        law_half_is_unique(space, left, right);
    }
    law_overlay_is_determined(painted_ui, hit_ui, window_size, painted, hit);
}

/// After a change of scale the texture, the widget tree and the user interface have the same
/// size and scale, those that the window's new scale asks for, whether they have grown or
/// shrunk; the texture is there before the widget tree hears of it, and the pointer has to come
/// over the user interface anew. Without a change nothing is asked and all stays as it is.
pub proof fn law_rescaling_keeps_texture_and_tree_together<
    T: Copy + Sub<Output = T> + PartialOrd,
>(
    ui: &mut EmbeddedUi<T>,
    scale_factor: T,
    tolerance: T,
    physical_size: PhysicalSize,
    commands: Vec<ScaleCommand<T>>,
)
    requires
        call_ensures(
            EmbeddedUi::<T>::update_scale_factor,
            (ui, scale_factor, tolerance, physical_size),
            commands,
        ),
    ensures
        commands@.len() == 0 ==> *final(ui) == *old(ui),
        commands@.len() > 0 ==> {
            &&& commands@.len() == 3
            &&& commands@[0] matches ScaleCommand::CreateTarget(texture) && texture
                == physical_size
            &&& commands@[1] matches ScaleCommand::Rescale(told) && told == scale_factor
            &&& commands@[2] matches ScaleCommand::Resize(told) && told == physical_size
            &&& final(ui).physical_size == physical_size
            &&& final(ui).scale_factor == scale_factor
            &&& !final(ui).hovered
            &&& !final(ui).pointer_route_active
        },
{
}

/// The same of every two states and every sequence of commands that a change of scale leads
/// from and to.
pub proof fn law_rescaled_states_agree<T: Sub<Output = T> + PartialOrd>(
    ui: EmbeddedUi<T>,
    scale_factor: T,
    tolerance: T,
    physical_size: PhysicalSize,
    after: EmbeddedUi<T>,
    commands: Seq<ScaleCommand<T>>,
)
    requires
        ui.rescaled(scale_factor, tolerance, physical_size, after, commands),
    ensures
        commands.len() == 0 ==> after == ui,
        commands.len() > 0 ==> {
            &&& commands.first() == ScaleCommand::<T>::CreateTarget(after.physical_size)
            &&& commands.contains(ScaleCommand::Rescale(after.scale_factor))
            &&& commands.last() == ScaleCommand::<T>::Resize(after.physical_size)
            &&& after.physical_size == physical_size
            &&& after.scale_factor == scale_factor
            &&& after.route() == (RouteState { hovered: false, active: false })
        },
{
    if commands.len() > 0 {
        assert(commands[1] == ScaleCommand::Rescale(after.scale_factor));
    }
}

/// On integers a new scale is a change if and only if it differs from the one before by the
/// tolerance or more, whichever of the two is larger.
pub proof fn law_scale_changes_from_tolerance_on(
    ui: &mut EmbeddedUi<i64>,
    scale_factor: i64,
    tolerance: i64,
    physical_size: PhysicalSize,
    commands: Vec<ScaleCommand<i64>>,
)
    requires
        gap_defined(old(ui).scale_factor, scale_factor),
        call_ensures(
            EmbeddedUi::<i64>::update_scale_factor,
            (ui, scale_factor, tolerance, physical_size),
            commands,
        ),
    ensures
        commands@.len() > 0 <==> {
            ||| scale_factor - old(ui).scale_factor >= tolerance
            ||| old(ui).scale_factor - scale_factor >= tolerance
        },
{
    let left = old(ui).scale_factor;
    let unchanged = choose|unchanged: bool| #[trigger]
        nearly_equal(left, scale_factor, tolerance, unchanged) && (unchanged <==> commands@.len()
            == 0);
    assert(nearly_equal(left, scale_factor, tolerance, unchanged));
    law_nearly_equal_is_distance(left, scale_factor, tolerance, unchanged);
}

/// A scale is a change only where one of its differences with the one before compares as not
/// less than the tolerance, and none only where both compare as less, whatever numbers they are.
pub proof fn law_scale_is_compared_both_ways<T: Copy + Sub<Output = T> + PartialOrd>(
    ui: &mut EmbeddedUi<T>,
    scale_factor: T,
    tolerance: T,
    physical_size: PhysicalSize,
    commands: Vec<ScaleCommand<T>>,
)
    requires
        call_ensures(
            EmbeddedUi::<T>::update_scale_factor,
            (ui, scale_factor, tolerance, physical_size),
            commands,
        ),
    ensures
        commands@.len() > 0 ==> exists|gap: T|
            {
                &&& #[trigger] call_ensures(T::lt, (&gap, &tolerance), false)
                &&& call_ensures(<T as Sub>::sub, (old(ui).scale_factor, scale_factor), gap)
                    || call_ensures(<T as Sub>::sub, (scale_factor, old(ui).scale_factor), gap)
            },
        commands@.len() == 0 ==> exists|gap: T, opposite: T|
            {
                &&& #[trigger] call_ensures(T::lt, (&gap, &tolerance), true)
                &&& #[trigger] call_ensures(T::lt, (&opposite, &tolerance), true)
                &&& call_ensures(<T as Sub>::sub, (old(ui).scale_factor, scale_factor), gap)
                &&& call_ensures(<T as Sub>::sub, (scale_factor, old(ui).scale_factor), opposite)
            },
{
    let known = old(ui).scale_factor;
    let unchanged = choose|unchanged: bool| #[trigger]
        nearly_equal(known, scale_factor, tolerance, unchanged) && (unchanged <==> commands@.len()
            == 0);
    assert(nearly_equal(known, scale_factor, tolerance, unchanged));
    if exceeds_by_less(known, scale_factor, tolerance, unchanged) {
        let gap = choose|gap: T| #[trigger]
            call_ensures(<T as Sub>::sub, (known, scale_factor), gap) && call_ensures(
                T::lt,
                (&gap, &tolerance),
                unchanged,
            );
        assert(call_ensures(T::lt, (&gap, &tolerance), unchanged));
    }
    if exceeds_by_less(scale_factor, known, tolerance, unchanged) {
        let gap = choose|gap: T| #[trigger]
            call_ensures(<T as Sub>::sub, (scale_factor, known), gap) && call_ensures(
                T::lt,
                (&gap, &tolerance),
                unchanged,
            );
        assert(call_ensures(T::lt, (&gap, &tolerance), unchanged));
    }
}

/// On integers the user interface lies in the middle of the window, in the size that it is drawn
/// in: where it fits, as much of the window is free to its left as to its right and above it as
/// below it, but for the odd pixel; where it does not fit in a direction, it is flush with the
/// near edge.
pub proof fn law_overlay_is_centered<T>(
    ui: EmbeddedUi<T>,
    window_size: PhysicalSize,
    rect: OverlayRect<u64>,
)
    requires
        ui.overlays(window_size, rect),
    ensures
        rect.size == ui.physical_size,
        rect.size.width <= window_size.width ==> {
            let right = window_size.width - rect.size.width - rect.origin.x;
            rect.origin.x <= right <= rect.origin.x + 1
        },
        rect.size.height <= window_size.height ==> {
            let below = window_size.height - rect.size.height - rect.origin.y;
            rect.origin.y <= below <= rect.origin.y + 1
        },
        rect.size.width > window_size.width ==> rect.origin.x == 0,
        rect.size.height > window_size.height ==> rect.origin.y == 0,
{
    law_offset_centers(window_size.width, rect.size.width, rect.origin.x);
    law_offset_centers(window_size.height, rect.size.height, rect.origin.y);
}

/// The same of the rectangle that the host is given.
pub proof fn law_overlay_rect_is_centered<T>(
    ui: EmbeddedUi<T>,
    window_size: PhysicalSize,
    rect: OverlayRect<u64>,
)
    requires
        call_ensures(EmbeddedUi::<T>::overlay_rect::<u64>, (&ui, window_size), rect),
    ensures
        rect.size == ui.physical_size,
        ui.physical_size.width <= window_size.width ==> {
            let right = window_size.width - ui.physical_size.width - rect.origin.x;
            rect.origin.x <= right <= rect.origin.x + 1
        },
        ui.physical_size.height <= window_size.height ==> {
            let below = window_size.height - ui.physical_size.height - rect.origin.y;
            rect.origin.y <= below <= rect.origin.y + 1
        },
        ui.physical_size.width > window_size.width ==> rect.origin.x == 0,
        ui.physical_size.height > window_size.height ==> rect.origin.y == 0,
{
    law_overlay_is_centered(ui, window_size, rect);
}

/// Each coordinate of the overlay's origin is what halving the free pixels of its own direction
/// gives, whatever numbers the coordinates are.
pub proof fn law_overlay_halves_what_is_free<T, C: Div<Output = C> + From<u32>>(
    ui: EmbeddedUi<T>,
    window_size: PhysicalSize,
    rect: OverlayRect<C>,
    free_width: u32,
    free_height: u32,
)
    requires
        call_ensures(EmbeddedUi::<T>::overlay_rect::<C>, (&ui, window_size), rect),
        ui.physical_size.width <= window_size.width ==> ui.physical_size.width + free_width
            == window_size.width,
        ui.physical_size.width > window_size.width ==> free_width == 0,
        ui.physical_size.height <= window_size.height ==> ui.physical_size.height + free_height
            == window_size.height,
        ui.physical_size.height > window_size.height ==> free_height == 0,
    ensures
        exists|whole: C, two: C|
            {
                &&& #[trigger] call_ensures(<C as From<u32>>::from, (free_width,), whole)
                &&& #[trigger] call_ensures(<C as From<u32>>::from, (2u32,), two)
                &&& call_ensures(<C as Div>::div, (whole, two), rect.origin.x)
            },
        exists|whole: C, two: C|
            {
                &&& #[trigger] call_ensures(<C as From<u32>>::from, (free_height,), whole)
                &&& #[trigger] call_ensures(<C as From<u32>>::from, (2u32,), two)
                &&& call_ensures(<C as Div>::div, (whole, two), rect.origin.y)
            },
{
    assert(half(free_width, rect.origin.x));
    assert(half(free_height, rect.origin.y));
}

/// A new user interface has the scale and the size that it was given, and no pointer is over it
/// or followed.
pub proof fn law_new_ui_is_at_rest<T>(
    scale_factor: T,
    physical_size: PhysicalSize,
    ui: EmbeddedUi<T>,
)
    requires
        call_ensures(EmbeddedUi::<T>::new, (scale_factor, physical_size), ui),
    ensures
        ui.scale_factor == scale_factor,
        ui.physical_size == physical_size,
        !ui.hovered && !ui.pointer_route_active,
{
}

/// Of an event at a position, `inside` the overlay or not, the user interface is told that the
/// pointer came over it or left it, if it did, and then of the event itself as seen from the
/// overlay's origin, if the event lies on the overlay or is followed or a widget holds the
/// pointer. Afterwards the pointer is over it if and only if the position lies on the overlay,
/// and events are followed if and only if the event was passed on while a button was held or a
/// widget held the pointer, before or after it.
pub proof fn law_positioned_event_is_routed<T: Copy + PartialOrd + Add<Output = T> + Sub<Output = T> + From<u32>>(
    ui: &mut EmbeddedUi<T>,
    event: PointerEvent<T>,
    overlay: OverlayRect<T>,
    captured: bool,
    captured_after: bool,
    inside: bool,
    delivered: Vec<PointerEvent<T>>,
)
    requires
        event.snapshot() matches Some(snapshot) && forall|answer: bool| #[trigger]
            overlay.hit(snapshot.position, answer) ==> answer == inside,
        call_ensures(
            EmbeddedUi::<T>::route_pointer_event,
            (ui, event, overlay, captured, captured_after),
            delivered,
        ),
    ensures
        final(ui).physical_size == old(ui).physical_size,
        final(ui).scale_factor == old(ui).scale_factor,
        final(ui).hovered == inside,
        final(ui).pointer_route_active <==> {
            &&& inside || old(ui).pointer_route_active || captured
            &&& event.buttons_active() || captured || captured_after
        },
        ({
            let crossed = old(ui).hovered != inside;
            let reached = inside || old(ui).pointer_route_active || captured;
            &&& delivered@.len() == (if crossed {
                1int
            } else {
                0
            }) + (if reached {
                1int
            } else {
                0
            })
            &&& crossed && inside ==> delivered@[0] == PointerEvent::<T>::Enter(event.pointer())
            &&& crossed && !inside ==> delivered@[0] == PointerEvent::<T>::Leave(event.pointer())
            &&& reached ==> event.translated(overlay.origin, delivered@.last())
        }),
{
    let answer = choose|answer: bool|
        {
            &&& event.snapshot() matches Some(snapshot) ==> overlay.hit(snapshot.position, answer)
            &&& ({
                let (after, told) = #[trigger] step(
                    old(ui).route(),
                    route_input(event, answer, captured, captured_after),
                );
                &&& final(ui).route() == after
                &&& says(delivered@, told, event, overlay.origin)
            })
        };
    let input = route_input(event, answer, captured, captured_after);
    let told = step(old(ui).route(), input).1;
    assert(answer == inside);
    law_told_of_positioned(old(ui).route(), input);
    law_followed_while_held(old(ui).route(), input);
}

/// A pointer that comes over the window changes nothing. One that leaves it, or is cancelled, is
/// forgotten; the user interface hears that it was cancelled if events were followed, that it
/// left if it was merely over the user interface, and of a cancelled pointer that it was
/// cancelled in both cases. It hears of the pointer that the event is of, and hears nothing
/// where it knew of none.
pub proof fn law_window_edge_is_routed<T: Copy + PartialOrd + Add<Output = T> + Sub<Output = T> + From<u32>>(
    ui: &mut EmbeddedUi<T>,
    event: PointerEvent<T>,
    overlay: OverlayRect<T>,
    captured: bool,
    captured_after: bool,
    delivered: Vec<PointerEvent<T>>,
)
    requires
        call_ensures(
            EmbeddedUi::<T>::route_pointer_event,
            (ui, event, overlay, captured, captured_after),
            delivered,
        ),
    ensures
        event is Enter ==> *final(ui) == *old(ui) && delivered@.len() == 0,
        event is Leave || event is Cancel ==> {
            &&& final(ui).physical_size == old(ui).physical_size
            &&& final(ui).scale_factor == old(ui).scale_factor
            &&& !final(ui).hovered && !final(ui).pointer_route_active
            &&& old(ui).hovered || old(ui).pointer_route_active <==> delivered@.len() == 1
            &&& delivered@.len() <= 1
        },
        event matches PointerEvent::Leave(pointer) ==> {
            &&& old(ui).pointer_route_active ==> delivered@[0] == PointerEvent::<T>::Cancel(
                pointer,
            )
            &&& old(ui).hovered && !old(ui).pointer_route_active ==> delivered@[0]
                == PointerEvent::<T>::Leave(pointer)
        },
        event matches PointerEvent::Cancel(pointer) ==> (delivered@.len() == 1 ==> delivered@[0]
            == PointerEvent::<T>::Cancel(pointer)),
{
    if event is Enter || event is Leave || event is Cancel {
        let answer = choose|answer: bool|
            {
                let (after, told) = #[trigger] step(
                    old(ui).route(),
                    route_input(event, answer, captured, captured_after),
                );
                &&& final(ui).route() == after
                &&& says(delivered@, told, event, overlay.origin)
            };
        let told = step(
            old(ui).route(),
            route_input(event, answer, captured, captured_after),
        ).1;
    }
}

/// A press on the overlay, whatever the user interface remembered of the pointer before, is told
/// to it, and so is what the pointer does next at any position, on the overlay or beside it: a
/// drag and its release reach the user interface wherever they end.
pub proof fn law_press_on_overlay_is_followed<T: Copy + PartialOrd + Add<Output = T> + Sub<Output = T> + From<u32>>(
    pressed: &mut EmbeddedUi<T>,
    press: PointerEvent<T>,
    overlay: OverlayRect<T>,
    captured: bool,
    captured_after: bool,
    told_of_press: Vec<PointerEvent<T>>,
    dragged: &mut EmbeddedUi<T>,
    next: PointerEvent<T>,
    next_captured: bool,
    next_captured_after: bool,
    inside: bool,
    told_of_next: Vec<PointerEvent<T>>,
)
    requires
        press.snapshot() matches Some(snapshot) && forall|answer: bool| #[trigger]
            overlay.hit(snapshot.position, answer) ==> answer,
        press.buttons_active(),
        call_ensures(
            EmbeddedUi::<T>::route_pointer_event,
            (pressed, press, overlay, captured, captured_after),
            told_of_press,
        ),
        *final(pressed) == *old(dragged),
        next.snapshot() matches Some(snapshot) && forall|answer: bool| #[trigger]
            overlay.hit(snapshot.position, answer) ==> answer == inside,
        call_ensures(
            EmbeddedUi::<T>::route_pointer_event,
            (dragged, next, overlay, next_captured, next_captured_after),
            told_of_next,
        ),
    ensures
        told_of_press@.len() > 0,
        press.translated(overlay.origin, told_of_press@.last()),
        told_of_next@.len() > 0,
        next.translated(overlay.origin, told_of_next@.last()),
        !inside ==> told_of_next@[0] == PointerEvent::<T>::Leave(next.pointer()),
        next.buttons_active() ==> final(dragged).pointer_route_active,
        !next.buttons_active() && !next_captured && !next_captured_after
            ==> !final(dragged).pointer_route_active,
{
    law_positioned_event_is_routed(
        pressed,
        press,
        overlay,
        captured,
        captured_after,
        true,
        told_of_press,
    );
    law_positioned_event_is_routed(
        dragged,
        next,
        overlay,
        next_captured,
        next_captured_after,
        inside,
        told_of_next,
    );
}

/// The three steps of routing an event at a position come, one after the other, to what routing
/// it at once comes to: the crossing first, then the event as seen from the overlay's origin,
/// and the same remembered.
pub proof fn law_steps_of_routing<T: Copy + PartialOrd + Add<Output = T> + Sub<Output = T> + From<u32>>(
    begun: &mut EmbeddedUi<T>,
    event: PointerEvent<T>,
    overlay: OverlayRect<T>,
    inside: bool,
    routing: Routing<T>,
    forwarded: &mut EmbeddedUi<T>,
    captured: bool,
    local: Option<PointerEvent<T>>,
    finished: &mut EmbeddedUi<T>,
    captured_after: bool,
)
    requires
        event.snapshot() matches Some(snapshot) && forall|answer: bool| #[trigger]
            overlay.hit(snapshot.position, answer) ==> answer == inside,
        call_ensures(EmbeddedUi::<T>::begin_pointer_event, (begun, event, overlay), routing),
        *final(begun) == *old(forwarded),
        routing matches Routing::Positioned(positioned) ==> call_ensures(
            EmbeddedUi::<T>::forward_pointer_event,
            (forwarded, positioned, captured),
            local,
        ),
        *final(forwarded) == *old(finished),
        call_ensures(EmbeddedUi::<T>::finish_pointer_event, (finished, captured_after), ()),
    ensures
        routing is Positioned,
        routing->Positioned_0.event == event,
        routing->Positioned_0.inside == inside,
        routing->Positioned_0.origin == overlay.origin,
        routing->Positioned_0.crossing is Some <==> old(begun).hovered != inside,
        old(begun).hovered && !inside ==> routing->Positioned_0.crossing == Some(
            PointerEvent::<T>::Leave(event.pointer()),
        ),
        !old(begun).hovered && inside ==> routing->Positioned_0.crossing == Some(
            PointerEvent::<T>::Enter(event.pointer()),
        ),
        local is Some <==> inside || old(begun).pointer_route_active || captured,
        local matches Some(local) ==> event.translated(overlay.origin, local),
        final(finished).physical_size == old(begun).physical_size,
        final(finished).scale_factor == old(begun).scale_factor,
        final(finished).hovered == inside,
        local is Some ==> (final(finished).pointer_route_active <==> event.buttons_active()
            || captured || captured_after),
        local is None ==> !final(forwarded).pointer_route_active && final(forwarded).hovered
            == inside,
{
}

/// The first step of routing an event that happened nowhere is the only one: entering the window
/// is ignored, and leaving it and cancelling are told as when they are routed at once.
pub proof fn law_edge_is_routed_in_one_step<T: Copy + PartialOrd + Add<Output = T> + Sub<Output = T> + From<u32>>(
    ui: &mut EmbeddedUi<T>,
    event: PointerEvent<T>,
    overlay: OverlayRect<T>,
    routing: Routing<T>,
)
    requires
        event is Enter || event is Leave || event is Cancel,
        call_ensures(EmbeddedUi::<T>::begin_pointer_event, (ui, event, overlay), routing),
    ensures
        event is Enter ==> *final(ui) == *old(ui) && routing is Ignored,
        event is Leave || event is Cancel ==> {
            &&& !final(ui).hovered && !final(ui).pointer_route_active
            &&& final(ui).physical_size == old(ui).physical_size
            &&& final(ui).scale_factor == old(ui).scale_factor
            &&& routing is Ignored <==> !old(ui).hovered && !old(ui).pointer_route_active
            &&& !(routing is Positioned)
        },
        event matches PointerEvent::Leave(pointer) ==> {
            &&& old(ui).pointer_route_active ==> routing == Routing::<T>::Deliver(
                PointerEvent::Cancel(pointer),
            )
            &&& old(ui).hovered && !old(ui).pointer_route_active ==> routing == Routing::<
                T,
            >::Deliver(PointerEvent::Leave(pointer))
        },
        event matches PointerEvent::Cancel(pointer) ==> (!(routing is Ignored) ==> routing
            == Routing::<T>::Deliver(PointerEvent::Cancel(pointer))),
{
}

} // verus!
