//! Pointer events, as far as routing them looks into them.
use crate::geometry::difference;
use crate::geometry::difference_defined;
use crate::geometry::translate_position;
use crate::geometry::PhysicalPosition;
use crate::outside::held_buttons;
use crate::outside::no_buttons_held;
use core::ops::Sub;
use ui_events::pointer::PointerButton;
use ui_events::pointer::PointerButtons;
use ui_events::pointer::PointerGesture;
use ui_events::pointer::PointerInfo;
use ui_events::ScrollDelta;
use vstd::prelude::*;

verus! {

/// What a pointer was doing at one moment.
#[derive(Debug)]
pub struct PointerSnapshot<T> {
    /// Where the pointer was.
    pub position: PhysicalPosition<T>,
    /// The buttons that were held.
    pub buttons: PointerButtons,
    /// The state as the platform reported it, for all that is not read here.
    pub reported: ui_events::pointer::PointerState,
}

/// A button was pressed or released.
#[derive(Debug)]
pub struct PointerButtonEvent<T> {
    pub button: Option<PointerButton>,
    pub pointer: PointerInfo,
    pub state: PointerSnapshot<T>,
}

/// A pointer moved.
#[derive(Debug)]
pub struct PointerUpdate<T> {
    pub pointer: PointerInfo,
    pub current: PointerSnapshot<T>,
    /// The states that were left out since the event before.
    pub coalesced: Vec<PointerSnapshot<T>>,
    /// The states that are expected next.
    pub predicted: Vec<PointerSnapshot<T>>,
}

/// A scroll was requested.
#[derive(Debug)]
pub struct PointerScrollEvent<T> {
    pub pointer: PointerInfo,
    pub delta: ScrollDelta,
    pub state: PointerSnapshot<T>,
}

/// A touchpad gesture was made.
#[derive(Debug)]
pub struct PointerGestureEvent<T> {
    pub pointer: PointerInfo,
    pub gesture: PointerGesture,
    pub state: PointerSnapshot<T>,
}

/// A pointer event.
#[derive(Debug)]
pub enum PointerEvent<T> {
    Down(PointerButtonEvent<T>),
    Up(PointerButtonEvent<T>),
    Move(PointerUpdate<T>),
    Cancel(PointerInfo),
    Enter(PointerInfo),
    Leave(PointerInfo),
    Scroll(PointerScrollEvent<T>),
    Gesture(PointerGestureEvent<T>),
}

impl<T> PointerEvent<T> {
    /// Whose event it is.
    pub open spec fn pointer(self) -> PointerInfo {
        match self {
            PointerEvent::Down(event) => event.pointer,
            PointerEvent::Up(event) => event.pointer,
            PointerEvent::Move(event) => event.pointer,
            PointerEvent::Scroll(event) => event.pointer,
            PointerEvent::Gesture(event) => event.pointer,
            PointerEvent::Enter(pointer) => pointer,
            PointerEvent::Leave(pointer) => pointer,
            PointerEvent::Cancel(pointer) => pointer,
        }
    }

    /// What the pointer was doing, for an event that happened somewhere.
    pub open spec fn snapshot(self) -> Option<PointerSnapshot<T>> {
        match self {
            PointerEvent::Down(event) => Some(event.state),
            PointerEvent::Up(event) => Some(event.state),
            PointerEvent::Move(event) => Some(event.current),
            PointerEvent::Scroll(event) => Some(event.state),
            PointerEvent::Gesture(event) => Some(event.state),
            PointerEvent::Enter(_) => None,
            PointerEvent::Leave(_) => None,
            PointerEvent::Cancel(_) => None,
        }
    }

    /// Every position in the event is one of those that `holds` picks out.
    pub open spec fn every_position(self, holds: spec_fn(PhysicalPosition<T>) -> bool) -> bool {
        match self {
            PointerEvent::Move(event) => {
                &&& holds(event.current.position)
                &&& forall|i: int|
                    0 <= i < event.coalesced@.len() ==> holds(
                        (#[trigger] event.coalesced@[i]).position,
                    )
                &&& forall|i: int|
                    0 <= i < event.predicted@.len() ==> holds(
                        (#[trigger] event.predicted@[i]).position,
                    )
            },
            _ => match self.snapshot() {
                Some(snapshot) => holds(snapshot.position),
                None => true,
            },
        }
    }

    /// The two events say the same.
    pub open spec fn alike(self, other: Self) -> bool {
        match (self, other) {
            (PointerEvent::Move(event), PointerEvent::Move(other)) => {
                &&& event.pointer == other.pointer
                &&& event.current == other.current
                &&& event.coalesced@ == other.coalesced@
                &&& event.predicted@ == other.predicted@
            },
            _ => self == other,
        }
    }

    /// A button was held when the event happened.
    pub open spec fn buttons_active(self) -> bool {
        match self.snapshot() {
            Some(snapshot) => held_buttons(snapshot.buttons) != Set::<u32>::empty(),
            None => false,
        }
    }
}

/// Whose event it is. Every event has a pointer.
pub fn pointer_info<T>(event: &PointerEvent<T>) -> (info: Option<PointerInfo>)
    ensures
        info == Some(event.pointer()),
{
    match event {
        PointerEvent::Down(PointerButtonEvent { pointer, .. })
        | PointerEvent::Up(PointerButtonEvent { pointer, .. })
        | PointerEvent::Move(PointerUpdate { pointer, .. })
        | PointerEvent::Scroll(PointerScrollEvent { pointer, .. })
        | PointerEvent::Gesture(PointerGestureEvent { pointer, .. }) => Some(*pointer),
        PointerEvent::Enter(pointer)
        | PointerEvent::Leave(pointer)
        | PointerEvent::Cancel(pointer) => Some(*pointer),
    }
}

/// Where the event happened. Entering, leaving and cancelling happen nowhere in particular.
pub fn pointer_position<T: Copy>(event: &PointerEvent<T>) -> (position: Option<
    PhysicalPosition<T>,
>)
    ensures
        position == match event.snapshot() {
            Some(snapshot) => Some(snapshot.position),
            None => None,
        },
{
    match event {
        PointerEvent::Down(PointerButtonEvent { state, .. })
        | PointerEvent::Up(PointerButtonEvent { state, .. })
        | PointerEvent::Scroll(PointerScrollEvent { state, .. })
        | PointerEvent::Gesture(PointerGestureEvent { state, .. }) => Some(state.position),
        PointerEvent::Move(PointerUpdate { current, .. }) => Some(current.position),
        PointerEvent::Enter(_) | PointerEvent::Leave(_) | PointerEvent::Cancel(_) => None,
    }
}

/// Whether a button was held when the event happened.
pub fn pointer_event_buttons_active<T>(event: &PointerEvent<T>) -> (active: bool)
    ensures
        active == event.buttons_active(),
{
    match event {
        PointerEvent::Down(PointerButtonEvent { state, .. })
        | PointerEvent::Up(PointerButtonEvent { state, .. })
        | PointerEvent::Scroll(PointerScrollEvent { state, .. })
        | PointerEvent::Gesture(PointerGestureEvent { state, .. }) => !no_buttons_held(
            state.buttons,
        ),
        PointerEvent::Move(PointerUpdate { current, .. }) => !no_buttons_held(current.buttons),
        PointerEvent::Enter(_) | PointerEvent::Leave(_) | PointerEvent::Cancel(_) => false,
    }
}

/// `local` is `snapshot` with its position as seen from `origin`, and the same otherwise.
pub open spec fn snapshot_translated<T: Sub<Output = T>>(
    snapshot: PointerSnapshot<T>,
    origin: PhysicalPosition<T>,
    local: PointerSnapshot<T>,
) -> bool {
    &&& difference(snapshot.position, origin, local.position)
    &&& local.buttons == snapshot.buttons
    &&& local.reported == snapshot.reported
}

/// `local` is `snapshots` with every position as seen from `origin`, in the same order.
pub open spec fn snapshots_translated<T: Sub<Output = T>>(
    snapshots: Seq<PointerSnapshot<T>>,
    origin: PhysicalPosition<T>,
    local: Seq<PointerSnapshot<T>>,
) -> bool {
    &&& local.len() == snapshots.len()
    &&& forall|i: int|
        0 <= i < snapshots.len() ==> snapshot_translated(snapshots[i], origin, #[trigger] local[i])
}

/// Every position in `snapshots` has a difference with `origin`.
pub open spec fn snapshots_translatable<T: Sub<Output = T>>(
    snapshots: Seq<PointerSnapshot<T>>,
    origin: PhysicalPosition<T>,
) -> bool {
    forall|i: int|
        0 <= i < snapshots.len() ==> difference_defined((#[trigger] snapshots[i]).position, origin)
}

impl<T: Sub<Output = T>> PointerEvent<T> {
    /// Every position in the event has a difference with `origin`.
    pub open spec fn translatable(self, origin: PhysicalPosition<T>) -> bool {
        match self {
            PointerEvent::Move(event) => {
                &&& difference_defined(event.current.position, origin)
                &&& snapshots_translatable(event.coalesced@, origin)
                &&& snapshots_translatable(event.predicted@, origin)
            },
            _ => match self.snapshot() {
                Some(snapshot) => difference_defined(snapshot.position, origin),
                None => true,
            },
        }
    }

    /// `local` is this event with every position in it as seen from `origin`, and the same
    /// otherwise.
    pub open spec fn translated(self, origin: PhysicalPosition<T>, local: Self) -> bool {
        match (self, local) {
            (PointerEvent::Down(event), PointerEvent::Down(local)) => {
                &&& local.button == event.button
                &&& local.pointer == event.pointer
                &&& snapshot_translated(event.state, origin, local.state)
            },
            (PointerEvent::Up(event), PointerEvent::Up(local)) => {
                &&& local.button == event.button
                &&& local.pointer == event.pointer
                &&& snapshot_translated(event.state, origin, local.state)
            },
            (PointerEvent::Move(event), PointerEvent::Move(local)) => {
                &&& local.pointer == event.pointer
                &&& snapshot_translated(event.current, origin, local.current)
                &&& snapshots_translated(event.coalesced@, origin, local.coalesced@)
                &&& snapshots_translated(event.predicted@, origin, local.predicted@)
            },
            (PointerEvent::Scroll(event), PointerEvent::Scroll(local)) => {
                &&& local.pointer == event.pointer
                &&& local.delta == event.delta
                &&& snapshot_translated(event.state, origin, local.state)
            },
            (PointerEvent::Gesture(event), PointerEvent::Gesture(local)) => {
                &&& local.pointer == event.pointer
                &&& local.gesture == event.gesture
                &&& snapshot_translated(event.state, origin, local.state)
            },
            (PointerEvent::Cancel(pointer), PointerEvent::Cancel(local)) => local == pointer,
            (PointerEvent::Enter(pointer), PointerEvent::Enter(local)) => local == pointer,
            (PointerEvent::Leave(pointer), PointerEvent::Leave(local)) => local == pointer,
            _ => false,
        }
    }
}

/// Moves every position in `snapshots` to where it lies as seen from `origin`.
fn translate_snapshots<T: Copy + Sub<Output = T>>(
    snapshots: &mut Vec<PointerSnapshot<T>>,
    origin: PhysicalPosition<T>,
)
    requires
        snapshots_translatable(old(snapshots)@, origin),
    ensures
        snapshots_translated(old(snapshots)@, origin, final(snapshots)@),
{
    let mut i: usize = 0;
    while i < snapshots.len()
        invariant
            i <= snapshots.len(),
            snapshots.len() == old(snapshots).len(),
            snapshots_translatable(old(snapshots)@, origin),
            forall|j: int|
                0 <= j < i ==> snapshot_translated(
                    old(snapshots)@[j],
                    origin,
                    #[trigger] snapshots@[j],
                ),
            forall|j: int| i <= j < snapshots.len() ==> snapshots@[j] == old(snapshots)@[j],
        decreases snapshots.len() - i,
    {
        let local = translate_position(snapshots[i].position, origin);
        snapshots[i].position = local;
        i += 1;
    }
}

/// The event as the user interface sees it whose upper left corner is at `origin`.
pub fn translate_pointer_event<T: Copy + Sub<Output = T>>(
    event: PointerEvent<T>,
    origin: PhysicalPosition<T>,
) -> (local: PointerEvent<T>)
    requires
        event.translatable(origin),
    ensures
        event.translated(origin, local),
{
    match event {
        PointerEvent::Down(mut event) => {
            event.state.position = translate_position(event.state.position, origin);
            PointerEvent::Down(event)
        },
        PointerEvent::Up(mut event) => {
            event.state.position = translate_position(event.state.position, origin);
            PointerEvent::Up(event)
        },
        PointerEvent::Move(mut event) => {
            event.current.position = translate_position(event.current.position, origin);
            translate_snapshots(&mut event.coalesced, origin);
            translate_snapshots(&mut event.predicted, origin);
            PointerEvent::Move(event)
        },
        PointerEvent::Scroll(mut event) => {
            event.state.position = translate_position(event.state.position, origin);
            PointerEvent::Scroll(event)
        },
        PointerEvent::Gesture(mut event) => {
            event.state.position = translate_position(event.state.position, origin);
            PointerEvent::Gesture(event)
        },
        PointerEvent::Cancel(pointer) => PointerEvent::Cancel(pointer),
        PointerEvent::Enter(pointer) => PointerEvent::Enter(pointer),
        PointerEvent::Leave(pointer) => PointerEvent::Leave(pointer),
    }
}

/// Translating an event changes neither whose event it is, nor whether it happened
/// somewhere, nor which buttons were held.
pub proof fn law_translation_keeps_pointer_and_buttons<T: Sub<Output = T>>(
    event: PointerEvent<T>,
    origin: PhysicalPosition<T>,
    local: PointerEvent<T>,
)
    requires
        event.translated(origin, local),
    ensures
        local.pointer() == event.pointer(),
        local.snapshot() is Some <==> event.snapshot() is Some,
        local.buttons_active() == event.buttons_active(),
{
}

/// Seen from `first` and then from `second`, the position is where it is seen from `sum`.
pub open spec fn adds_up_at<T: Sub<Output = T>>(
    position: PhysicalPosition<T>,
    first: PhysicalPosition<T>,
    second: PhysicalPosition<T>,
    sum: PhysicalPosition<T>,
) -> bool {
    forall|
        middle: PhysicalPosition<T>,
        local: PhysicalPosition<T>,
        direct: PhysicalPosition<T>,
    |
        #![trigger difference(position, first, middle), difference(middle, second, local), difference(position, sum, direct)]
        difference(position, first, middle) && difference(middle, second, local) && difference(
            position,
            sum,
            direct,
        ) ==> direct == local
}

/// Seen from `origin` and then from `opposite`, the position is where it was.
pub open spec fn undone_at<T: Sub<Output = T>>(
    position: PhysicalPosition<T>,
    origin: PhysicalPosition<T>,
    opposite: PhysicalPosition<T>,
) -> bool {
    forall|local: PhysicalPosition<T>, restored: PhysicalPosition<T>|
        #![trigger difference(position, origin, local), difference(local, opposite, restored)]
        difference(position, origin, local) && difference(local, opposite, restored) ==> restored
            == position
}

/// Seen from `zero`, the position is where it was.
pub open spec fn unmoved_at<T: Sub<Output = T>>(
    position: PhysicalPosition<T>,
    zero: PhysicalPosition<T>,
) -> bool {
    forall|local: PhysicalPosition<T>| #[trigger]
        difference(position, zero, local) ==> local == position
}

/// Translating to one origin and from there to another is translating to a third at once, if
/// that holds of every position in the event.
pub proof fn law_translations_add<T: Sub<Output = T>>(
    event: PointerEvent<T>,
    first: PhysicalPosition<T>,
    middle: PointerEvent<T>,
    second: PhysicalPosition<T>,
    local: PointerEvent<T>,
    sum: PhysicalPosition<T>,
    direct: PointerEvent<T>,
)
    requires
        event.every_position(|position| adds_up_at(position, first, second, sum)),
        event.translated(first, middle),
        middle.translated(second, local),
        event.translated(sum, direct),
    ensures
        direct.alike(local),
{
    match (event, middle, local, direct) {
        (
            PointerEvent::Move(event),
            PointerEvent::Move(middle),
            PointerEvent::Move(local),
            PointerEvent::Move(direct),
        ) => {
            assert forall|i: int| 0 <= i < event.coalesced@.len() implies direct.coalesced@[i]
                == local.coalesced@[i] by {
                let position = event.coalesced@[i].position;
                assert(adds_up_at(position, first, second, sum));
                assert(snapshot_translated(event.coalesced@[i], first, middle.coalesced@[i]));
            }
            assert(direct.coalesced@ =~= local.coalesced@);
            assert forall|i: int| 0 <= i < event.predicted@.len() implies direct.predicted@[i]
                == local.predicted@[i] by {
                let position = event.predicted@[i].position;
                assert(adds_up_at(position, first, second, sum));
                assert(snapshot_translated(event.predicted@[i], first, middle.predicted@[i]));
            }
            assert(direct.predicted@ =~= local.predicted@);
        },
        _ => {},
    }
}

/// Translating to the opposite origin undoes a translation, if that holds of every position in
/// the event.
pub proof fn law_opposite_translation_undoes<T: Sub<Output = T>>(
    event: PointerEvent<T>,
    origin: PhysicalPosition<T>,
    local: PointerEvent<T>,
    opposite: PhysicalPosition<T>,
    restored: PointerEvent<T>,
)
    requires
        event.every_position(|position| undone_at(position, origin, opposite)),
        event.translated(origin, local),
        local.translated(opposite, restored),
    ensures
        restored.alike(event),
{
    match (event, local, restored) {
        (
            PointerEvent::Move(event),
            PointerEvent::Move(local),
            PointerEvent::Move(restored),
        ) => {
            assert forall|i: int| 0 <= i < event.coalesced@.len() implies restored.coalesced@[i]
                == event.coalesced@[i] by {
                assert(undone_at(event.coalesced@[i].position, origin, opposite));
                assert(snapshot_translated(event.coalesced@[i], origin, local.coalesced@[i]));
            }
            assert(restored.coalesced@ =~= event.coalesced@);
            assert forall|i: int| 0 <= i < event.predicted@.len() implies restored.predicted@[i]
                == event.predicted@[i] by {
                assert(undone_at(event.predicted@[i].position, origin, opposite));
                assert(snapshot_translated(event.predicted@[i], origin, local.predicted@[i]));
            }
            assert(restored.predicted@ =~= event.predicted@);
        },
        _ => {},
    }
}

/// Translating to an origin from which every position in the event is seen where it was
/// changes nothing.
pub proof fn law_zero_translation_changes_nothing<T: Sub<Output = T>>(
    event: PointerEvent<T>,
    zero: PhysicalPosition<T>,
    local: PointerEvent<T>,
)
    requires
        event.every_position(|position| unmoved_at(position, zero)),
        event.translated(zero, local),
    ensures
        local.alike(event),
{
    match (event, local) {
        (PointerEvent::Move(event), PointerEvent::Move(local)) => {
            assert forall|i: int| 0 <= i < event.coalesced@.len() implies local.coalesced@[i]
                == event.coalesced@[i] by {
                assert(unmoved_at(event.coalesced@[i].position, zero));
            }
            assert(local.coalesced@ =~= event.coalesced@);
            assert forall|i: int| 0 <= i < event.predicted@.len() implies local.predicted@[i]
                == event.predicted@[i] by {
                assert(unmoved_at(event.predicted@[i].position, zero));
            }
            assert(local.predicted@ =~= event.predicted@);
        },
        _ => {},
    }
}

/// On integers translating to one origin and from there to another is translating to their sum
/// at once.
pub proof fn law_translations_add_on_integers(
    event: PointerEvent<i64>,
    first: PhysicalPosition<i64>,
    middle: PointerEvent<i64>,
    second: PhysicalPosition<i64>,
    local: PointerEvent<i64>,
    sum: PhysicalPosition<i64>,
    direct: PointerEvent<i64>,
)
    requires
        event.translatable(first),
        event.translated(first, middle),
        middle.translatable(second),
        middle.translated(second, local),
        sum.x == first.x + second.x,
        sum.y == first.y + second.y,
        event.translated(sum, direct),
    ensures
        event.translatable(sum),
        direct.alike(local),
{
    match (event, middle) {
        (PointerEvent::Move(event), PointerEvent::Move(middle)) => {
            lemma_snapshots_translatable_to_sum(
                event.coalesced@,
                first,
                middle.coalesced@,
                second,
                sum,
            );
            lemma_snapshots_translatable_to_sum(
                event.predicted@,
                first,
                middle.predicted@,
                second,
                sum,
            );
        },
        _ => {},
    }
    assert forall|position: PhysicalPosition<i64>|
        difference_defined(position, first) && difference_defined(
            position,
            sum,
        ) implies #[trigger] adds_up_at(position, first, second, sum) by {}
    law_translations_add(event, first, middle, second, local, sum, direct);
}

/// Positions that can be seen from `first` and then from `second` can be seen from the sum.
proof fn lemma_snapshots_translatable_to_sum(
    snapshots: Seq<PointerSnapshot<i64>>,
    first: PhysicalPosition<i64>,
    middle: Seq<PointerSnapshot<i64>>,
    second: PhysicalPosition<i64>,
    sum: PhysicalPosition<i64>,
)
    requires
        snapshots_translatable(snapshots, first),
        snapshots_translated(snapshots, first, middle),
        snapshots_translatable(middle, second),
        sum.x == first.x + second.x,
        sum.y == first.y + second.y,
    ensures
        snapshots_translatable(snapshots, sum),
{
    assert forall|i: int| 0 <= i < snapshots.len() implies difference_defined(
        (#[trigger] snapshots[i]).position,
        sum,
    ) by {
        assert(snapshot_translated(snapshots[i], first, middle[i]));
        assert(difference_defined(middle[i].position, second));
    }
}

/// On integers translating to the opposite origin undoes a translation.
pub proof fn law_opposite_translation_undoes_on_integers(
    event: PointerEvent<i64>,
    origin: PhysicalPosition<i64>,
    local: PointerEvent<i64>,
    opposite: PhysicalPosition<i64>,
    restored: PointerEvent<i64>,
)
    requires
        event.translatable(origin),
        event.translated(origin, local),
        opposite.x == -origin.x,
        opposite.y == -origin.y,
        local.translated(opposite, restored),
    ensures
        local.translatable(opposite),
        restored.alike(event),
{
    assert forall|position: PhysicalPosition<i64>|
        difference_defined(position, origin) implies #[trigger] undone_at(
        position,
        origin,
        opposite,
    ) by {}
    law_opposite_translation_undoes(event, origin, local, opposite, restored);
}

/// On integers translating to the zero origin changes nothing.
pub proof fn law_zero_translation_changes_nothing_on_integers(
    event: PointerEvent<i64>,
    zero: PhysicalPosition<i64>,
    local: PointerEvent<i64>,
)
    requires
        zero.x == 0,
        zero.y == 0,
        event.translated(zero, local),
    ensures
        event.translatable(zero),
        local.alike(event),
{
    assert forall|position: PhysicalPosition<i64>| #[trigger] unmoved_at(position, zero) by {}
    law_zero_translation_changes_nothing(event, zero, local);
}

/// Every event names the pointer that it carries as its own.
pub proof fn law_pointer_is_the_carried_one<T>(
    event: PointerEvent<T>,
    info: Option<PointerInfo>,
)
    requires
        call_ensures(pointer_info::<T>, (&event,), info),
    ensures
        event matches PointerEvent::Down(carried) ==> info == Some(carried.pointer),
        event matches PointerEvent::Up(carried) ==> info == Some(carried.pointer),
        event matches PointerEvent::Move(carried) ==> info == Some(carried.pointer),
        event matches PointerEvent::Scroll(carried) ==> info == Some(carried.pointer),
        event matches PointerEvent::Gesture(carried) ==> info == Some(carried.pointer),
        event matches PointerEvent::Enter(carried) ==> info == Some(carried),
        event matches PointerEvent::Leave(carried) ==> info == Some(carried),
        event matches PointerEvent::Cancel(carried) ==> info == Some(carried),
{
}

/// An event happened where its state says the pointer was, a movement where it is now; entering,
/// leaving and cancelling, and nothing else, happened nowhere.
pub proof fn law_position_is_the_carried_one<T: Copy>(
    event: PointerEvent<T>,
    position: Option<PhysicalPosition<T>>,
)
    requires
        call_ensures(pointer_position::<T>, (&event,), position),
    ensures
        position is None <==> event is Enter || event is Leave || event is Cancel,
        event matches PointerEvent::Down(carried) ==> position == Some(carried.state.position),
        event matches PointerEvent::Up(carried) ==> position == Some(carried.state.position),
        event matches PointerEvent::Move(carried) ==> position == Some(
            carried.current.position,
        ),
        event matches PointerEvent::Scroll(carried) ==> position == Some(carried.state.position),
        event matches PointerEvent::Gesture(carried) ==> position == Some(
            carried.state.position,
        ),
{
}

/// A button was held when the event happened if and only if one is in the state that the event
/// carries, which entering, leaving and cancelling do not.
pub proof fn law_buttons_are_the_carried_ones<T>(event: PointerEvent<T>, active: bool)
    requires
        call_ensures(pointer_event_buttons_active::<T>, (&event,), active),
    ensures
        event is Enter || event is Leave || event is Cancel ==> !active,
        event matches PointerEvent::Down(carried) ==> (active <==> exists|button: u32| #[trigger]
            held_buttons(carried.state.buttons).contains(button)),
        event matches PointerEvent::Up(carried) ==> (active <==> exists|button: u32| #[trigger]
            held_buttons(carried.state.buttons).contains(button)),
        event matches PointerEvent::Move(carried) ==> (active <==> exists|button: u32| #[trigger]
            held_buttons(carried.current.buttons).contains(button)),
        event matches PointerEvent::Scroll(carried) ==> (active <==> exists|button: u32|
         #[trigger]
            held_buttons(carried.state.buttons).contains(button)),
        event matches PointerEvent::Gesture(carried) ==> (active <==> exists|button: u32|
         #[trigger]
            held_buttons(carried.state.buttons).contains(button)),
{
    if let Some(snapshot) = event.snapshot() {
        let held = held_buttons(snapshot.buttons);
        if forall|button: u32| !#[trigger] held.contains(button) {
            assert(held =~= Set::<u32>::empty());
        }
    }
}

/// On integers a translated event is of the same kind and the same in everything but its
/// positions, and each of those, together with the origin, makes up the position it stands for:
/// the current one and, in the same order and number, those that were left out and those that
/// are expected.
pub proof fn law_translated_positions_add_up(
    event: PointerEvent<i64>,
    origin: PhysicalPosition<i64>,
    local: PointerEvent<i64>,
)
    requires
        event.translatable(origin),
        event.translated(origin, local),
    ensures
        event is Down <==> local is Down,
        event is Up <==> local is Up,
        event is Move <==> local is Move,
        event is Scroll <==> local is Scroll,
        event is Gesture <==> local is Gesture,
        event is Enter || event is Leave || event is Cancel ==> local == event,
        event is Down ==> {
            &&& local->Down_0.button == event->Down_0.button
            &&& local->Down_0.pointer == event->Down_0.pointer
            &&& is_seen_from(event->Down_0.state, origin, local->Down_0.state)
        },
        event is Up ==> {
            &&& local->Up_0.button == event->Up_0.button
            &&& local->Up_0.pointer == event->Up_0.pointer
            &&& is_seen_from(event->Up_0.state, origin, local->Up_0.state)
        },
        event is Scroll ==> {
            &&& local->Scroll_0.delta == event->Scroll_0.delta
            &&& local->Scroll_0.pointer == event->Scroll_0.pointer
            &&& is_seen_from(event->Scroll_0.state, origin, local->Scroll_0.state)
        },
        event is Gesture ==> {
            &&& local->Gesture_0.gesture == event->Gesture_0.gesture
            &&& local->Gesture_0.pointer == event->Gesture_0.pointer
            &&& is_seen_from(event->Gesture_0.state, origin, local->Gesture_0.state)
        },
        event is Move ==> {
            let (from, to) = (event->Move_0, local->Move_0);
            &&& to.pointer == from.pointer
            &&& is_seen_from(from.current, origin, to.current)
            &&& to.coalesced@.len() == from.coalesced@.len()
            &&& to.predicted@.len() == from.predicted@.len()
            &&& forall|i: int|
                0 <= i < from.coalesced@.len() ==> is_seen_from(
                    from.coalesced@[i],
                    origin,
                    #[trigger] to.coalesced@[i],
                )
            &&& forall|i: int|
                0 <= i < from.predicted@.len() ==> is_seen_from(
                    from.predicted@[i],
                    origin,
                    #[trigger] to.predicted@[i],
                )
        },
{
    if event is Move {
        let (from, to) = (event->Move_0, local->Move_0);
        assert forall|i: int| 0 <= i < from.coalesced@.len() implies is_seen_from(
            from.coalesced@[i],
            origin,
            #[trigger] to.coalesced@[i],
        ) by {
            assert(difference_defined(from.coalesced@[i].position, origin));
        }
        assert forall|i: int| 0 <= i < from.predicted@.len() implies is_seen_from(
            from.predicted@[i],
            origin,
            #[trigger] to.predicted@[i],
        ) by {
            assert(difference_defined(from.predicted@[i].position, origin));
        }
    }
}

/// `local` and `origin` make up the position of `snapshot`, and all else is the same.
pub open spec fn is_seen_from(
    snapshot: PointerSnapshot<i64>,
    origin: PhysicalPosition<i64>,
    local: PointerSnapshot<i64>,
) -> bool {
    &&& origin.x + local.position.x == snapshot.position.x
    &&& origin.y + local.position.y == snapshot.position.y
    &&& local.buttons == snapshot.buttons
    &&& local.reported == snapshot.reported
}

/// What translating an event gives is the event as seen from the origin, whatever the
/// coordinates are: where it happened is what taking the origin from the position gives.
pub proof fn law_translating_gives_the_translated_event<T: Copy + Sub<Output = T>>(
    event: PointerEvent<T>,
    origin: PhysicalPosition<T>,
    local: PointerEvent<T>,
)
    requires
        call_ensures(translate_pointer_event::<T>, (event, origin), local),
    ensures
        event.translated(origin, local),
        event.snapshot() is Some ==> {
            let (from, to) = (event.snapshot()->0.position, local.snapshot()->0.position);
            &&& call_ensures(<T as Sub>::sub, (from.x, origin.x), to.x)
            &&& call_ensures(<T as Sub>::sub, (from.y, origin.y), to.y)
        },
{
}

} // verus!
