//! Which pointer events the user interface gets to see: the rules, as a state machine.
//!
//! The window and the user interface have different ideas of where a pointer is: the window
//! hears of every pointer over it, the user interface covers a part of the window only. The
//! machine here says, for each thing the window hears, what the user interface is told.
use vstd::prelude::*;

verus! {

/// What is remembered from one pointer event to the next.
pub ghost struct RouteState {
    /// The user interface believes that a pointer is over it.
    pub hovered: bool,
    /// Events go to the user interface wherever they happen.
    pub active: bool,
}

/// What the window hears.
pub ghost enum RouteInput {
    /// A pointer came over the window.
    Entered,
    /// A pointer left the window.
    Left,
    /// What a pointer was doing was cancelled.
    Cancelled,
    /// Something happened at a position.
    Positioned {
        /// The position lies on the user interface.
        inside: bool,
        /// A button was held.
        buttons: bool,
        /// A widget had captured the pointer, before the event was passed on.
        captured: bool,
        /// A widget has captured the pointer, now that the event was passed on.
        captured_after: bool,
    },
}

/// What the user interface is told.
pub ghost enum Told {
    /// A pointer came over it.
    Enter,
    /// The pointer left it.
    Leave,
    /// What the pointer was doing was cancelled.
    Cancel,
    /// What the window heard, as seen from the user interface.
    Event,
}

/// No pointer is over the user interface and none is followed.
pub open spec fn at_rest() -> RouteState {
    RouteState { hovered: false, active: false }
}

/// What the user interface is told before an event at a position, so that it knows whether
/// the pointer is over it.
pub open spec fn crossing(hovered: bool, inside: bool) -> Option<Told> {
    if inside && !hovered {
        Some(Told::Enter)
    } else if !inside && hovered {
        Some(Told::Leave)
    } else {
        None
    }
}

/// An event at a position is passed on.
pub open spec fn passed_on(active: bool, inside: bool, captured: bool) -> bool {
    inside || active || captured
}

/// The thing told, as a sequence.
pub open spec fn once(told: Option<Told>) -> Seq<Told> {
    match told {
        Some(told) => seq![told],
        None => seq![],
    }
}

/// One event: what is remembered after it, and what the user interface is told.
pub open spec fn step(state: RouteState, input: RouteInput) -> (RouteState, Seq<Told>) {
    match input {
        RouteInput::Entered => (state, seq![]),
        RouteInput::Left => (
            at_rest(),
            if state.active {
                seq![Told::Cancel]
            } else if state.hovered {
                seq![Told::Leave]
            } else {
                seq![]
            },
        ),
        RouteInput::Cancelled => (
            at_rest(),
            if state.active || state.hovered {
                seq![Told::Cancel]
            } else {
                seq![]
            },
        ),
        RouteInput::Positioned { inside, buttons, captured, captured_after } => if passed_on(
            state.active,
            inside,
            captured,
        ) {
            (
                RouteState { hovered: inside, active: buttons || captured || captured_after },
                once(crossing(state.hovered, inside)).push(Told::Event),
            )
        } else {
            (RouteState { hovered: inside, ..state }, once(crossing(state.hovered, inside)))
        },
    }
}

/// A sequence of events, one after the other.
pub open spec fn run(state: RouteState, inputs: Seq<RouteInput>) -> (RouteState, Seq<Told>)
    decreases inputs.len(),
{
    if inputs.len() == 0 {
        (state, seq![])
    } else {
        let (before, told) = run(state, inputs.drop_last());
        let (after, more) = step(before, inputs.last());
        (after, told + more)
    }
}

/// Whether the user interface, from all it was told, knows a pointer to be over it.
pub open spec fn knows_pointer(told: Seq<Told>) -> bool
    decreases told.len(),
{
    if told.len() == 0 {
        false
    } else {
        match told.last() {
            Told::Enter => true,
            Told::Leave => false,
            Told::Cancel => false,
            Told::Event => knows_pointer(told.drop_last()),
        }
    }
}

/// The user interface is told of a pointer coming only when it knows of none, and of the
/// pointer leaving only when it knows of one.
pub open spec fn bracketed(told: Seq<Told>) -> bool {
    forall|i: int|
        #![trigger told[i]]
        0 <= i < told.len() ==> {
            &&& told[i] is Enter ==> !knows_pointer(told.take(i))
            &&& told[i] is Leave ==> knows_pointer(told.take(i))
        }
}

/// One thing more keeps what is told bracketed, if it fits what the user interface knows.
proof fn lemma_bracketed_push(told: Seq<Told>, next: Told)
    requires
        bracketed(told),
        next is Enter ==> !knows_pointer(told),
        next is Leave ==> knows_pointer(told),
    ensures
        bracketed(told.push(next)),
        knows_pointer(told.push(next)) == match next {
            Told::Enter => true,
            Told::Leave => false,
            Told::Cancel => false,
            Told::Event => knows_pointer(told),
        },
{
    let longer = told.push(next);
    assert(longer.drop_last() =~= told);
    assert forall|i: int| 0 <= i < longer.len() implies {
        &&& (#[trigger] longer[i]) is Enter ==> !knows_pointer(longer.take(i))
        &&& longer[i] is Leave ==> knows_pointer(longer.take(i))
    } by {
        if i < told.len() {
            assert(longer.take(i) =~= told.take(i));
            assert(longer[i] == told[i]);
        } else {
            assert(longer.take(i) =~= told);
        }
    }
}

/// Whatever happens from a state in which no pointer is over the user interface, what is
/// remembered of the pointer being over it is what the user interface knows from all it was
/// told since, and it is told of a pointer coming and leaving in turns.
pub proof fn law_hover_follows_what_was_told(start: RouteState, inputs: Seq<RouteInput>)
    requires
        !start.hovered,
    ensures
        run(start, inputs).0.hovered == knows_pointer(run(start, inputs).1),
        bracketed(run(start, inputs).1),
    decreases inputs.len(),
{
    if inputs.len() > 0 {
        law_hover_follows_what_was_told(start, inputs.drop_last());
        let (before, told) = run(start, inputs.drop_last());
        let (after, more) = step(before, inputs.last());
        if more.len() == 0 {
            assert(told + more =~= told);
        } else {
            lemma_bracketed_push(told, more[0]);
            if more.len() == 1 {
                assert(told + more =~= told.push(more[0]));
            } else {
                lemma_bracketed_push(told.push(more[0]), more[1]);
                assert(told + more =~= told.push(more[0]).push(more[1]));
            }
        }
    }
}

/// Once a pointer has left the window, or what it was doing was cancelled, nothing of it is
/// remembered, and a user interface that knew of the pointer or followed it was told.
pub proof fn law_leaving_forgets(state: RouteState, input: RouteInput)
    requires
        input is Left || input is Cancelled,
    ensures
        step(state, input).0 == at_rest(),
        state == at_rest() <==> step(state, input).1 == Seq::<Told>::empty(),
        state != at_rest() ==> step(state, input).1.len() == 1 && !knows_pointer(
            step(state, input).1,
        ),
{
    if state != at_rest() {
        assert(step(state, input).1.len() == 1);
    }
}

/// An event beside the user interface reaches it only if events were already going to it or
/// a widget has captured the pointer: a press that begins elsewhere stays elsewhere.
pub proof fn law_outside_stays_outside(state: RouteState, buttons: bool, captured_after: bool)
    requires
        !state.active,
    ensures
        ({
            let input = RouteInput::Positioned {
                inside: false,
                buttons,
                captured: false,
                captured_after,
            };
            let (after, told) = step(state, input);
            &&& !told.contains(Told::Event)
            &&& after == at_rest()
        }),
{
}

/// A pointer that is held down on the user interface is followed wherever it goes, until the
/// first event without a button: each of its events is passed on.
pub proof fn law_drag_is_followed(state: RouteState, inputs: Seq<RouteInput>)
    requires
        state.active,
        forall|i: int|
            0 <= i < inputs.len() ==> (#[trigger] inputs[i] matches RouteInput::Positioned {
                buttons,
                ..
            } && buttons),
    ensures
        run(state, inputs).0.active,
        forall|i: int|
            0 <= i < inputs.len() ==> step(
                run(state, inputs.take(i)).0,
                #[trigger] inputs[i],
            ).1.contains(Told::Event),
    decreases inputs.len(),
{
    if inputs.len() > 0 {
        let before = inputs.drop_last();
        law_drag_is_followed(state, before);
        assert forall|i: int| 0 <= i < inputs.len() implies step(
            run(state, inputs.take(i)).0,
            #[trigger] inputs[i],
        ).1.contains(Told::Event) by {
            if i < before.len() {
                assert(inputs.take(i) =~= before.take(i));
                assert(inputs[i] == before[i]);
            } else {
                assert(inputs.take(i) =~= before);
                let told = step(run(state, before).0, inputs[i]).1;
                assert(told[told.len() - 1] == Told::Event);
            }
        }
    }
}

/// The event without a button that ends a drag is still passed on, and after it, if no widget
/// holds the pointer, events are followed no more.
pub proof fn law_release_ends_drag(state: RouteState, inside: bool)
    requires
        state.active,
    ensures
        ({
            let input = RouteInput::Positioned {
                inside,
                buttons: false,
                captured: false,
                captured_after: false,
            };
            let (after, told) = step(state, input);
            &&& told.contains(Told::Event)
            &&& !after.active
            &&& after.hovered == inside
        }),
{
    let input = RouteInput::Positioned {
        inside,
        buttons: false,
        captured: false,
        captured_after: false,
    };
    let told = step(state, input).1;
    assert(told[told.len() - 1] == Told::Event);
}

/// A widget that captures the pointer while an event is passed on gets the pointer's next
/// event too, wherever it happens.
pub proof fn law_capture_is_followed(
    state: RouteState,
    first: RouteInput,
    second: RouteInput,
)
    requires
        first matches RouteInput::Positioned { inside, captured, captured_after, .. }
            && passed_on(state.active, inside, captured) && captured_after,
        second is Positioned,
    ensures
        step(step(state, first).0, second).1.contains(Told::Event),
{
    let told = step(step(state, first).0, second).1;
    assert(told[told.len() - 1] == Told::Event);
}

/// An event on the user interface is the last thing it is told, and it knows by then that
/// the pointer is over it.
pub proof fn law_event_comes_after_enter(state: RouteState, told: Seq<Told>, input: RouteInput)
    requires
        state.hovered == knows_pointer(told),
        input matches RouteInput::Positioned { inside, .. } && inside,
    ensures
        ({
            let more = step(state, input).1;
            &&& more.len() > 0
            &&& more.last() == Told::Event
            &&& knows_pointer(told + more.drop_last())
        }),
{
    let more = step(state, input).1;
    if state.hovered {
        assert(told + more.drop_last() =~= told);
    } else {
        assert(told + more.drop_last() =~= told.push(Told::Enter));
    }
}

/// After an event at a position, events are followed if and only if the event reached the user
/// interface and a button was held or a widget held the pointer, before the event or after it:
/// whether the pointer was over the user interface before makes no difference.
pub proof fn law_followed_while_held(state: RouteState, input: RouteInput)
    requires
        input is Positioned,
    ensures
        step(state, input).0.active <==> {
            &&& input->inside || state.active || input->captured
            &&& input->buttons || input->captured || input->captured_after
        },
{
}

/// A press on the user interface, from any state, is passed on, and so is every event after it
/// as long as a button is held, wherever it happens.
pub proof fn law_press_begins_drag(state: RouteState, press: RouteInput, inputs: Seq<RouteInput>)
    requires
        press is Positioned,
        press->inside,
        press->buttons,
        forall|i: int|
            0 <= i < inputs.len() ==> (#[trigger] inputs[i]) is Positioned && inputs[i]->buttons,
    ensures
        step(state, press).1.contains(Told::Event),
        step(state, press).0.active,
        run(step(state, press).0, inputs).0.active,
        forall|i: int|
            0 <= i < inputs.len() ==> step(
                run(step(state, press).0, inputs.take(i)).0,
                #[trigger] inputs[i],
            ).1.contains(Told::Event),
{
    let told = step(state, press).1;
    assert(told[told.len() - 1] == Told::Event);
    law_drag_is_followed(step(state, press).0, inputs);
}

/// After an event at a position, what is remembered of the pointer being over the user
/// interface is whether the position lies on it. A pointer that comes over the window changes
/// nothing, and the user interface is not told.
pub proof fn law_hover_is_where_the_pointer_is(state: RouteState, input: RouteInput)
    requires
        input is Positioned || input is Entered,
    ensures
        input is Positioned ==> step(state, input).0.hovered == input->inside,
        input is Entered ==> step(state, input).0 == state && step(state, input).1.len() == 0,
{
}

/// Of an event at a position the user interface is told that the pointer came or left, if and
/// only if it did since the event before, and then of the event itself, if and only if it lies
/// on the user interface or is followed or a widget holds the pointer; and of nothing else.
pub proof fn law_told_of_positioned(state: RouteState, input: RouteInput)
    requires
        input is Positioned,
    ensures
        ({
            let told = step(state, input).1;
            let crossed = state.hovered != input->inside;
            let reached = input->inside || state.active || input->captured;
            &&& told.len() == (if crossed {
                1int
            } else {
                0
            }) + (if reached {
                1int
            } else {
                0
            })
            &&& crossed && input->inside ==> told[0] == Told::Enter
            &&& crossed && !input->inside ==> told[0] == Told::Leave
            &&& reached ==> told[told.len() - 1] == Told::Event
        }),
{
}

/// Of a pointer that leaves the window the user interface hears as of one that was cancelled if
/// and only if events were followed, and as of one that left it if and only if it was over it
/// and events were not followed. Of a cancelled pointer it hears as cancelled if and only if
/// it knew of the pointer or events were followed. It hears of nothing else.
pub proof fn law_told_of_leaving(state: RouteState)
    ensures
        ({
            let told = step(state, RouteInput::Left).1;
            &&& told.len() <= 1
            &&& told.contains(Told::Cancel) <==> state.active
            &&& told.contains(Told::Leave) <==> state.hovered && !state.active
            &&& told.len() == 1 <==> state.hovered || state.active
        }),
        ({
            let told = step(state, RouteInput::Cancelled).1;
            &&& told.len() <= 1
            &&& told.contains(Told::Cancel) <==> state.active || state.hovered
            &&& told.len() == 1 <==> state.active || state.hovered
        }),
{
    let told = step(state, RouteInput::Left).1;
    if told.len() > 0 {
        assert(told[0] == if state.active {
            Told::Cancel
        } else {
            Told::Leave
        });
    }
    let told = step(state, RouteInput::Cancelled).1;
    if told.len() > 0 {
        assert(told[0] == Told::Cancel);
    }
}

/// Events that come one after the other come to the same as a first part of them and then the
/// rest.
pub proof fn law_run_splits(state: RouteState, first: Seq<RouteInput>, second: Seq<RouteInput>)
    ensures
        run(state, first + second).0 == run(run(state, first).0, second).0,
        run(state, first + second).1 == run(state, first).1 + run(run(state, first).0, second).1,
    decreases second.len(),
{
    if second.len() == 0 {
        assert(first + second =~= first);
    } else {
        assert((first + second).drop_last() =~= first + second.drop_last());
        law_run_splits(state, first, second.drop_last());
    }
}

/// One event by itself is one step, and no event changes nothing.
pub proof fn law_run_of_one_is_a_step(state: RouteState, input: RouteInput)
    ensures
        run(state, seq![input]).0 == step(state, input).0,
        run(state, seq![input]).1 == step(state, input).1,
        run(state, seq![]) == (state, Seq::<Told>::empty()),
{
    let inputs = seq![input];
    assert(inputs.drop_last() =~= Seq::<RouteInput>::empty());
    assert(run(state, inputs.drop_last()) == (state, Seq::<Told>::empty()));
    assert(run(state, inputs).1 =~= step(state, input).1);
}

} // verus!
