//! What the widget tree asks of its host, and what the host makes of it.
use crate::geometry::PhysicalSize;
use crate::scene::DemoScene;
use crate::scene::Rotation;
use core::ops::Add;
use core::ops::Sub;
use std::collections::VecDeque;
use vstd::prelude::*;

verus! {

/// Something the widget tree asks of its host.
///
/// `C` is a cursor, `N` a layer, `W` a widget's identity and `P` a position in the tree.
#[derive(Clone, Debug, PartialEq)]
pub enum RenderRootSignal<C, N, W, P> {
    /// A widget acted; the one action that matters here is the press of a button.
    Action { button_press: bool },
    /// What is drawn is out of date.
    RequestRedraw,
    /// An animation goes on with the next frame.
    RequestAnimFrame,
    /// The pointer is to look like this.
    SetCursor(C),
    /// The window is to take the focus.
    TakeFocus,
    /// A layer is to be put on top, at this position.
    NewLayer(N, P),
    /// The layer with this root is to go.
    RemoveLayer(W),
    /// The layer with this root is to move to this position.
    RepositionLayer(W, P),
    /// The application is to end.
    Exit,
    StartIme,
    EndIme,
    ImeMoved,
    ClipboardStore,
    /// The window is to have this size.
    SetSize(PhysicalSize),
    SetTitle,
    DragWindow,
    DragResizeWindow,
    ToggleMaximized,
    Minimize,
    ShowWindowMenu,
    WidgetSelectedInInspector,
}

/// What the host does about a signal, to the window or to the widget tree.
#[derive(Clone, Debug, PartialEq)]
pub enum HostRequest<C, N, W, P> {
    /// Nothing.
    Nothing,
    /// Ask the window for a new frame.
    Redraw,
    /// Give the window's pointer this look.
    SetCursor(C),
    /// Give the window the focus.
    FocusWindow,
    /// Give the widget tree this layer, at this position.
    AddLayer(N, P),
    /// Take this layer from the widget tree.
    RemoveLayer(W),
    /// Move this layer of the widget tree.
    RepositionLayer(W, P),
}

impl<C, N, W, P> RenderRootSignal<C, N, W, P> {
    /// What the host does about the signal.
    pub open spec fn request(self) -> HostRequest<C, N, W, P> {
        match self {
            RenderRootSignal::Action { button_press } => if button_press {
                HostRequest::Redraw
            } else {
                HostRequest::Nothing
            },
            RenderRootSignal::RequestRedraw => HostRequest::Redraw,
            RenderRootSignal::RequestAnimFrame => HostRequest::Redraw,
            RenderRootSignal::SetCursor(cursor) => HostRequest::SetCursor(cursor),
            RenderRootSignal::TakeFocus => HostRequest::FocusWindow,
            RenderRootSignal::NewLayer(layer, position) => HostRequest::AddLayer(layer, position),
            RenderRootSignal::RemoveLayer(root) => HostRequest::RemoveLayer(root),
            RenderRootSignal::RepositionLayer(root, position) => HostRequest::RepositionLayer(
                root,
                position,
            ),
            _ => HostRequest::Nothing,
        }
    }

    /// The signal moves the scene on.
    pub open spec fn presses(self) -> bool {
        self matches RenderRootSignal::Action { button_press } && button_press
    }
}

/// How many of the signals move the scene on.
pub open spec fn press_count<C, N, W, P>(signals: Seq<RenderRootSignal<C, N, W, P>>) -> nat
    decreases signals.len(),
{
    if signals.len() == 0 {
        0
    } else {
        press_count(signals.drop_last()) + if signals.last().presses() {
            1nat
        } else {
            0nat
        }
    }
}

/// What the host does about the signals, in order.
pub open spec fn requests<C, N, W, P>(signals: Seq<RenderRootSignal<C, N, W, P>>) -> Seq<
    HostRequest<C, N, W, P>,
> {
    Seq::new(signals.len(), |i: int| signals[i].request())
}

/// One of the signals ends the application.
pub open spec fn asks_to_exit<C, N, W, P>(signals: Seq<RenderRootSignal<C, N, W, P>>) -> bool {
    exists|i: int| 0 <= i < signals.len() && #[trigger] signals[i] is Exit
}

/// The signals that were emitted and not looked at yet.
pub struct SignalQueue<C, N, W, P> {
    pending: VecDeque<RenderRootSignal<C, N, W, P>>,
}

impl<C, N, W, P> View for SignalQueue<C, N, W, P> {
    type V = Seq<RenderRootSignal<C, N, W, P>>;

    closed spec fn view(&self) -> Seq<RenderRootSignal<C, N, W, P>> {
        self.pending@
    }
}

impl<C, N, W, P> SignalQueue<C, N, W, P> {
    /// A queue without signals.
    pub fn new() -> (queue: Self)
        ensures
            queue@ == Seq::<RenderRootSignal<C, N, W, P>>::empty(),
    {
        SignalQueue { pending: VecDeque::new() }
    }

    /// Takes note of a signal.
    pub fn emit_signal(&mut self, signal: RenderRootSignal<C, N, W, P>)
        ensures
            final(self)@ == old(self)@.push(signal),
    {
        self.pending.push_back(signal);
    }

    /// Takes the signal that has waited longest.
    pub fn next_signal(&mut self) -> (signal: Option<RenderRootSignal<C, N, W, P>>)
        ensures
            match signal {
                Some(signal) => {
                    &&& old(self)@.len() > 0
                    &&& signal == old(self)@[0]
                    &&& final(self)@ == old(self)@.drop_first()
                },
                None => {
                    &&& old(self)@.len() == 0
                    &&& final(self)@ == old(self)@
                },
            },
    {
        self.pending.pop_front()
    }

    /// Takes the signal that has waited longest and does what it means for the scene and for
    /// the end of the application; what it means for the window and the widget tree comes
    /// back. The host does that, and calls again until no signal is left: signals that are
    /// emitted meanwhile have their turn too.
    pub fn next_request<T: Copy + Add<Output = T> + Sub<Output = T> + PartialOrd>(
        &mut self,
        scene: &mut DemoScene<T>,
        rotation: Rotation<T>,
        should_exit: &mut bool,
    ) -> (request: Option<HostRequest<C, N, W, P>>)
        requires
            old(self)@.len() > 0 && old(self)@[0].presses() ==> old(scene).can_advance(rotation),
        ensures
            match request {
                Some(request) => {
                    &&& old(self)@.len() > 0
                    &&& final(self)@ == old(self)@.drop_first()
                    &&& request == old(self)@[0].request()
                    &&& *final(should_exit) == (*old(should_exit) || old(self)@[0] is Exit)
                    &&& if old(self)@[0].presses() {
                        old(scene).advanced(rotation, *final(scene))
                    } else {
                        *final(scene) == *old(scene)
                    }
                },
                None => {
                    &&& old(self)@.len() == 0
                    &&& final(self)@ == old(self)@
                    &&& *final(should_exit) == *old(should_exit)
                    &&& *final(scene) == *old(scene)
                },
            },
    {
        let signal = match self.next_signal() {
            Some(signal) => signal,
            None => return None,
        };
        let request = match signal {
            RenderRootSignal::Action { button_press } => {
                if button_press {
                    scene.advance(rotation);
                    HostRequest::Redraw
                } else {
                    HostRequest::Nothing
                }
            },
            RenderRootSignal::RequestRedraw
            | RenderRootSignal::RequestAnimFrame => HostRequest::Redraw,
            RenderRootSignal::SetCursor(cursor) => HostRequest::SetCursor(cursor),
            RenderRootSignal::TakeFocus => HostRequest::FocusWindow,
            RenderRootSignal::NewLayer(layer, position) => HostRequest::AddLayer(layer, position),
            RenderRootSignal::RemoveLayer(root) => HostRequest::RemoveLayer(root),
            RenderRootSignal::RepositionLayer(root, position) => HostRequest::RepositionLayer(
                root,
                position,
            ),
            RenderRootSignal::Exit => {
                *should_exit = true;
                HostRequest::Nothing
            },
            RenderRootSignal::StartIme
            | RenderRootSignal::EndIme
            | RenderRootSignal::ImeMoved
            | RenderRootSignal::ClipboardStore
            | RenderRootSignal::SetSize(_)
            | RenderRootSignal::SetTitle
            | RenderRootSignal::DragWindow
            | RenderRootSignal::DragResizeWindow
            | RenderRootSignal::ToggleMaximized
            | RenderRootSignal::Minimize
            | RenderRootSignal::ShowWindowMenu
            | RenderRootSignal::WidgetSelectedInInspector => HostRequest::Nothing,
        };
        Some(request)
    }

    /// Deals with every signal, for a host that does what it is asked later on, when no
    /// signals are emitted meanwhile: what is asked of it, in order, and whether the
    /// application is to end.
    pub fn process_signals<T: Copy + Add<Output = T> + Sub<Output = T> + PartialOrd>(
        &mut self,
        scene: &mut DemoScene<T>,
        rotation: Rotation<T>,
    ) -> (outcome: (Vec<HostRequest<C, N, W, P>>, bool))
        requires
            old(scene).can_advance_by(rotation, press_count(old(self)@)),
        ensures
            final(self)@ == Seq::<RenderRootSignal<C, N, W, P>>::empty(),
            outcome.0@ == requests(old(self)@),
            outcome.1 == asks_to_exit(old(self)@),
            old(scene).advanced_by(rotation, press_count(old(self)@), *final(scene)),
    {
        let mut asked: Vec<HostRequest<C, N, W, P>> = Vec::new();
        let mut should_exit: bool = false;
        let ghost signals = self@;
        let ghost mut done: nat = 0;
        assert(signals.skip(0) =~= signals);
        loop
            invariant
                done <= signals.len(),
                signals == old(self)@,
                self@ == signals.skip(done as int),
                asked@ == requests(signals.take(done as int)),
                should_exit == asks_to_exit(signals.take(done as int)),
                old(scene).advanced_by(
                    rotation,
                    press_count(signals.take(done as int)),
                    *scene,
                ),
                press_count(signals.take(done as int)) <= press_count(signals),
                scene.can_advance_by(
                    rotation,
                    (press_count(signals) - press_count(signals.take(done as int))) as nat,
                ),
            ensures
                done == signals.len(),
            decreases signals.len() - done,
        {
            proof {
                if done < signals.len() {
                    lemma_press_count_step(signals, done);
                }
            }
            match self.next_request(scene, rotation, &mut should_exit) {
                Some(request) => {
                    asked.push(request);
                    proof {
                        let next = (done + 1) as int;
                        assert(signals.take(next).drop_last() =~= signals.take(done as int));
                        assert(requests(signals.take(next)) =~= requests(
                            signals.take(done as int),
                        ).push(request));
                        if signals[done as int] is Exit {
                            assert(signals.take(next)[done as int] is Exit);
                        }
                        if asks_to_exit(signals.take(done as int)) {
                            let i = choose|i: int|
                                0 <= i < done && #[trigger] signals.take(done as int)[i] is Exit;
                            assert(signals.take(next)[i] is Exit);
                        }
                        if asks_to_exit(signals.take(next)) {
                            let i = choose|i: int|
                                0 <= i < next && #[trigger] signals.take(next)[i] is Exit;
                            if i < done {
                                assert(signals.take(done as int)[i] is Exit);
                            }
                        }
                        assert(signals.skip(done as int).drop_first() =~= signals.skip(next));
                        done = done + 1;
                    }
                },
                None => {
                    break;
                },
            }
        }
        assert(signals.take(done as int) =~= signals);
        assert(self@ =~= Seq::<RenderRootSignal<C, N, W, P>>::empty());
        (asked, should_exit)
    }
}

proof fn lemma_press_count_step<C, N, W, P>(
    signals: Seq<RenderRootSignal<C, N, W, P>>,
    done: nat,
)
    requires
        done < signals.len(),
    ensures
        press_count(signals.take((done + 1) as int)) == press_count(signals.take(done as int))
            + if signals[done as int].presses() {
            1nat
        } else {
            0nat
        },
        press_count(signals.take((done + 1) as int)) <= press_count(signals),
    decreases signals.len(),
{
    let next = (done + 1) as int;
    assert(signals.take(next).drop_last() =~= signals.take(done as int));
    if next == signals.len() {
        assert(signals.take(next) =~= signals);
    } else {
        lemma_press_count_step(signals.drop_last(), done);
        assert(signals.drop_last().take(next) =~= signals.take(next));
    }
}

/// Something that happens to a queue of signals.
pub ghost enum QueueEvent<C, N, W, P> {
    /// A signal is emitted.
    Emit(RenderRootSignal<C, N, W, P>),
    /// The host takes the next signal, if there is one.
    Take,
}

/// The signals among the events that are emitted, in order.
pub open spec fn emitted<C, N, W, P>(events: Seq<QueueEvent<C, N, W, P>>) -> Seq<
    RenderRootSignal<C, N, W, P>,
>
    decreases events.len(),
{
    if events.len() == 0 {
        seq![]
    } else {
        match events.last() {
            QueueEvent::Emit(signal) => emitted(events.drop_last()).push(signal),
            QueueEvent::Take => emitted(events.drop_last()),
        }
    }
}

/// What is left in the queue after the events, and what the host has taken, in order.
pub open spec fn queue_run<C, N, W, P>(
    queue: Seq<RenderRootSignal<C, N, W, P>>,
    events: Seq<QueueEvent<C, N, W, P>>,
) -> (Seq<RenderRootSignal<C, N, W, P>>, Seq<RenderRootSignal<C, N, W, P>>)
    decreases events.len(),
{
    if events.len() == 0 {
        (queue, seq![])
    } else {
        let (left, taken) = queue_run(queue, events.drop_last());
        match events.last() {
            QueueEvent::Emit(signal) => (left.push(signal), taken),
            QueueEvent::Take => if left.len() == 0 {
                (left, taken)
            } else {
                (left.drop_first(), taken.push(left[0]))
            },
        }
    }
}

/// However emitting and taking alternate, the host takes the signals in the order in which
/// they were emitted and none is lost or taken twice. So a host that takes signals until none
/// is left has dealt with every one, those included that were emitted while it was at it.
pub proof fn law_signals_are_taken_in_order<C, N, W, P>(
    queue: Seq<RenderRootSignal<C, N, W, P>>,
    events: Seq<QueueEvent<C, N, W, P>>,
)
    ensures
        ({
            let (left, taken) = queue_run(queue, events);
            &&& taken + left == queue + emitted(events)
            &&& left.len() == 0 ==> taken == queue + emitted(events)
        }),
    decreases events.len(),
{
    let (left, taken) = queue_run(queue, events);
    if events.len() == 0 {
        assert(taken + left =~= queue + emitted(events));
    } else {
        law_signals_are_taken_in_order(queue, events.drop_last());
        let (before, taken_before) = queue_run(queue, events.drop_last());
        match events.last() {
            QueueEvent::Emit(signal) => {
                assert(taken + left =~= (taken_before + before).push(signal));
                assert(queue + emitted(events) =~= (queue + emitted(
                    events.drop_last(),
                )).push(signal));
            },
            QueueEvent::Take => {
                assert(taken + left =~= taken_before + before);
            },
        }
    }
    if left.len() == 0 {
        assert(taken + left =~= taken);
    }
}

/// The application is to end if and only if the signal to end it is among the signals, wherever
/// it stands: a single signal asks for it if and only if it is that signal, and of signals that
/// come in two parts, either part may ask.
pub proof fn law_exit_is_heard_anywhere<C, N, W, P>(
    signals: Seq<RenderRootSignal<C, N, W, P>>,
    more: Seq<RenderRootSignal<C, N, W, P>>,
    signal: RenderRootSignal<C, N, W, P>,
)
    ensures
        asks_to_exit(signals) <==> signals.contains(RenderRootSignal::Exit),
        asks_to_exit(signals + more) <==> asks_to_exit(signals) || asks_to_exit(more),
        asks_to_exit(signals.push(RenderRootSignal::Exit)),
        asks_to_exit(seq![signal]) <==> signal is Exit,
{
    let exit = RenderRootSignal::<C, N, W, P>::Exit;
    if asks_to_exit(signals) {
        let i = choose|i: int| 0 <= i < signals.len() && #[trigger] signals[i] is Exit;
        assert(signals[i] == exit);
        assert((signals + more)[i] is Exit);
    }
    if asks_to_exit(more) {
        let i = choose|i: int| 0 <= i < more.len() && #[trigger] more[i] is Exit;
        assert((signals + more)[signals.len() + i] is Exit);
    }
    if asks_to_exit(signals + more) {
        let i = choose|i: int|
            0 <= i < (signals + more).len() && #[trigger] (signals + more)[i] is Exit;
        if i < signals.len() {
            assert(signals[i] is Exit);
        } else {
            assert(more[i - signals.len()] is Exit);
        }
    }
    assert(signals.push(exit)[signals.len() as int] is Exit);
    assert(seq![signal][0] == signal);
    if asks_to_exit(seq![signal]) {
        let i = choose|i: int| 0 <= i < 1 && #[trigger] seq![signal][i] is Exit;
        assert(i == 0);
    }
}

/// Each press of the button counts once, and nothing else counts: signals that come in two parts
/// count as the parts do together.
pub proof fn law_every_press_counts<C, N, W, P>(
    signals: Seq<RenderRootSignal<C, N, W, P>>,
    more: Seq<RenderRootSignal<C, N, W, P>>,
    signal: RenderRootSignal<C, N, W, P>,
)
    ensures
        press_count(signals + more) == press_count(signals) + press_count(more),
        press_count(Seq::<RenderRootSignal<C, N, W, P>>::empty()) == 0,
        press_count(seq![signal]) == if signal == (RenderRootSignal::<C, N, W, P>::Action {
            button_press: true,
        }) {
            1int
        } else {
            0
        },
    decreases more.len(),
{
    let one = seq![signal];
    assert(one.drop_last() =~= Seq::<RenderRootSignal<C, N, W, P>>::empty());
    assert(press_count(one.drop_last()) == 0);
    if more.len() == 0 {
        assert(signals + more =~= signals);
    } else {
        assert((signals + more).drop_last() =~= signals + more.drop_last());
        law_every_press_counts(signals, more.drop_last(), signal);
    }
}

/// The host is asked for one thing for each signal, in the order of the signals: what is asked
/// for signals that come in two parts is what is asked for the first and then what is asked for
/// the second.
pub proof fn law_requests_follow_signals<C, N, W, P>(
    signals: Seq<RenderRootSignal<C, N, W, P>>,
    more: Seq<RenderRootSignal<C, N, W, P>>,
    signal: RenderRootSignal<C, N, W, P>,
)
    ensures
        requests(signals).len() == signals.len(),
        requests(signals + more) == requests(signals) + requests(more),
        requests(seq![signal]) == seq![signal.request()],
{
    assert(requests(signals + more) =~= requests(signals) + requests(more));
    assert(requests(seq![signal]) =~= seq![signal.request()]);
}

/// A new frame is asked for if and only if the button was pressed, something is out of date or
/// an animation goes on. The pointer's look, the focus and the layers are each asked for by the
/// signal that says so, with what it says, and nothing is asked for by any other signal.
pub proof fn law_request_says_what_the_signal_says<C, N, W, P>(
    signal: RenderRootSignal<C, N, W, P>,
)
    ensures
        signal.request() is Redraw <==> {
            ||| signal == (RenderRootSignal::<C, N, W, P>::Action { button_press: true })
            ||| signal is RequestRedraw
            ||| signal is RequestAnimFrame
        },
        signal.request() is SetCursor <==> signal is SetCursor,
        signal matches RenderRootSignal::SetCursor(cursor) ==> signal.request()
            == HostRequest::<C, N, W, P>::SetCursor(cursor),
        signal.request() is FocusWindow <==> signal is TakeFocus,
        signal.request() is AddLayer <==> signal is NewLayer,
        signal matches RenderRootSignal::NewLayer(layer, position) ==> signal.request()
            == HostRequest::<C, N, W, P>::AddLayer(layer, position),
        signal.request() is RemoveLayer <==> signal is RemoveLayer,
        signal matches RenderRootSignal::RemoveLayer(root) ==> signal.request()
            == HostRequest::<C, N, W, P>::RemoveLayer(root),
        signal.request() is RepositionLayer <==> signal is RepositionLayer,
        signal matches RenderRootSignal::RepositionLayer(root, position) ==> signal.request()
            == HostRequest::<C, N, W, P>::RepositionLayer(root, position),
{
}

/// A host that processes all signals at once is told to end the application if and only if the
/// signal to end it was in the queue, is asked for one thing for each signal, for a new frame
/// exactly where the button was pressed, something is out of date or an animation goes on, and
/// is left with an empty queue. The scene goes on by one step for each press of the button.
pub proof fn law_processing_answers_every_signal<
    C,
    N,
    W,
    P,
    T: Copy + Add<Output = T> + Sub<Output = T> + PartialOrd,
>(
    queue: &mut SignalQueue<C, N, W, P>,
    scene: &mut DemoScene<T>,
    rotation: Rotation<T>,
    outcome: (Vec<HostRequest<C, N, W, P>>, bool),
)
    requires
        call_ensures(
            SignalQueue::<C, N, W, P>::process_signals::<T>,
            (queue, scene, rotation),
            outcome,
        ),
    ensures
        outcome.1 <==> old(queue)@.contains(RenderRootSignal::Exit),
        outcome.0@.len() == old(queue)@.len(),
        final(queue)@.len() == 0,
        forall|i: int|
            0 <= i < old(queue)@.len() ==> {
                let signal = #[trigger] old(queue)@[i];
                &&& outcome.0@[i] is Redraw <==> {
                    ||| signal == (RenderRootSignal::<C, N, W, P>::Action { button_press: true })
                    ||| signal is RequestRedraw
                    ||| signal is RequestAnimFrame
                }
                &&& signal matches RenderRootSignal::SetCursor(cursor) ==> outcome.0@[i]
                    == HostRequest::<C, N, W, P>::SetCursor(cursor)
                &&& outcome.0@[i] is FocusWindow <==> signal is TakeFocus
                &&& signal matches RenderRootSignal::NewLayer(layer, position)
                    ==> outcome.0@[i] == HostRequest::<C, N, W, P>::AddLayer(layer, position)
                &&& signal matches RenderRootSignal::RemoveLayer(root) ==> outcome.0@[i]
                    == HostRequest::<C, N, W, P>::RemoveLayer(root)
                &&& signal matches RenderRootSignal::RepositionLayer(root, position)
                    ==> outcome.0@[i] == HostRequest::<C, N, W, P>::RepositionLayer(root, position)
                &&& signal is Exit || signal is SetSize || signal is StartIme
                    || signal is EndIme || signal is ImeMoved || signal is ClipboardStore
                    || signal is SetTitle || signal is DragWindow || signal is DragResizeWindow
                    || signal is ToggleMaximized || signal is Minimize || signal is ShowWindowMenu
                    || signal is WidgetSelectedInInspector ==> outcome.0@[i] is Nothing
                &&& signal == (RenderRootSignal::<C, N, W, P>::Action { button_press: false })
                    ==> outcome.0@[i] is Nothing
            },
        !old(queue)@.contains(RenderRootSignal::Action { button_press: true })
            ==> *final(scene) == *old(scene),
        press_count(old(queue)@) == 1 ==> old(scene).advanced(rotation, *final(scene)),
        old(scene).advanced_by(rotation, press_count(old(queue)@), *final(scene)),
{
    let signals = old(queue)@;
    law_exit_is_heard_anywhere(signals, signals, RenderRootSignal::Exit);
    assert forall|i: int| 0 <= i < signals.len() implies outcome.0@[i] == (
    #[trigger] signals[i]).request() by {
        assert(outcome.0@[i] == requests(signals)[i]);
    }
    if !signals.contains(RenderRootSignal::Action { button_press: true }) {
        lemma_no_press_counts_none(signals);
    }
    if press_count(signals) == 1 {
        let before = choose|before: DemoScene<T>|
            old(scene).advanced_by(rotation, 0, before) && #[trigger] before.advanced(
                rotation,
                *final(scene),
            );
        assert(before == *old(scene));
    }
}

proof fn lemma_no_press_counts_none<C, N, W, P>(signals: Seq<RenderRootSignal<C, N, W, P>>)
    requires
        !signals.contains(RenderRootSignal::Action { button_press: true }),
    ensures
        press_count(signals) == 0,
    decreases signals.len(),
{
    if signals.len() > 0 {
        assert(signals.contains(signals.last()));
        assert forall|signal: RenderRootSignal<C, N, W, P>|
            signals.drop_last().contains(signal) implies signals.contains(signal) by {
            let i = choose|i: int| 0 <= i < signals.len() - 1 && signals.drop_last()[i] == signal;
            assert(signals[i] == signal);
        }
        lemma_no_press_counts_none(signals.drop_last());
    }
}

/// A host that takes one signal at a time gets the oldest one's request, is told to end the
/// application if and only if it was told before or the signal says so, and sees the scene one
/// step on if and only if the button was pressed. It gets nothing if and only if no signal is
/// left.
pub proof fn law_next_request_answers_the_oldest_signal<
    C,
    N,
    W,
    P,
    T: Copy + Add<Output = T> + Sub<Output = T> + PartialOrd,
>(
    queue: &mut SignalQueue<C, N, W, P>,
    scene: &mut DemoScene<T>,
    rotation: Rotation<T>,
    should_exit: &mut bool,
    request: Option<HostRequest<C, N, W, P>>,
)
    requires
        call_ensures(
            SignalQueue::<C, N, W, P>::next_request::<T>,
            (queue, scene, rotation, should_exit),
            request,
        ),
    ensures
        request is None <==> old(queue)@.len() == 0,
        request is None ==> {
            &&& *final(scene) == *old(scene)
            &&& *final(should_exit) == *old(should_exit)
            &&& final(queue)@.len() == 0
        },
        request matches Some(request) ==> {
            let signal = old(queue)@[0];
            &&& old(queue)@ == seq![signal] + final(queue)@
            &&& request is Redraw <==> {
                ||| signal == (RenderRootSignal::<C, N, W, P>::Action { button_press: true })
                ||| signal is RequestRedraw
                ||| signal is RequestAnimFrame
            }
            &&& request is Nothing ==> {
                ||| signal == (RenderRootSignal::<C, N, W, P>::Action { button_press: false })
                ||| signal is Exit
                ||| !(signal is Action || signal is SetCursor || signal is TakeFocus
                    || signal is NewLayer || signal is RemoveLayer || signal is RepositionLayer)
            }
            &&& signal matches RenderRootSignal::SetCursor(cursor) ==> request
                == HostRequest::<C, N, W, P>::SetCursor(cursor)
            &&& request is FocusWindow <==> signal is TakeFocus
            &&& signal matches RenderRootSignal::NewLayer(layer, position) ==> request
                == HostRequest::<C, N, W, P>::AddLayer(layer, position)
            &&& signal matches RenderRootSignal::RemoveLayer(root) ==> request
                == HostRequest::<C, N, W, P>::RemoveLayer(root)
            &&& signal matches RenderRootSignal::RepositionLayer(root, position) ==> request
                == HostRequest::<C, N, W, P>::RepositionLayer(root, position)
            &&& *final(should_exit) <==> *old(should_exit) || signal is Exit
            &&& signal == (RenderRootSignal::<C, N, W, P>::Action { button_press: true })
                ==> old(scene).advanced(rotation, *final(scene))
            &&& signal != (RenderRootSignal::<C, N, W, P>::Action { button_press: true })
                ==> *final(scene) == *old(scene)
        },
{
    if request is Some {
        assert(old(queue)@ =~= seq![old(queue)@[0]] + final(queue)@);
    }
}

/// A signal that is emitted into an empty queue is the next to be taken, and one that is emitted
/// later is taken later: what is left after the oldest signal was taken is all the others, in
/// order, and a queue that is new has none.
pub proof fn law_queue_is_first_in_first_out<C, N, W, P>(
    fresh: SignalQueue<C, N, W, P>,
    emitting: &mut SignalQueue<C, N, W, P>,
    signal: RenderRootSignal<C, N, W, P>,
    taking: &mut SignalQueue<C, N, W, P>,
    taken: Option<RenderRootSignal<C, N, W, P>>,
)
    requires
        call_ensures(SignalQueue::<C, N, W, P>::new, (), fresh),
        call_ensures(SignalQueue::<C, N, W, P>::emit_signal, (emitting, signal), ()),
        call_ensures(SignalQueue::<C, N, W, P>::next_signal, (taking,), taken),
        final(emitting)@ == old(taking)@,
    ensures
        fresh@.len() == 0,
        taken is Some,
        old(emitting)@.len() == 0 ==> taken == Some(signal) && final(taking)@.len() == 0,
        old(emitting)@.len() > 0 ==> {
            &&& taken == Some(old(emitting)@[0])
            &&& final(taking)@.len() == old(emitting)@.len()
            &&& final(taking)@.last() == signal
        },
        old(emitting)@ + seq![signal] == seq![taken->0] + final(taking)@,
{
    assert(old(emitting)@ + seq![signal] =~= seq![taken->0] + final(taking)@);
}

} // verus!
