//! What the window hears of, and what becomes of it.
use crate::geometry::PhysicalSize;
use crate::host::RenderOutcome;
use crate::pointer::PointerEvent;
use ui_events::keyboard::KeyboardEvent;
use vstd::prelude::*;

verus! {

/// What an input method is doing.
#[derive(Clone, Debug, PartialEq, Eq)]
pub enum Ime {
    Enabled,
    Disabled,
    /// A text is being composed; the selected part of it, in bytes, if it is to be shown.
    Preedit(String, Option<(usize, usize)>),
    /// A text was composed.
    Commit(String),
}

/// Something the window hears of.
#[derive(Clone, Debug, PartialEq, Eq)]
pub enum WindowEvent {
    CloseRequested,
    RedrawRequested,
    Resized(PhysicalSize),
    ScaleFactorChanged,
    /// A key changed. A synthetic change is one that the platform makes up when the window
    /// gets or loses the focus.
    KeyboardInput { is_synthetic: bool },
    Ime(Ime),
    /// The window got or lost the focus.
    Focused(bool),
    Other,
}

/// What an event of the window means as input, where it means one.
#[derive(Debug)]
pub enum WindowEventTranslation<T> {
    Keyboard(KeyboardEvent),
    Pointer(PointerEvent<T>),
}

/// Input that has to do with text.
#[derive(Debug)]
pub enum TextEvent {
    Keyboard(KeyboardEvent),
    Ime(Ime),
    WindowFocusChange(bool),
}

/// What becomes of an event of the window.
#[derive(Debug)]
pub enum InputAction<T> {
    /// The user interface is told.
    Text(TextEvent),
    /// The event goes through pointer routing.
    Route(PointerEvent<T>),
}

/// What the host is to do about an event of the window.
#[derive(Clone, Debug, PartialEq, Eq)]
pub enum HostStep {
    /// End the application.
    Exit,
    /// Draw a frame.
    Render,
    /// Give the surface this size.
    Resize(PhysicalSize),
    /// Give the user interface the window's scale, and process the signals that come of it.
    Rescale,
    /// Pass the event on as input, and process the signals that come of it.
    Input(WindowEvent),
}

impl WindowEvent {
    /// The event is worth translating into input.
    pub open spec fn translatable(self) -> bool {
        self != (WindowEvent::KeyboardInput { is_synthetic: true })
    }

    /// What the event itself tells the user interface.
    pub open spec fn text_event(self) -> Option<TextEvent> {
        match self {
            WindowEvent::Ime(ime) => Some(TextEvent::Ime(ime)),
            WindowEvent::Focused(focused) => Some(TextEvent::WindowFocusChange(focused)),
            _ => None,
        }
    }

    /// What the host is to do about the event.
    pub open spec fn step(self) -> HostStep {
        match self {
            WindowEvent::CloseRequested => HostStep::Exit,
            WindowEvent::RedrawRequested => HostStep::Render,
            WindowEvent::Resized(size) => HostStep::Resize(size),
            WindowEvent::ScaleFactorChanged => HostStep::Rescale,
            event => HostStep::Input(event),
        }
    }

    /// Whether the event is worth translating into input: made-up changes of keys are not.
    pub fn is_translatable(&self) -> (answer: bool)
        ensures
            answer == self.translatable(),
    {
        match self {
            WindowEvent::KeyboardInput { is_synthetic } => !*is_synthetic,
            _ => true,
        }
    }
}

impl<T> WindowEventTranslation<T> {
    /// What becomes of the input.
    pub open spec fn action(self) -> InputAction<T> {
        match self {
            WindowEventTranslation::Keyboard(event) => InputAction::Text(
                TextEvent::Keyboard(event),
            ),
            WindowEventTranslation::Pointer(event) => InputAction::Route(event),
        }
    }
}

/// What becomes of an event and its translation, in order: first what it means as input, then
/// what it tells by itself.
pub open spec fn input_actions<T>(
    event: WindowEvent,
    translation: Option<WindowEventTranslation<T>>,
) -> Seq<InputAction<T>> {
    let translated = match translation {
        Some(translation) if event.translatable() => seq![translation.action()],
        _ => seq![],
    };
    match event.text_event() {
        Some(text) => translated.push(InputAction::Text(text)),
        None => translated,
    }
}

/// What becomes of an event of the window. `translation` is what it means as input, if it is
/// worth translating and means one.
pub fn handle_window_event<T>(
    event: WindowEvent,
    translation: Option<WindowEventTranslation<T>>,
) -> (actions: Vec<InputAction<T>>)
    ensures
        actions@ == input_actions(event, translation),
{
    let mut actions: Vec<InputAction<T>> = Vec::new();
    if event.is_translatable() {
        match translation {
            Some(WindowEventTranslation::Keyboard(keyboard)) => {
                actions.push(InputAction::Text(TextEvent::Keyboard(keyboard)));
            },
            Some(WindowEventTranslation::Pointer(pointer)) => {
                actions.push(InputAction::Route(pointer));
            },
            None => {},
        }
    }
    match event {
        WindowEvent::Ime(ime) => {
            actions.push(InputAction::Text(TextEvent::Ime(ime)));
        },
        WindowEvent::Focused(is_focused) => {
            actions.push(InputAction::Text(TextEvent::WindowFocusChange(is_focused)));
        },
        _ => {},
    }
    actions
}

/// What the host is to do about an event of the window.
pub fn window_event(event: WindowEvent) -> (step: HostStep)
    ensures
        step == event.step(),
{
    match event {
        WindowEvent::CloseRequested => HostStep::Exit,
        WindowEvent::RedrawRequested => HostStep::Render,
        WindowEvent::Resized(size) => HostStep::Resize(size),
        WindowEvent::ScaleFactorChanged => HostStep::Rescale,
        event => HostStep::Input(event),
    }
}

impl HostStep {
    /// The application is to end after the step.
    pub open spec fn exits(self, outcome: RenderOutcome, signals_exit: bool) -> bool {
        match self {
            HostStep::Exit => true,
            HostStep::Render => outcome is OutOfMemory,
            HostStep::Resize(_) => false,
            HostStep::Rescale => signals_exit,
            HostStep::Input(_) => signals_exit,
        }
    }

    /// Whether the application is to end after the step. `outcome` says how drawing ended, if
    /// a frame was drawn, and `signals_exit` whether a signal asks for the end, if signals
    /// were processed.
    pub fn should_exit(&self, outcome: RenderOutcome, signals_exit: bool) -> (answer: bool)
        ensures
            answer == self.exits(outcome, signals_exit),
    {
        match self {
            HostStep::Exit => true,
            HostStep::Render => match outcome {
                RenderOutcome::OutOfMemory => true,
                _ => false,
            },
            HostStep::Resize(_) => false,
            HostStep::Rescale | HostStep::Input(_) => signals_exit,
        }
    }
}

/// A made-up change of a key tells the user interface nothing, whatever it might mean.
pub proof fn law_synthetic_keys_are_dropped<T>(translation: Option<WindowEventTranslation<T>>)
    ensures
        input_actions(WindowEvent::KeyboardInput { is_synthetic: true }, translation) == Seq::<
            InputAction<T>,
        >::empty(),
{
}

/// Of what the window hears, only a request to close it ends the application by itself.
pub proof fn law_only_closing_exits(event: WindowEvent)
    ensures
        (forall|outcome: RenderOutcome, signals_exit: bool| #[trigger]
            event.step().exits(outcome, signals_exit)) <==> event is CloseRequested,
{
    assert(HostStep::Exit.exits(RenderOutcome::Drawn, false));
    assert(event.step().exits(RenderOutcome::Drawn, false) ==> event is CloseRequested);
}

/// Whatever an event means as input is acted on first, unless the event is a made-up change of a
/// key: every pointer event, of whatever kind, goes through pointer routing as it is, and every
/// key is told to the user interface as it is.
pub proof fn law_translation_is_acted_on<T>(
    event: WindowEvent,
    translation: Option<WindowEventTranslation<T>>,
    actions: Vec<InputAction<T>>,
)
    requires
        call_ensures(handle_window_event::<T>, (event, translation), actions),
        event != (WindowEvent::KeyboardInput { is_synthetic: true }),
    ensures
        translation matches Some(WindowEventTranslation::Pointer(pointer)) ==> actions@.len() > 0
            && actions@[0] == InputAction::Route(pointer),
        translation matches Some(WindowEventTranslation::Keyboard(key)) ==> actions@.len() > 0
            && actions@[0] == InputAction::<T>::Text(TextEvent::Keyboard(key)),
        forall|i: int|
            0 <= i < actions@.len() ==> {
                &&& (#[trigger] actions@[i]) is Route ==> i == 0 && translation
                    == Some(WindowEventTranslation::Pointer(actions@[i]->Route_0))
                &&& actions@[i] matches InputAction::Text(TextEvent::Keyboard(key)) ==> i == 0
                    && translation == Some(WindowEventTranslation::<T>::Keyboard(key))
            },
{
}

/// What an event tells by itself comes last: composed text is told by an event of the input
/// method and by no other, and a change of focus by an event that is one and by no other, both
/// as the event says it. Nothing else is told but what the event means as input.
pub proof fn law_text_and_focus_are_told<T>(
    event: WindowEvent,
    translation: Option<WindowEventTranslation<T>>,
    actions: Vec<InputAction<T>>,
)
    requires
        call_ensures(handle_window_event::<T>, (event, translation), actions),
    ensures
        event matches WindowEvent::Ime(ime) ==> actions@.len() > 0 && actions@.last()
            == InputAction::<T>::Text(TextEvent::Ime(ime)),
        event matches WindowEvent::Focused(focused) ==> actions@.len() > 0 && actions@.last()
            == InputAction::<T>::Text(TextEvent::WindowFocusChange(focused)),
        actions@.len() == (if event is Ime || event is Focused {
            1int
        } else {
            0
        }) + (if translation is Some && event != (WindowEvent::KeyboardInput {
            is_synthetic: true,
        }) {
            1int
        } else {
            0
        }),
{
}

/// An event is worth translating unless it is a made-up change of a key.
pub proof fn law_only_synthetic_keys_are_not_translated(event: WindowEvent, answer: bool)
    requires
        call_ensures(WindowEvent::is_translatable, (&event,), answer),
    ensures
        answer <==> !(event is KeyboardInput && event->is_synthetic),
{
}

/// The host ends the application when the window is to be closed, draws when it is to be drawn,
/// gives the surface the size that the window has got and follows the window's scale; every
/// other event, and no other, is passed on as input as it is.
pub proof fn law_host_does_what_the_event_says(event: WindowEvent, step: HostStep)
    requires
        call_ensures(window_event, (event,), step),
    ensures
        step is Exit <==> event is CloseRequested,
        step is Render <==> event is RedrawRequested,
        step is Resize <==> event is Resized,
        step matches HostStep::Resize(size) ==> event == WindowEvent::Resized(size),
        step is Rescale <==> event is ScaleFactorChanged,
        step matches HostStep::Input(passed_on) ==> passed_on == event,
{
}

/// The application ends after a step if and only if the window is to be closed, or no memory was
/// left to draw with, or a signal asked for it that came of input or of a new scale.
pub proof fn law_application_ends(
    step: HostStep,
    outcome: RenderOutcome,
    signals_exit: bool,
    answer: bool,
)
    requires
        call_ensures(HostStep::should_exit, (&step, outcome, signals_exit), answer),
    ensures
        answer <==> {
            ||| step is Exit
            ||| step is Render && outcome is OutOfMemory
            ||| (step is Rescale || step is Input) && signals_exit
        },
{
}

} // verus!
