use embed::geometry::PhysicalSize;
use embed::host::RenderOutcome;
use embed::input::{
    handle_window_event, window_event, HostStep, Ime, InputAction, TextEvent, WindowEvent,
    WindowEventTranslation,
};
use embed::pointer::PointerEvent;
use ui_events::keyboard::KeyboardEvent;
use ui_events::pointer::{PointerInfo, PointerType};

const PEN: PointerInfo = PointerInfo {
    pointer_id: None,
    persistent_device_id: None,
    pointer_type: PointerType::Pen,
};

fn key() -> WindowEventTranslation<f64> {
    let mut event = KeyboardEvent::default();
    event.repeat = true;
    WindowEventTranslation::Keyboard(event)
}

#[test]
fn keys_go_to_the_user_interface() {
    let event = WindowEvent::KeyboardInput {
        is_synthetic: false,
    };
    assert!(event.is_translatable());
    let actions = handle_window_event(event, Some(key()));
    assert_eq!(actions.len(), 1);
    assert!(matches!(
        &actions[0],
        InputAction::Text(TextEvent::Keyboard(event)) if event.repeat
    ));
}

#[test]
fn synthetic_keys_are_dropped() {
    let event = WindowEvent::KeyboardInput { is_synthetic: true };
    assert!(!event.is_translatable());
    assert!(handle_window_event(event, Some(key())).is_empty());
}

#[test]
fn pointer_events_are_routed() {
    let translation: WindowEventTranslation<f64> =
        WindowEventTranslation::Pointer(PointerEvent::Leave(PEN));
    let actions = handle_window_event(WindowEvent::Other, Some(translation));
    assert_eq!(actions.len(), 1);
    assert!(matches!(
        &actions[0],
        InputAction::Route(PointerEvent::Leave(pointer)) if *pointer == PEN
    ));
}

#[test]
fn composed_text_goes_to_the_user_interface() {
    let imes = [
        Ime::Enabled,
        Ime::Disabled,
        Ime::Preedit("ka".to_string(), Some((0, 2))),
        Ime::Commit("か".to_string()),
    ];
    for ime in imes {
        let actions: Vec<InputAction<f64>> =
            handle_window_event(WindowEvent::Ime(ime.clone()), None);
        assert_eq!(actions.len(), 1);
        assert!(matches!(
            &actions[0],
            InputAction::Text(TextEvent::Ime(found)) if *found == ime
        ));
    }
}

#[test]
fn focus_goes_to_the_user_interface() {
    for focused in [true, false] {
        let actions: Vec<InputAction<f64>> =
            handle_window_event(WindowEvent::Focused(focused), None);
        assert_eq!(actions.len(), 1);
        assert!(matches!(
            &actions[0],
            InputAction::Text(TextEvent::WindowFocusChange(found)) if *found == focused
        ));
    }
}

#[test]
fn what_an_event_means_as_input_comes_first() {
    let actions = handle_window_event(WindowEvent::Focused(true), Some(key()));
    assert_eq!(actions.len(), 2);
    assert!(matches!(
        &actions[0],
        InputAction::Text(TextEvent::Keyboard(_))
    ));
    assert!(matches!(
        &actions[1],
        InputAction::Text(TextEvent::WindowFocusChange(true))
    ));
}

#[test]
fn other_events_mean_nothing() {
    let actions: Vec<InputAction<f64>> = handle_window_event(WindowEvent::Other, None);
    assert!(actions.is_empty());
}

#[test]
fn host_does_its_own_part_of_the_events() {
    let size = PhysicalSize {
        width: 3,
        height: 4,
    };
    assert_eq!(window_event(WindowEvent::CloseRequested), HostStep::Exit);
    assert_eq!(window_event(WindowEvent::RedrawRequested), HostStep::Render);
    assert_eq!(
        window_event(WindowEvent::Resized(size)),
        HostStep::Resize(size)
    );
    assert_eq!(
        window_event(WindowEvent::ScaleFactorChanged),
        HostStep::Rescale
    );
    let input = [
        WindowEvent::KeyboardInput { is_synthetic: true },
        WindowEvent::Ime(Ime::Enabled),
        WindowEvent::Focused(false),
        WindowEvent::Other,
    ];
    for event in input {
        assert_eq!(window_event(event.clone()), HostStep::Input(event));
    }
}

#[test]
fn application_ends_when_asked_to() {
    let size = PhysicalSize {
        width: 3,
        height: 4,
    };
    assert!(HostStep::Exit.should_exit(RenderOutcome::Drawn, false));
    assert!(HostStep::Render.should_exit(RenderOutcome::OutOfMemory, false));
    assert!(!HostStep::Render.should_exit(RenderOutcome::Lost, true));
    assert!(!HostStep::Resize(size).should_exit(RenderOutcome::OutOfMemory, true));
    assert!(HostStep::Rescale.should_exit(RenderOutcome::Drawn, true));
    assert!(!HostStep::Rescale.should_exit(RenderOutcome::Drawn, false));
    assert!(HostStep::Input(WindowEvent::Other).should_exit(RenderOutcome::Drawn, true));
    assert!(!HostStep::Input(WindowEvent::Other).should_exit(RenderOutcome::Drawn, false));
}
