use embed::geometry::PhysicalPosition;
use embed::pointer::{
    pointer_event_buttons_active, pointer_info, pointer_position, translate_pointer_event,
    PointerButtonEvent, PointerEvent, PointerGestureEvent, PointerScrollEvent, PointerSnapshot,
    PointerUpdate,
};
use ui_events::pointer::{
    PointerButton, PointerButtons, PointerGesture, PointerId, PointerInfo, PointerState,
    PointerType,
};
use ui_events::ScrollDelta;

const MOUSE: PointerInfo = PointerInfo {
    pointer_id: Some(PointerId::PRIMARY),
    persistent_device_id: None,
    pointer_type: PointerType::Mouse,
};

fn at(x: f64, y: f64) -> PhysicalPosition<f64> {
    PhysicalPosition { x, y }
}

fn snapshot(x: f64, y: f64, buttons: PointerButtons) -> PointerSnapshot<f64> {
    let mut reported = PointerState::default();
    reported.count = 3;
    PointerSnapshot {
        position: at(x, y),
        buttons,
        reported,
    }
}

fn held() -> PointerButtons {
    PointerButtons::from(PointerButton::Primary)
}

fn down(x: f64, y: f64, buttons: PointerButtons) -> PointerEvent<f64> {
    PointerEvent::Down(PointerButtonEvent {
        button: Some(PointerButton::Primary),
        pointer: MOUSE,
        state: snapshot(x, y, buttons),
    })
}

fn all_with_position(buttons: PointerButtons) -> Vec<PointerEvent<f64>> {
    vec![
        down(7.0, 9.0, buttons),
        PointerEvent::Up(PointerButtonEvent {
            button: None,
            pointer: MOUSE,
            state: snapshot(7.0, 9.0, buttons),
        }),
        PointerEvent::Move(PointerUpdate {
            pointer: MOUSE,
            current: snapshot(7.0, 9.0, buttons),
            coalesced: vec![snapshot(5.0, 5.0, PointerButtons::new())],
            predicted: vec![],
        }),
        PointerEvent::Scroll(PointerScrollEvent {
            pointer: MOUSE,
            delta: ScrollDelta::LineDelta(0.0, 1.0),
            state: snapshot(7.0, 9.0, buttons),
        }),
        PointerEvent::Gesture(PointerGestureEvent {
            pointer: MOUSE,
            gesture: PointerGesture::Pinch(0.25),
            state: snapshot(7.0, 9.0, buttons),
        }),
    ]
}

fn all_without_position() -> Vec<PointerEvent<f64>> {
    vec![
        PointerEvent::Enter(MOUSE),
        PointerEvent::Leave(MOUSE),
        PointerEvent::Cancel(MOUSE),
    ]
}

#[test]
fn every_event_has_a_pointer() {
    for event in all_with_position(held()) {
        assert_eq!(pointer_info(&event), Some(MOUSE));
    }
    for event in all_without_position() {
        assert_eq!(pointer_info(&event), Some(MOUSE));
    }
}

#[test]
fn pointer_comes_from_the_event() {
    let touch = PointerInfo {
        pointer_id: PointerId::new(8),
        persistent_device_id: None,
        pointer_type: PointerType::Touch,
    };
    let event: PointerEvent<f64> = PointerEvent::Leave(touch);
    assert_eq!(pointer_info(&event), Some(touch));
}

#[test]
fn only_some_events_have_a_position() {
    for event in all_with_position(held()) {
        assert_eq!(pointer_position(&event), Some(at(7.0, 9.0)));
    }
    for event in all_without_position() {
        assert_eq!(pointer_position(&event), None);
    }
}

#[test]
fn buttons_are_active_while_one_is_held() {
    for event in all_with_position(held()) {
        assert!(pointer_event_buttons_active(&event));
    }
    for event in all_with_position(PointerButton::B32 | PointerButton::X1) {
        assert!(pointer_event_buttons_active(&event));
    }
    for event in all_with_position(PointerButtons::new()) {
        assert!(!pointer_event_buttons_active(&event));
    }
    for event in all_without_position() {
        assert!(!pointer_event_buttons_active(&event));
    }
}

#[test]
fn releasing_the_last_button_leaves_none_active() {
    let mut buttons = PointerButton::Primary | PointerButton::Secondary;
    buttons.remove(PointerButton::Primary);
    assert!(pointer_event_buttons_active(&down(0.0, 0.0, buttons)));
    buttons.remove(PointerButton::Secondary);
    assert!(!pointer_event_buttons_active(&down(0.0, 0.0, buttons)));
}

#[test]
fn translation_moves_the_position_and_nothing_else() {
    for event in all_with_position(held()) {
        let local = translate_pointer_event(event, at(4.0, 10.0));
        assert_eq!(pointer_position(&local), Some(at(3.0, -1.0)));
        assert_eq!(pointer_info(&local), Some(MOUSE));
        assert!(pointer_event_buttons_active(&local));
    }
    match translate_pointer_event(down(7.0, 9.0, held()), at(4.0, 10.0)) {
        PointerEvent::Down(event) => {
            assert_eq!(event.button, Some(PointerButton::Primary));
            assert_eq!(event.state.buttons, held());
            assert_eq!(event.state.reported.count, 3);
        }
        other => panic!("unexpected event {:?}", other),
    }
}

#[test]
fn translation_keeps_scroll_and_gesture() {
    let mut events = all_with_position(held());
    match translate_pointer_event(events.remove(4), at(1.0, 1.0)) {
        PointerEvent::Gesture(event) => {
            assert!(matches!(event.gesture, PointerGesture::Pinch(amount) if amount == 0.25));
        }
        other => panic!("unexpected event {:?}", other),
    }
    match translate_pointer_event(events.remove(3), at(1.0, 1.0)) {
        PointerEvent::Scroll(event) => {
            assert!(matches!(event.delta, ScrollDelta::LineDelta(x, y) if x == 0.0 && y == 1.0));
        }
        other => panic!("unexpected event {:?}", other),
    }
}

#[test]
fn translation_reaches_coalesced_and_predicted_states() {
    let event = PointerEvent::Move(PointerUpdate {
        pointer: MOUSE,
        current: snapshot(30.0, 31.0, held()),
        coalesced: vec![
            snapshot(10.0, 11.0, held()),
            snapshot(20.0, 21.0, PointerButtons::new()),
        ],
        predicted: vec![snapshot(40.0, 41.0, held())],
    });
    match translate_pointer_event(event, at(1.0, 2.0)) {
        PointerEvent::Move(local) => {
            assert_eq!(local.current.position, at(29.0, 29.0));
            assert_eq!(local.coalesced.len(), 2);
            assert_eq!(local.coalesced[0].position, at(9.0, 9.0));
            assert_eq!(local.coalesced[0].buttons, held());
            assert_eq!(local.coalesced[1].position, at(19.0, 19.0));
            assert_eq!(local.coalesced[1].buttons, PointerButtons::new());
            assert_eq!(local.coalesced[1].reported.count, 3);
            assert_eq!(local.predicted.len(), 1);
            assert_eq!(local.predicted[0].position, at(39.0, 39.0));
        }
        other => panic!("unexpected event {:?}", other),
    }
}

#[test]
fn events_without_a_position_are_not_translated() {
    let origin = at(4.0, 10.0);
    assert!(matches!(
        translate_pointer_event(PointerEvent::Enter(MOUSE), origin),
        PointerEvent::Enter(pointer) if pointer == MOUSE
    ));
    assert!(matches!(
        translate_pointer_event(PointerEvent::Leave(MOUSE), origin),
        PointerEvent::Leave(pointer) if pointer == MOUSE
    ));
    assert!(matches!(
        translate_pointer_event(PointerEvent::Cancel(MOUSE), origin),
        PointerEvent::Cancel(pointer) if pointer == MOUSE
    ));
}

fn moved(x: i64, y: i64) -> PointerEvent<i64> {
    let snapshot = |x, y| PointerSnapshot {
        position: PhysicalPosition { x, y },
        buttons: held(),
        reported: PointerState::default(),
    };
    PointerEvent::Move(PointerUpdate {
        pointer: MOUSE,
        current: snapshot(x, y),
        coalesced: vec![snapshot(x - 2, y), snapshot(x - 1, y)],
        predicted: vec![snapshot(x, y + 1)],
    })
}

fn positions(event: PointerEvent<i64>) -> Vec<PhysicalPosition<i64>> {
    match event {
        PointerEvent::Move(update) => std::iter::once(update.current)
            .chain(update.coalesced)
            .chain(update.predicted)
            .map(|snapshot| snapshot.position)
            .collect(),
        other => panic!("unexpected event {:?}", other),
    }
}

#[test]
fn translations_add_up() {
    let origin = |x, y| PhysicalPosition { x, y };
    let middle = translate_pointer_event(moved(30, 31), origin(4, 10));
    let local = positions(translate_pointer_event(middle, origin(-1, 5)));
    let direct = positions(translate_pointer_event(moved(30, 31), origin(3, 15)));
    assert_eq!(local[0], origin(27, 16));
    assert_eq!(local, direct);
}

#[test]
fn opposite_translation_undoes() {
    let origin = |x, y| PhysicalPosition { x, y };
    let local = translate_pointer_event(moved(30, 31), origin(4, -10));
    assert_eq!(pointer_position(&local), Some(origin(26, 41)));
    let restored = translate_pointer_event(local, origin(-4, 10));
    assert_eq!(positions(restored), positions(moved(30, 31)));
}

#[test]
fn zero_translation_changes_nothing() {
    let local = translate_pointer_event(moved(30, 31), PhysicalPosition { x: 0, y: 0 });
    assert_eq!(positions(local), positions(moved(30, 31)));
}

#[test]
fn whole_pixels_are_translated_exactly() {
    let position = |event: &PointerEvent<f64>| pointer_position(event).unwrap();
    for event in all_with_position(held()) {
        let middle = translate_pointer_event(event, at(4.0, 10.0));
        let local = translate_pointer_event(middle, at(-1.0, 5.0));
        assert_eq!(position(&local), at(4.0, -6.0));
        let restored = translate_pointer_event(local, at(-3.0, -15.0));
        assert_eq!(position(&restored), at(7.0, 9.0));
        let same = translate_pointer_event(restored, at(0.0, 0.0));
        assert_eq!(position(&same), at(7.0, 9.0));
    }
}
