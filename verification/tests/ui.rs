use embed::geometry::{OverlayRect, PhysicalPosition, PhysicalSize};
use embed::pointer::{
    pointer_position, PointerButtonEvent, PointerEvent, PointerSnapshot, PointerUpdate,
};
use embed::ui::{EmbeddedUi, Routing, ScaleCommand};
use ui_events::pointer::{
    PointerButton, PointerButtons, PointerId, PointerInfo, PointerState, PointerType,
};

const MOUSE: PointerInfo = PointerInfo {
    pointer_id: Some(PointerId::PRIMARY),
    persistent_device_id: None,
    pointer_type: PointerType::Mouse,
};

fn ui() -> EmbeddedUi<f64> {
    EmbeddedUi::new(
        1.0,
        PhysicalSize {
            width: 100,
            height: 100,
        },
    )
}

fn overlay() -> OverlayRect<f64> {
    OverlayRect {
        origin: PhysicalPosition { x: 50.0, y: 50.0 },
        size: PhysicalSize {
            width: 100,
            height: 100,
        },
    }
}

fn snapshot(x: f64, pressed: bool) -> PointerSnapshot<f64> {
    let mut buttons = PointerButtons::new();
    if pressed {
        buttons.insert(PointerButton::Primary);
    }
    PointerSnapshot {
        position: PhysicalPosition { x, y: 60.0 },
        buttons,
        reported: PointerState::default(),
    }
}

fn moved(x: f64, pressed: bool) -> PointerEvent<f64> {
    PointerEvent::Move(PointerUpdate {
        pointer: MOUSE,
        current: snapshot(x, pressed),
        coalesced: vec![],
        predicted: vec![],
    })
}

fn down(x: f64) -> PointerEvent<f64> {
    PointerEvent::Down(PointerButtonEvent {
        button: Some(PointerButton::Primary),
        pointer: MOUSE,
        state: snapshot(x, true),
    })
}

fn up(x: f64) -> PointerEvent<f64> {
    PointerEvent::Up(PointerButtonEvent {
        button: Some(PointerButton::Primary),
        pointer: MOUSE,
        state: snapshot(x, false),
    })
}

fn name(event: &PointerEvent<f64>) -> &'static str {
    match event {
        PointerEvent::Down(_) => "down",
        PointerEvent::Up(_) => "up",
        PointerEvent::Move(_) => "move",
        PointerEvent::Cancel(_) => "cancel",
        PointerEvent::Enter(_) => "enter",
        PointerEvent::Leave(_) => "leave",
        PointerEvent::Scroll(_) => "scroll",
        PointerEvent::Gesture(_) => "gesture",
    }
}

fn route(ui: &mut EmbeddedUi<f64>, event: PointerEvent<f64>) -> Vec<&'static str> {
    ui.route_pointer_event(event, overlay(), false, false)
        .iter()
        .map(name)
        .collect()
}

#[test]
fn nothing_is_remembered_at_first() {
    let ui = ui();
    assert!(!ui.hovered);
    assert!(!ui.pointer_route_active);
    assert_eq!(ui.scale_factor, 1.0);
}

#[test]
fn window_enter_is_not_passed_on() {
    let mut ui = ui();
    assert!(route(&mut ui, PointerEvent::Enter(MOUSE)).is_empty());
    assert!(!ui.hovered);
}

#[test]
fn pointer_enters_and_leaves_the_overlay_in_turns() {
    let mut ui = ui();
    assert!(route(&mut ui, moved(10.0, false)).is_empty());
    assert_eq!(route(&mut ui, moved(60.0, false)), ["enter", "move"]);
    assert!(ui.hovered);
    assert_eq!(route(&mut ui, moved(70.0, false)), ["move"]);
    assert_eq!(route(&mut ui, moved(10.0, false)), ["leave"]);
    assert!(!ui.hovered);
    assert!(route(&mut ui, moved(10.0, false)).is_empty());
}

#[test]
fn events_arrive_in_local_coordinates() {
    let mut ui = ui();
    let delivered = ui.route_pointer_event(moved(60.0, false), overlay(), false, false);
    assert_eq!(
        pointer_position(&delivered[1]),
        Some(PhysicalPosition { x: 10.0, y: 10.0 })
    );
}

#[test]
fn drag_is_followed_off_the_overlay_until_release() {
    let mut ui = ui();
    assert_eq!(route(&mut ui, down(60.0)), ["enter", "down"]);
    assert!(ui.pointer_route_active);
    assert_eq!(route(&mut ui, moved(10.0, true)), ["leave", "move"]);
    assert_eq!(route(&mut ui, moved(5.0, true)), ["move"]);
    assert_eq!(route(&mut ui, up(5.0)), ["up"]);
    assert!(!ui.pointer_route_active);
    assert!(route(&mut ui, moved(5.0, false)).is_empty());
}

#[test]
fn drag_that_began_off_the_overlay_enters_it_first() {
    let mut ui = ui();
    ui.pointer_route_active = true;
    assert_eq!(route(&mut ui, moved(10.0, true)), ["move"]);
    assert!(!ui.hovered);
    assert_eq!(route(&mut ui, moved(60.0, true)), ["enter", "move"]);
    assert!(ui.hovered);
    assert_eq!(route(&mut ui, moved(10.0, true)), ["leave", "move"]);
    assert!(!ui.hovered);
}

#[test]
fn press_beside_the_overlay_stays_there() {
    let mut ui = ui();
    assert!(route(&mut ui, down(10.0)).is_empty());
    assert!(!ui.pointer_route_active);
    assert!(route(&mut ui, moved(20.0, true)).is_empty());
}

#[test]
fn leaving_the_window_during_a_drag_cancels_it() {
    let mut ui = ui();
    route(&mut ui, down(60.0));
    assert_eq!(route(&mut ui, PointerEvent::Leave(MOUSE)), ["cancel"]);
    assert!(!ui.hovered);
    assert!(!ui.pointer_route_active);
    assert!(route(&mut ui, PointerEvent::Leave(MOUSE)).is_empty());
}

#[test]
fn leaving_the_window_from_the_overlay_is_a_leave() {
    let mut ui = ui();
    route(&mut ui, moved(60.0, false));
    assert_eq!(route(&mut ui, PointerEvent::Leave(MOUSE)), ["leave"]);
    assert!(!ui.hovered);
}

#[test]
fn cancel_reaches_only_who_knows_the_pointer() {
    let mut ui = ui();
    assert!(route(&mut ui, PointerEvent::Cancel(MOUSE)).is_empty());
    route(&mut ui, moved(60.0, false));
    assert_eq!(route(&mut ui, PointerEvent::Cancel(MOUSE)), ["cancel"]);
    assert!(route(&mut ui, PointerEvent::Cancel(MOUSE)).is_empty());
    route(&mut ui, down(60.0));
    assert_eq!(route(&mut ui, PointerEvent::Cancel(MOUSE)), ["cancel"]);
    assert!(!ui.pointer_route_active);
}

#[test]
fn captured_pointer_is_followed_without_buttons() {
    let mut ui = ui();
    let delivered = ui.route_pointer_event(moved(10.0, false), overlay(), true, false);
    assert_eq!(delivered.len(), 1);
    assert!(ui.pointer_route_active);
    let delivered = ui.route_pointer_event(moved(10.0, false), overlay(), false, false);
    assert_eq!(delivered.len(), 1);
    assert!(!ui.pointer_route_active);
}

#[test]
fn pointer_captured_by_an_event_is_followed_to_the_next() {
    let mut ui = ui();
    ui.route_pointer_event(moved(60.0, false), overlay(), false, true);
    assert!(ui.pointer_route_active);
    assert_eq!(route(&mut ui, moved(10.0, false)), ["leave", "move"]);
}

#[test]
fn capture_after_an_event_that_was_not_passed_on_does_not_count() {
    let mut ui = ui();
    let delivered = ui.route_pointer_event(moved(10.0, false), overlay(), false, true);
    assert!(delivered.is_empty());
    assert!(!ui.pointer_route_active);
}

#[test]
fn steps_ask_for_the_capture_between_deliveries() {
    let mut ui = ui();
    let positioned = match ui.begin_pointer_event(down(60.0), overlay()) {
        Routing::Positioned(positioned) => positioned,
        other => panic!("unexpected routing {:?}", other),
    };
    assert!(positioned.inside);
    assert!(matches!(positioned.crossing, Some(PointerEvent::Enter(pointer)) if pointer == MOUSE));
    assert!(ui.hovered);
    assert!(!ui.pointer_route_active);
    let local = ui.forward_pointer_event(positioned, false);
    assert!(matches!(local, Some(PointerEvent::Down(_))));
    assert!(ui.pointer_route_active);
    ui.finish_pointer_event(false);
    assert!(ui.pointer_route_active);

    let positioned = match ui.begin_pointer_event(up(60.0), overlay()) {
        Routing::Positioned(positioned) => positioned,
        other => panic!("unexpected routing {:?}", other),
    };
    assert!(positioned.crossing.is_none());
    assert!(ui.forward_pointer_event(positioned, false).is_some());
    assert!(!ui.pointer_route_active);
    ui.finish_pointer_event(true);
    assert!(ui.pointer_route_active);
}

#[test]
fn steps_end_at_once_for_events_without_a_position() {
    let mut ui = ui();
    assert!(matches!(
        ui.begin_pointer_event(PointerEvent::Enter(MOUSE), overlay()),
        Routing::Ignored
    ));
    ui.hovered = true;
    assert!(matches!(
        ui.begin_pointer_event(PointerEvent::Leave(MOUSE), overlay()),
        Routing::Deliver(PointerEvent::Leave(pointer)) if pointer == MOUSE
    ));
}

#[test]
fn new_scale_makes_a_new_target_and_forgets_the_pointer() {
    let mut ui = ui();
    route(&mut ui, down(60.0));
    let size = PhysicalSize {
        width: 200,
        height: 200,
    };
    let commands = ui.update_scale_factor(2.0, f64::EPSILON, size);
    assert_eq!(
        commands,
        vec![
            ScaleCommand::CreateTarget(size),
            ScaleCommand::Rescale(2.0),
            ScaleCommand::Resize(size),
        ]
    );
    assert_eq!(ui.scale_factor, 2.0);
    assert_eq!(ui.physical_size, size);
    assert!(!ui.hovered);
    assert!(!ui.pointer_route_active);
}

#[test]
fn same_scale_changes_nothing() {
    let mut ui = ui();
    route(&mut ui, down(60.0));
    let size = PhysicalSize {
        width: 200,
        height: 200,
    };
    assert!(ui.update_scale_factor(1.0, f64::EPSILON, size).is_empty());
    assert!(ui.hovered);
    assert!(ui.pointer_route_active);
    assert_eq!(ui.physical_size.width, 100);
    assert_eq!(
        ui.update_scale_factor(1.0 - f64::EPSILON, f64::EPSILON, size)
            .len(),
        3
    );
}

#[test]
fn scale_that_is_no_number_is_another() {
    let mut ui = ui();
    let size = ui.physical_size;
    assert_eq!(
        ui.update_scale_factor(f64::NAN, f64::EPSILON, size).len(),
        3
    );
}

#[test]
fn tolerance_itself_is_a_change() {
    let mut ui: EmbeddedUi<i64> = EmbeddedUi::new(
        10,
        PhysicalSize {
            width: 1,
            height: 1,
        },
    );
    let size = ui.physical_size;
    assert!(ui.update_scale_factor(12, 3, size).is_empty());
    assert!(ui.update_scale_factor(8, 3, size).is_empty());
    assert_eq!(ui.update_scale_factor(7, 3, size).len(), 3);
    assert_eq!(ui.update_scale_factor(10, 3, size).len(), 3);
}

#[test]
fn same_scale_again_does_nothing() {
    let size = |width| PhysicalSize { width, height: 1 };
    let mut ui: EmbeddedUi<i64> = EmbeddedUi::new(10, size(1));
    for scale_factor in [12, 40] {
        ui.update_scale_factor(scale_factor, 3, size(4));
        let (known_scale, known_size) = (ui.scale_factor, ui.physical_size);
        ui.hovered = true;
        assert!(ui.update_scale_factor(scale_factor, 3, size(5)).is_empty());
        assert_eq!(ui.scale_factor, known_scale);
        assert_eq!(ui.physical_size, known_size);
        assert!(ui.hovered);
    }
    assert_eq!(ui.scale_factor, 40);
    assert_eq!(ui.physical_size, size(4));
}

#[test]
fn change_of_scale_is_undone_by_the_change_back() {
    let mut ui = ui();
    let size = ui.physical_size;
    let larger = PhysicalSize {
        width: 150,
        height: 150,
    };
    assert_eq!(ui.update_scale_factor(1.5, f64::EPSILON, larger).len(), 3);
    assert_eq!(ui.physical_size, larger);
    assert_eq!(ui.update_scale_factor(1.0, f64::EPSILON, size).len(), 3);
    assert_eq!(ui.scale_factor, 1.0);
    assert_eq!(ui.physical_size, size);
}

#[test]
fn same_fractional_scale_again_does_nothing() {
    let mut ui = ui();
    let size = PhysicalSize {
        width: 125,
        height: 125,
    };
    assert_eq!(ui.update_scale_factor(1.25, f64::EPSILON, size).len(), 3);
    assert!(ui.update_scale_factor(1.25, f64::EPSILON, size).is_empty());
    assert_eq!(ui.scale_factor, 1.25);
    assert_eq!(ui.physical_size, size);
}
