use embed::geometry::PhysicalSize;
use embed::host::{HostState, ResizeCommand};
use embed::scene::{DemoScene, Rotation};
use embed::signals::{HostRequest, RenderRootSignal, SignalQueue};

type Signal = RenderRootSignal<&'static str, &'static str, u64, (i32, i32)>;
type Request = HostRequest<&'static str, &'static str, u64, (i32, i32)>;
type Queue = SignalQueue<&'static str, &'static str, u64, (i32, i32)>;

const ROTATION: Rotation<i64> = Rotation {
    step: 3,
    full_turn: 7,
    whole: 1,
};

fn scene() -> DemoScene<i64> {
    DemoScene {
        angle: 5,
        palette_mix: 0,
    }
}

fn request_for(signal: Signal) -> (Request, DemoScene<i64>, bool) {
    let mut queue = Queue::new();
    let mut scene = scene();
    let mut should_exit = false;
    queue.emit_signal(signal);
    let request = queue
        .next_request(&mut scene, ROTATION, &mut should_exit)
        .unwrap();
    assert_eq!(queue.next_signal(), None);
    (request, scene, should_exit)
}

#[test]
fn process_signals_drains_reentrant_host_requests() {
    let mut root = HostState::new(
        PhysicalSize {
            width: 100,
            height: 100,
        },
        &[wgpu::TextureFormat::Bgra8Unorm],
    )
    .unwrap();
    let mut queue = Queue::new();
    let new_size = PhysicalSize {
        width: 120,
        height: 80,
    };
    let mut seen = Vec::new();

    queue.emit_signal(RenderRootSignal::SetSize(new_size));
    while let Some(signal) = queue.next_signal() {
        match signal {
            RenderRootSignal::SetSize(size) => {
                seen.push("SetSize");
                assert_eq!(size, new_size);
                let commands = root.resize(size);
                assert!(commands.contains(&ResizeCommand::RequestRedraw));
                queue.emit_signal(RenderRootSignal::RequestRedraw);
            }
            RenderRootSignal::RequestAnimFrame => seen.push("RequestAnimFrame"),
            RenderRootSignal::RequestRedraw => seen.push("RequestRedraw"),
            other => panic!("unexpected signal while draining: {other:?}"),
        }
    }

    assert_eq!(seen.first(), Some(&"SetSize"));
    assert!(seen.contains(&"RequestRedraw"));
    assert_eq!(root.size, new_size);
}

#[test]
fn signals_emitted_while_draining_have_their_turn() {
    let mut queue = Queue::new();
    let mut scene = scene();
    let mut should_exit = false;
    queue.emit_signal(RenderRootSignal::NewLayer("tooltip", (5, 6)));
    queue.emit_signal(RenderRootSignal::TakeFocus);
    let mut done = Vec::new();
    while let Some(request) = queue.next_request(&mut scene, ROTATION, &mut should_exit) {
        if let HostRequest::AddLayer(_, _) = request {
            queue.emit_signal(RenderRootSignal::RequestRedraw);
        }
        done.push(request);
    }
    assert_eq!(
        done,
        vec![
            HostRequest::AddLayer("tooltip", (5, 6)),
            HostRequest::FocusWindow,
            HostRequest::Redraw,
        ]
    );
    assert!(!should_exit);
}

#[test]
fn button_press_moves_the_scene_and_asks_for_a_frame() {
    let (request, scene, should_exit) =
        request_for(RenderRootSignal::Action { button_press: true });
    assert_eq!(request, HostRequest::Redraw);
    assert_eq!(
        scene,
        DemoScene {
            angle: 1,
            palette_mix: 1
        }
    );
    assert!(!should_exit);
}

#[test]
fn other_actions_are_ignored() {
    let (request, after, _) = request_for(RenderRootSignal::Action {
        button_press: false,
    });
    assert_eq!(request, HostRequest::Nothing);
    assert_eq!(after, scene());
}

#[test]
fn signals_for_the_window_and_the_tree_are_handed_out() {
    let cases: Vec<(Signal, Request)> = vec![
        (RenderRootSignal::RequestRedraw, HostRequest::Redraw),
        (RenderRootSignal::RequestAnimFrame, HostRequest::Redraw),
        (
            RenderRootSignal::SetCursor("hand"),
            HostRequest::SetCursor("hand"),
        ),
        (RenderRootSignal::TakeFocus, HostRequest::FocusWindow),
        (
            RenderRootSignal::NewLayer("menu", (1, 2)),
            HostRequest::AddLayer("menu", (1, 2)),
        ),
        (
            RenderRootSignal::RemoveLayer(9),
            HostRequest::RemoveLayer(9),
        ),
        (
            RenderRootSignal::RepositionLayer(9, (3, 4)),
            HostRequest::RepositionLayer(9, (3, 4)),
        ),
    ];
    for (signal, request) in cases {
        let (found, after, should_exit) = request_for(signal);
        assert_eq!(found, request);
        assert_eq!(after, scene());
        assert!(!should_exit);
    }
}

#[test]
fn exit_is_noted() {
    let (request, after, should_exit) = request_for(RenderRootSignal::Exit);
    assert_eq!(request, HostRequest::Nothing);
    assert_eq!(after, scene());
    assert!(should_exit);
}

#[test]
fn what_is_left_to_richer_hosts_is_ignored() {
    let signals: Vec<Signal> = vec![
        RenderRootSignal::StartIme,
        RenderRootSignal::EndIme,
        RenderRootSignal::ImeMoved,
        RenderRootSignal::ClipboardStore,
        RenderRootSignal::SetSize(PhysicalSize {
            width: 1,
            height: 1,
        }),
        RenderRootSignal::SetTitle,
        RenderRootSignal::DragWindow,
        RenderRootSignal::DragResizeWindow,
        RenderRootSignal::ToggleMaximized,
        RenderRootSignal::Minimize,
        RenderRootSignal::ShowWindowMenu,
        RenderRootSignal::WidgetSelectedInInspector,
    ];
    for signal in signals {
        let (request, after, should_exit) = request_for(signal);
        assert_eq!(request, HostRequest::Nothing);
        assert_eq!(after, scene());
        assert!(!should_exit);
    }
}

#[test]
fn empty_queue_asks_nothing() {
    let mut queue = Queue::new();
    let mut scene = scene();
    let mut should_exit = true;
    assert_eq!(
        queue.next_request(&mut scene, ROTATION, &mut should_exit),
        None
    );
    assert!(should_exit);
    let (requests, exit) = queue.process_signals(&mut scene, ROTATION);
    assert!(requests.is_empty());
    assert!(!exit);
}

#[test]
fn all_signals_are_processed_in_order() {
    let mut queue = Queue::new();
    let mut scene = scene();
    queue.emit_signal(RenderRootSignal::Action { button_press: true });
    queue.emit_signal(RenderRootSignal::Exit);
    queue.emit_signal(RenderRootSignal::SetCursor("text"));
    queue.emit_signal(RenderRootSignal::Action { button_press: true });
    let (requests, exit) = queue.process_signals(&mut scene, ROTATION);
    assert_eq!(
        requests,
        vec![
            HostRequest::Redraw,
            HostRequest::Nothing,
            HostRequest::SetCursor("text"),
            HostRequest::Redraw,
        ]
    );
    assert!(exit);
    assert_eq!(
        scene,
        DemoScene {
            angle: 4,
            palette_mix: 0
        }
    );
    assert_eq!(queue.next_signal(), None);
}
