use windowing::app::GlutinApp;
use windowing::dimen::{IVec2, UVec2};
use windowing::events::{
    is_blocked_when_modal, is_withheld_when_modal, refocuses_modal, ElementState, MouseButton, MouseScrollDelta,
    TouchPhase, UserEventGlutin, WindowEvent, WindowId,
};
use windowing::helper::{AppCommand, PendingWindow, WindowHelperGlutin};
use windowing::keyboard::{Key, KeyEvent, KeyLocation, NamedKey};
use windowing::modifiers::{ALT, SHIFT};
use windowing::options::{WindowCreationMode, WindowCreationOptions};
use windowing::steps::{
    AfterCall, AfterCommands, AfterCreation, ControlFlow, Effect, Next, Step,
};
use windowing::window::WindowGlutin;

type App = GlutinApp<&'static str, (i32, i32), &'static str>;
type Command = AppCommand<&'static str, (i32, i32)>;
type Event = WindowEvent<u32, (i32, i32)>;
type Answer = Step<&'static str, u32, (i32, i32), &'static str>;

const MAIN: WindowId = 1;
const CHILD: WindowId = 2;
const MODAL: WindowId = 3;

fn pending(handler: &'static str, modal: bool) -> PendingWindow<&'static str, (i32, i32)> {
    PendingWindow {
        title: handler.to_string(),
        options: WindowCreationOptions {
            mode: WindowCreationMode::FullscreenBorderless,
            multisampling: 0,
            vsync: false,
            always_on_top: false,
            resizable: true,
            maximized: false,
            transparent: false,
            decorations: true,
        },
        handler,
        modal,
        parent_rect: None,
        owner_hwnd: None,
    }
}

fn helper(id: WindowId) -> WindowHelperGlutin {
    WindowHelperGlutin::new(id, UVec2::new(641, 480))
}

fn open(app: &mut App, id: WindowId, modal: bool) {
    let then = AfterCreation::Commands(AfterCommands::Return);
    let step: Answer = app.window_created(helper(id), modal, vec![], then);
    assert_eq!(step.effects, [Effect::Focus(id)]);
    assert!(matches!(step.next, Next::Return));
    // The first frame is not the subject here.
    let mut record = app.helper(id).unwrap();
    assert!(record.redraw_requested);
    record.redraw_requested = false;
    let step: Answer = app.called(id, record, vec![], AfterCall::Finish);
    assert!(matches!(step.next, Next::Return));
}

/// A program that runs with its main window.
fn started() -> App {
    let mut app: App = GlutinApp::new(pending("main", false));
    let step: Answer = app.resumed();
    assert!(matches!(step.next, Next::Create { .. }));
    open(&mut app, MAIN, false);
    app
}

/// The same with a child window and a modal window over it.
fn with_modal() -> App {
    let mut app = started();
    open(&mut app, CHILD, false);
    open(&mut app, MODAL, true);
    app
}

fn callbacks(step: &Answer) -> String {
    match &step.next {
        Next::Call {
            window, callbacks, ..
        } => format!("{} {:?}", window, callbacks),
        Next::Return => "return".to_string(),
        Next::Create { pending, .. } => format!("create {}", pending.handler),
        Next::DrawFrame { window, .. } => format!("draw {}", window),
    }
}

fn send(app: &mut App, id: WindowId, event: Event) -> String {
    let step: Answer = app.window_event(id, event);
    callbacks(&step)
}

fn press() -> Event {
    WindowEvent::MouseInput {
        state: ElementState::Pressed,
        button: MouseButton::Left,
    }
}

fn release() -> Event {
    WindowEvent::MouseInput {
        state: ElementState::Released,
        button: MouseButton::Other(9),
    }
}

fn wheel(phase: TouchPhase) -> Event {
    WindowEvent::MouseWheel {
        delta: MouseScrollDelta::LineDelta((1, 2)),
        phase,
    }
}

fn escape() -> Event {
    WindowEvent::KeyboardInput(KeyEvent {
        logical_key: Key::Named(NamedKey::Escape),
        location: KeyLocation::Standard,
        state: ElementState::Released,
        text: None,
        repeat: false,
        scancode: Some(1),
    })
}

/// The events that are withheld while a modal window is open.
fn input() -> Vec<Event> {
    vec![
        WindowEvent::CursorMoved((1, 2)),
        press(),
        release(),
        wheel(TouchPhase::Moved),
        escape(),
        WindowEvent::CloseRequested,
        WindowEvent::Focused(true),
        WindowEvent::ModifiersChanged(SHIFT),
    ]
}

/// Events that never are.
fn no_input() -> Vec<Event> {
    vec![
        WindowEvent::ScaleFactorChanged(2),
        WindowEvent::Resized(UVec2::new(10, 10)),
        WindowEvent::RedrawRequested,
        WindowEvent::Focused(false),
        WindowEvent::Other,
    ]
}

#[test]
fn input_is_withheld_and_nothing_else() {
    assert!(input().iter().all(is_withheld_when_modal));
    assert!(!no_input().iter().any(is_withheld_when_modal));
    let blocked: Vec<bool> = input().iter().map(is_blocked_when_modal).collect();
    assert_eq!(blocked, [true, true, true, true, true, true, true, false]);
    assert!(!no_input().iter().any(is_blocked_when_modal));
    let refocus: Vec<bool> = input().iter().map(refocuses_modal).collect();
    assert_eq!(refocus, [false, true, false, false, false, true, true, false]);
    assert!(!no_input().iter().any(refocuses_modal));
}

#[test]
fn program_starts_with_its_main_window() {
    let window = WindowGlutin::<u8, (i32, i32)>::new::<()>(Ok(7), "Main", pending("", false).options);
    let (event_loop, mut app): (u8, App) = window.unwrap().run_loop("handler");
    assert_eq!(event_loop, 7);
    assert!(app.helper(MAIN).is_none());
    let step: Answer = app.resumed();
    assert!(step.effects.is_empty());
    match step.next {
        Next::Create { pending, then } => {
            assert_eq!(pending.title, "Main");
            assert_eq!(pending.handler, "handler");
            assert!(!pending.modal);
            assert_eq!(pending.parent_rect, None);
            assert_eq!(pending.owner_hwnd, None);
            assert_eq!(then, AfterCreation::Startup);
        }
        _ => panic!("no window to create"),
    }
    let step: Answer = app.resumed();
    assert!(step.effects.is_empty());
    assert!(matches!(step.next, Next::Return));
}

#[test]
fn process_ends_without_a_main_window() {
    let mut app: App = GlutinApp::new(pending("main", false));
    let _: Answer = app.resumed();
    let step: Answer = app.creation_failed(AfterCreation::Startup);
    assert_eq!(step.effects, [Effect::ExitProcess(1)]);
    assert!(matches!(step.next, Next::Return));
}

#[test]
fn program_goes_on_without_a_child() {
    let mut app = started();
    let queued = vec![
        AppCommand::CreateWindow(pending("child", false)),
        AppCommand::CreateWindow(pending("other", true)),
    ];
    let record = app.helper(MAIN).unwrap();
    let step: Answer = app.called(MAIN, record, queued, AfterCall::Finish);
    assert_eq!(callbacks(&step), "create child");
    let then = match step.next {
        Next::Create { then, .. } => then,
        _ => panic!("no window to create"),
    };
    assert_eq!(then, AfterCreation::Commands(AfterCommands::Return));
    let step: Answer = app.creation_failed(then);
    assert!(step.effects.is_empty());
    assert_eq!(callbacks(&step), "create other");
    let step: Answer = app.creation_failed(then);
    assert!(step.effects.is_empty());
    assert_eq!(callbacks(&step), "return");
    assert_eq!(app.helper(MAIN), Some(record));
}

#[test]
fn early_events_are_kept_and_delivered_in_order() {
    let mut app: App = GlutinApp::new(pending("main", false));
    for event in [
        UserEventGlutin::UserEvent(None, "first"),
        UserEventGlutin::UserEvent(Some(99), "lost"),
        UserEventGlutin::MouseGrabStatusChanged(MAIN, true),
        UserEventGlutin::FullscreenStatusChanged(98, true),
    ] {
        let step: Answer = app.user_event(event);
        assert!(step.effects.is_empty());
        assert!(matches!(step.next, Next::Return));
    }
    let _: Answer = app.resumed();
    let step: Answer = app.window_created(helper(MAIN), false, vec![], AfterCreation::Startup);
    assert_eq!(step.effects, [Effect::Focus(MAIN)]);
    assert_eq!(callbacks(&step), "1 [UserEvent(\"first\")]");
    let then = match step.next {
        Next::Call { then, .. } => then,
        _ => panic!("no call"),
    };
    // What the handler asks for now waits until all events are delivered.
    let mut record = app.helper(MAIN).unwrap();
    assert!(record.redraw_requested);
    record.terminate_loop();
    let queued = vec![AppCommand::CreateWindow(pending("child", false))];
    let step: Answer = app.called(MAIN, record, queued, then);
    assert_eq!(callbacks(&step), "1 [MouseGrabStatusChanged(true)]");
    let then = match step.next {
        Next::Call { then, .. } => then,
        _ => panic!("no call"),
    };
    let step: Answer = app.called(MAIN, record, vec![], then);
    assert_eq!(step.effects, [Effect::DropAllWindows, Effect::ExitLoop]);
    assert!(matches!(step.next, Next::Return));
    assert!(app.helper(MAIN).is_none());
}

#[test]
fn start_of_the_main_window_can_ask_for_more() {
    let mut app: App = GlutinApp::new(pending("main", false));
    let _: Answer = app.resumed();
    let queued = vec![AppCommand::CreateWindow(pending("child", false))];
    let step: Answer = app.window_created(helper(MAIN), false, queued, AfterCreation::Startup);
    assert_eq!(step.effects, [Effect::Focus(MAIN)]);
    assert_eq!(callbacks(&step), "create child");
}

#[test]
fn user_events_find_their_window() {
    let mut app = started();
    open(&mut app, CHILD, false);
    let mut deliver = |event| {
        let step: Answer = app.user_event(event);
        assert!(step.effects.is_empty());
        callbacks(&step)
    };
    assert_eq!(
        deliver(UserEventGlutin::UserEvent(None, "m")),
        "1 [UserEvent(\"m\")]"
    );
    assert_eq!(
        deliver(UserEventGlutin::UserEvent(Some(CHILD), "c")),
        "2 [UserEvent(\"c\")]"
    );
    assert_eq!(
        deliver(UserEventGlutin::FullscreenStatusChanged(CHILD, false)),
        "2 [FullscreenStatusChanged(false)]"
    );
    assert_eq!(
        deliver(UserEventGlutin::MouseGrabStatusChanged(MAIN, true)),
        "1 [MouseGrabStatusChanged(true)]"
    );
    assert_eq!(deliver(UserEventGlutin::UserEvent(Some(99), "x")), "return");
    assert_eq!(
        deliver(UserEventGlutin::MouseGrabStatusChanged(99, true)),
        "return"
    );
}

#[test]
fn events_are_dispatched_to_open_windows() {
    let app: App = GlutinApp::new(pending("main", false));
    let event = UserEventGlutin::UserEvent(None, "early");
    assert!(app.dispatch_user_event::<u32>(event).is_none());
    let app = started();
    let event = UserEventGlutin::UserEvent(None, "now");
    match app.dispatch_user_event::<u32>(event) {
        Some((id, callback)) => {
            assert_eq!(id, MAIN);
            assert_eq!(format!("{:?}", callback), "UserEvent(\"now\")");
        }
        None => panic!("not dispatched"),
    }
}

#[test]
fn sender_reaches_its_own_window() {
    let mut app = started();
    open(&mut app, CHILD, false);
    let sender = app.helper(CHILD).unwrap().create_user_event_sender();
    let step: Answer = app.user_event(sender.send_event("ping"));
    assert_eq!(callbacks(&step), "2 [UserEvent(\"ping\")]");
}

#[test]
fn events_are_told_to_the_window_s_handler() {
    let mut app = started();
    assert_eq!(
        send(&mut app, MAIN, WindowEvent::ScaleFactorChanged(2)),
        "1 [ScaleFactorChanged(2)]"
    );
    assert_eq!(
        send(&mut app, MAIN, WindowEvent::CursorMoved((3, 4))),
        "1 [MouseMove((3, 4))]"
    );
    assert_eq!(send(&mut app, MAIN, press()), "1 [MouseButtonDown(Left)]");
    assert_eq!(send(&mut app, MAIN, release()), "1 [MouseButtonUp(Other(9))]");
    assert_eq!(
        send(&mut app, MAIN, wheel(TouchPhase::Moved)),
        "1 [MouseWheelScroll(Lines((1, 2)))]"
    );
    let pixels = WindowEvent::MouseWheel {
        delta: MouseScrollDelta::PixelDelta((5, 6)),
        phase: TouchPhase::Moved,
    };
    assert_eq!(
        send(&mut app, MAIN, pixels),
        "1 [MouseWheelScroll(Pixels((5, 6)))]"
    );
    assert_eq!(
        send(&mut app, MAIN, escape()),
        "1 [KeyUp { virtual_key_code: Some(Escape), scancode: 1 }]"
    );
    assert_eq!(
        send(&mut app, MAIN, WindowEvent::ModifiersChanged(ALT | SHIFT)),
        "1 [KeyboardModifiersChanged(ModifiersState \
         { ctrl: false, alt: true, shift: true, logo: false })]"
    );
}

#[test]
fn other_events_call_no_handler() {
    let mut app = started();
    for event in [
        wheel(TouchPhase::Started),
        wheel(TouchPhase::Ended),
        wheel(TouchPhase::Cancelled),
        WindowEvent::Focused(true),
        WindowEvent::Focused(false),
        WindowEvent::Other,
    ] {
        assert_eq!(send(&mut app, MAIN, event), "return");
    }
    for event in input() {
        assert_eq!(send(&mut app, 99, event), "return");
    }
    for event in no_input() {
        assert_eq!(send(&mut app, 99, event), "return");
    }
    assert_eq!(app.helper(MAIN), Some(helper(MAIN)));
}

#[test]
fn resize_is_followed_by_a_wanted_frame() {
    let mut app = started();
    let step: Answer = app.window_event(MAIN, WindowEvent::Resized(UVec2::new(300, 200)));
    assert_eq!(
        step.effects,
        [
            Effect::MakeCurrent(MAIN),
            Effect::ResizeSurface {
                window: MAIN,
                width: 300,
                height: 200
            }
        ]
    );
    assert_eq!(callbacks(&step), "1 [Resize(UVec2 { x: 300, y: 200 })]");
    let then = match step.next {
        Next::Call { then, .. } => then,
        _ => panic!("no call"),
    };
    let mut record = app.helper(MAIN).unwrap();
    assert_eq!(record.physical_size, UVec2::new(300, 200));
    record.request_redraw();
    let step: Answer = app.called(MAIN, record, vec![], then);
    assert!(step.effects.is_empty());
    assert_eq!(callbacks(&step), "1 [Draw]");
    assert!(!app.helper(MAIN).unwrap().redraw_requested);
}

#[test]
fn resize_without_a_wanted_frame() {
    let mut app = started();
    let step: Answer = app.window_event(MAIN, WindowEvent::Resized(UVec2::new(300, 0)));
    assert_eq!(step.effects, [Effect::MakeCurrent(MAIN)]);
    let then = match step.next {
        Next::Call { then, .. } => then,
        _ => panic!("no call"),
    };
    let record = app.helper(MAIN).unwrap();
    let step: Answer = app.called(MAIN, record, vec![], then);
    assert_eq!(callbacks(&step), "return");
}

#[test]
fn grabbed_cursor_is_put_back() {
    let mut app = started();
    let mut record = app.helper(MAIN).unwrap();
    record.is_mouse_grabbed = true;
    let _: Answer = app.called(MAIN, record, vec![], AfterCall::Finish);
    let step: Answer = app.window_event(MAIN, WindowEvent::CursorMoved((7, 8)));
    assert_eq!(
        step.effects,
        [Effect::SetCursorPosition(MAIN, IVec2::new(320, 240))]
    );
    assert_eq!(
        callbacks(&step),
        "1 [GrabbedMouseMove { position: (7, 8), center: UVec2 { x: 320, y: 240 } }]"
    );
}

#[test]
fn modal_window_keeps_input_from_the_others() {
    for window in [MAIN, CHILD, 99] {
        for event in input() {
            let mut app = with_modal();
            let refocus = refocuses_modal(&event);
            let step: Answer = app.window_event(window, event);
            if refocus {
                assert_eq!(step.effects, [Effect::Focus(MODAL)]);
            } else {
                assert!(step.effects.is_empty());
            }
            assert!(matches!(step.next, Next::Return));
            assert_eq!(app.helper(window).is_some(), window != 99);
        }
    }
}

#[test]
fn modal_window_gets_its_input() {
    let mut app = with_modal();
    assert_eq!(send(&mut app, MODAL, press()), "3 [MouseButtonDown(Left)]");
    assert_eq!(
        send(&mut app, MODAL, WindowEvent::CursorMoved((1, 1))),
        "3 [MouseMove((1, 1))]"
    );
    assert_eq!(
        send(&mut app, MODAL, WindowEvent::ModifiersChanged(0)),
        "3 [KeyboardModifiersChanged(ModifiersState \
         { ctrl: false, alt: false, shift: false, logo: false })]"
    );
    assert_eq!(
        send(&mut app, MAIN, WindowEvent::ScaleFactorChanged(3)),
        "1 [ScaleFactorChanged(3)]"
    );
}

#[test]
fn closing_a_modal_window_brings_the_one_below_to_the_front() {
    let mut app = with_modal();
    open(&mut app, 4, true);
    assert_eq!(send(&mut app, MODAL, press()), "return");
    let step: Answer = app.window_event(4, WindowEvent::CloseRequested);
    assert_eq!(step.effects, [Effect::DropWindow(4), Effect::Focus(MODAL)]);
    assert_eq!(send(&mut app, MODAL, press()), "3 [MouseButtonDown(Left)]");
    let step: Answer = app.window_event(MODAL, WindowEvent::CloseRequested);
    assert_eq!(step.effects, [Effect::DropWindow(MODAL)]);
    assert_eq!(send(&mut app, MAIN, press()), "1 [MouseButtonDown(Left)]");
    assert!(app.helper(CHILD).is_some());
}

#[test]
fn modal_window_below_the_topmost_can_be_closed() {
    let mut app = with_modal();
    open(&mut app, 4, true);
    let record = app.helper(MAIN).unwrap();
    let queued: Vec<Command> = vec![AppCommand::CloseWindow(MODAL)];
    let step: Answer = app.called(MAIN, record, queued, AfterCall::Finish);
    assert_eq!(step.effects, [Effect::DropWindow(MODAL), Effect::Focus(4)]);
    assert!(app.helper(MODAL).is_none());
    assert_eq!(send(&mut app, 4, press()), "4 [MouseButtonDown(Left)]");
}

#[test]
fn closing_a_child_leaves_the_others() {
    let mut app = started();
    open(&mut app, CHILD, false);
    let record = app.helper(MAIN);
    let step: Answer = app.window_event(CHILD, WindowEvent::CloseRequested);
    assert_eq!(step.effects, [Effect::DropWindow(CHILD)]);
    assert!(matches!(step.next, Next::Return));
    assert!(app.helper(CHILD).is_none());
    assert_eq!(app.helper(MAIN), record);
    let step: Answer = app.window_event(CHILD, WindowEvent::CloseRequested);
    assert!(step.effects.is_empty());
}

#[test]
fn closing_the_main_window_ends_the_program() {
    let mut app = started();
    open(&mut app, CHILD, false);
    let step: Answer = app.window_event(MAIN, WindowEvent::CloseRequested);
    assert_eq!(step.effects, [Effect::DropAllWindows, Effect::ExitLoop]);
    assert!(matches!(step.next, Next::Return));
    assert!(app.helper(MAIN).is_none());
    assert!(app.helper(CHILD).is_none());
}

#[test]
fn commands_are_carried_out_in_order() {
    let mut app = with_modal();
    let queued = vec![
        AppCommand::CloseWindow(MODAL),
        AppCommand::CreateWindow(pending("new", true)),
        AppCommand::CloseWindow(CHILD),
    ];
    let record = app.helper(MAIN).unwrap();
    let step: Answer = app.called(MAIN, record, queued, AfterCall::Finish);
    assert_eq!(step.effects, [Effect::DropWindow(MODAL)]);
    let (pending_window, then) = match step.next {
        Next::Create { pending, then } => (pending, then),
        _ => panic!("no window to create"),
    };
    assert_eq!(pending_window.handler, "new");
    assert!(app.helper(CHILD).is_some());
    // What the new window asks for at its start comes last.
    let queued = vec![AppCommand::CreateWindow(pending("last", false))];
    let step: Answer = app.window_created(helper(5), pending_window.modal, queued, then);
    assert_eq!(
        step.effects,
        [Effect::Focus(5), Effect::DropWindow(CHILD), Effect::Focus(5)]
    );
    assert_eq!(callbacks(&step), "create last");
    assert!(app.helper(CHILD).is_none());
}

#[test]
fn handler_can_end_the_program() {
    let mut app = with_modal();
    let mut record = app.helper(CHILD).unwrap();
    record.terminate_loop();
    let queued = vec![AppCommand::CreateWindow(pending("never", false))];
    let step: Answer = app.called(CHILD, record, queued, AfterCall::Finish);
    assert_eq!(step.effects, [Effect::DropAllWindows, Effect::ExitLoop]);
    assert!(matches!(step.next, Next::Return));
    assert!(app.helper(MAIN).is_none());
}

#[test]
fn calls_of_closed_windows_leave_no_record() {
    let mut app = started();
    let step: Answer = app.called(CHILD, helper(CHILD), vec![], AfterCall::Finish);
    assert_eq!(callbacks(&step), "return");
    assert!(app.helper(CHILD).is_none());
}

#[test]
fn waits_where_no_frame_is_wanted() {
    let mut app = with_modal();
    let step: Answer = app.about_to_wait();
    assert_eq!(step.effects, [Effect::SetControlFlow(ControlFlow::Wait)]);
    assert!(matches!(step.next, Next::Return));
}

#[test]
fn draws_each_window_that_wants_a_frame_once() {
    let mut app = with_modal();
    assert_eq!(send(&mut app, MAIN, WindowEvent::RedrawRequested), "return");
    assert_eq!(send(&mut app, MODAL, WindowEvent::RedrawRequested), "return");
    let mut drawn = Vec::new();
    let mut step: Answer = app.about_to_wait();
    while let Next::DrawFrame {
        window,
        rest,
        terminate,
    } = step.next
    {
        assert!(step.effects.is_empty());
        assert!(!terminate);
        assert!(!rest.contains(&window));
        drawn.push(window);
        let mut record = app.helper(window).unwrap();
        assert!(!record.redraw_requested);
        // The main window asks for another frame while it draws.
        if window == MAIN {
            record.request_redraw();
        }
        step = app.frame_drawn(window, record, vec![], rest, terminate);
    }
    drawn.sort();
    assert_eq!(drawn, [MAIN, MODAL]);
    assert_eq!(step.effects, [Effect::SetControlFlow(ControlFlow::Poll)]);
}

#[test]
fn frame_that_cannot_be_drawn_is_skipped() {
    let mut app = started();
    let mut record = app.helper(MAIN).unwrap();
    record.request_redraw();
    let _: Answer = app.called(MAIN, record, vec![], AfterCall::Finish);
    let step: Answer = app.about_to_wait();
    match step.next {
        Next::DrawFrame {
            window,
            rest,
            terminate,
        } => {
            assert_eq!(window, MAIN);
            let step: Answer = app.frame_skipped(rest, terminate);
            assert_eq!(step.effects, [Effect::SetControlFlow(ControlFlow::Wait)]);
        }
        _ => panic!("nothing to draw"),
    }
}

#[test]
fn round_ends_the_program_where_a_window_asked_for_it() {
    let mut app = started();
    open(&mut app, CHILD, false);
    let mut record = app.helper(CHILD).unwrap();
    record.request_redraw();
    let _: Answer = app.called(CHILD, record, vec![], AfterCall::Finish);
    let step: Answer = app.about_to_wait();
    match step.next {
        Next::DrawFrame {
            window,
            rest,
            terminate,
        } => {
            let mut record = app.helper(window).unwrap();
            record.terminate_loop();
            let queued = vec![AppCommand::CreateWindow(pending("never", false))];
            let step: Answer = app.frame_drawn(window, record, queued, rest, terminate);
            assert_eq!(step.effects, [Effect::DropAllWindows, Effect::ExitLoop]);
            assert!(matches!(step.next, Next::Return));
        }
        _ => panic!("nothing to draw"),
    }
}

#[test]
fn windows_created_in_a_round_are_drawn_in_the_next() {
    let mut app = started();
    let _ = send(&mut app, MAIN, WindowEvent::RedrawRequested);
    let step: Answer = app.about_to_wait();
    let (rest, terminate) = match step.next {
        Next::DrawFrame {
            rest, terminate, ..
        } => (rest, terminate),
        _ => panic!("nothing to draw"),
    };
    let record = app.helper(MAIN).unwrap();
    let queued = vec![AppCommand::CreateWindow(pending("child", false))];
    let step: Answer = app.frame_drawn(MAIN, record, queued, rest, terminate);
    let then = match step.next {
        Next::Create { then, .. } => then,
        _ => panic!("no window to create"),
    };
    assert_eq!(
        then,
        AfterCreation::Commands(AfterCommands::ChooseControlFlow)
    );
    let step: Answer = app.window_created(helper(CHILD), false, vec![], then);
    assert_eq!(
        step.effects,
        [
            Effect::Focus(CHILD),
            Effect::SetControlFlow(ControlFlow::Poll)
        ]
    );
    let step: Answer = app.about_to_wait();
    assert_eq!(callbacks(&step), "draw 2");
}

#[test]
fn nothing_is_left_when_the_event_loop_ends() {
    let mut app = with_modal();
    let step: Answer = app.exiting();
    assert_eq!(step.effects, [Effect::DropAllWindows]);
    assert!(matches!(step.next, Next::Return));
    assert!(app.helper(MAIN).is_none());
    assert!(app.helper(MODAL).is_none());
}

#[test]
fn main_window_stays_the_main_window() {
    let mut app = with_modal();
    let record = app.helper(MAIN).unwrap();
    let queued: Vec<Command> = vec![
        AppCommand::CloseWindow(MODAL),
        AppCommand::CloseWindow(CHILD),
    ];
    let _: Answer = app.called(MAIN, record, queued, AfterCall::Finish);
    open(&mut app, 4, true);
    let step: Answer = app.user_event(UserEventGlutin::UserEvent(None, "still"));
    assert_eq!(callbacks(&step), "1 [UserEvent(\"still\")]");
}

#[test]
fn wanted_frame_is_drawn_before_the_program_ends() {
    let mut app = started();
    let step: Answer = app.window_event(MAIN, WindowEvent::Resized(UVec2::new(300, 200)));
    let then = match step.next {
        Next::Call { then, .. } => then,
        _ => panic!("no call"),
    };
    let mut record = app.helper(MAIN).unwrap();
    record.request_redraw();
    record.terminate_loop();
    let step: Answer = app.called(MAIN, record, vec![], then);
    assert!(step.effects.is_empty());
    assert_eq!(callbacks(&step), "1 [Draw]");
    let record = app.helper(MAIN).unwrap();
    let step: Answer = app.called(MAIN, record, vec![], AfterCall::Finish);
    assert_eq!(step.effects, [Effect::DropAllWindows, Effect::ExitLoop]);
    assert!(matches!(step.next, Next::Return));
}

#[test]
fn program_ends_at_once_where_no_frame_is_wanted() {
    let mut app = started();
    let step: Answer = app.window_event(MAIN, WindowEvent::Resized(UVec2::new(300, 200)));
    let then = match step.next {
        Next::Call { then, .. } => then,
        _ => panic!("no call"),
    };
    let mut record = app.helper(MAIN).unwrap();
    record.terminate_loop();
    let step: Answer = app.called(MAIN, record, vec![], then);
    assert_eq!(step.effects, [Effect::DropAllWindows, Effect::ExitLoop]);
}

#[test]
fn window_whose_frame_was_skipped_is_not_asked_for_the_end() {
    let mut app = started();
    let mut record = app.helper(MAIN).unwrap();
    record.request_redraw();
    let queued: Vec<Command> = vec![AppCommand::CreateWindow(pending("child", false))];
    let step: Answer = app.called(MAIN, record, queued, AfterCall::Finish);
    assert_eq!(callbacks(&step), "create child");
    let mut child = helper(CHILD);
    child.terminate_loop();
    let then = AfterCreation::Commands(AfterCommands::Return);
    let _: Answer = app.window_created(child, false, vec![], then);
    let mut step: Answer = app.about_to_wait();
    while let Next::DrawFrame {
        rest, terminate, ..
    } = step.next
    {
        step = app.frame_skipped(rest, terminate);
    }
    assert_eq!(step.effects, [Effect::SetControlFlow(ControlFlow::Wait)]);
}
