use windowing::cursor::{cursor_icon, cursor_name, MouseCursorType};
use windowing::dimen::{IVec2, UVec2};
use windowing::error::EventLoopSendError;
use windowing::events::{UserEventGlutin, UserEventSenderGlutin};
use windowing::helper::{
    AppCommand, CursorGrab, CursorGrabMode, CursorGrabStep, WindowEventLoopAction,
    WindowHelperGlutin,
};
use windowing::modifiers::{ModifiersState, ALT, CONTROL, SHIFT, SUPER};
use windowing::options::{WindowCreationMode, WindowCreationOptions, WindowFullscreenMode};
use windowing::window::{exit_status, WindowCreationError, WindowGlutin};
use winit::window::CursorIcon;

fn helper() -> WindowHelperGlutin {
    WindowHelperGlutin::new(5, UVec2::new(641, 480))
}

fn options() -> WindowCreationOptions<(u32, u32)> {
    WindowCreationOptions {
        mode: WindowCreationMode::FullscreenBorderless,
        multisampling: 0,
        vsync: false,
        always_on_top: false,
        resizable: false,
        maximized: false,
        transparent: false,
        decorations: false,
    }
}

/// The modes that are tried, and whether the cursor is grabbed in the end.
fn grab(
    helper: &mut WindowHelperGlutin,
    grabbed: bool,
    accepted: &[CursorGrabMode],
) -> (Vec<CursorGrabMode>, bool) {
    let (mut grab, _) = helper.set_cursor_grab(grabbed);
    let mut outcome = Ok(());
    let mut modes = Vec::new();
    loop {
        match helper.continue_cursor_grab::<&str, ()>(grab, outcome) {
            CursorGrabStep::Try(next, mode) => {
                modes.push(mode);
                grab = next;
                outcome = if accepted.contains(&mode) {
                    Ok(())
                } else {
                    Err("refused")
                };
            }
            CursorGrabStep::Done(event) => {
                assert!(matches!(
                    event,
                    UserEventGlutin::MouseGrabStatusChanged(5, status) if status == grabbed
                ));
                return (modes, true);
            }
            CursorGrabStep::Failed(error) => {
                assert_eq!(error.message, "Could not grab cursor");
                assert_eq!(error.cause, "refused");
                return (modes, false);
            }
        }
    }
}

#[test]
fn new_window_wants_nothing() {
    let helper = helper();
    assert_eq!(helper.id, 5);
    assert!(!helper.is_redraw_requested());
    assert!(!helper.is_mouse_grabbed);
    assert_eq!(helper.physical_size, UVec2::new(641, 480));
    assert_eq!(helper.get_event_loop_action(), WindowEventLoopAction::Continue);
}

#[test]
fn frames_and_the_end_can_be_asked_for() {
    let mut helper = helper();
    helper.request_redraw();
    assert!(helper.is_redraw_requested());
    helper.set_redraw_requested(false);
    assert!(!helper.is_redraw_requested());
    helper.set_redraw_requested(true);
    assert!(helper.is_redraw_requested());
    helper.terminate_loop();
    assert_eq!(helper.get_event_loop_action(), WindowEventLoopAction::Exit);
    assert!(helper.is_redraw_requested());
}

#[test]
fn windows_are_asked_for_in_order() {
    let mut commands: Vec<AppCommand<&str, (u32, u32)>> = Vec::new();
    let helper = helper();
    helper.close_window(&mut commands);
    helper.create_window(
        &mut commands,
        "Child",
        options(),
        "handler",
        true,
        Some(IVec2::new(-3, 4)),
        UVec2::new(10, 20),
        Some(77),
    );
    helper.create_window(
        &mut commands,
        "",
        options(),
        "other",
        false,
        None,
        UVec2::new(10, 20),
        None,
    );
    assert_eq!(commands.len(), 3);
    assert!(matches!(commands[0], AppCommand::CloseWindow(5)));
    match &commands[1] {
        AppCommand::CreateWindow(pending) => {
            assert_eq!(pending.title, "Child");
            assert_eq!(pending.handler, "handler");
            assert!(pending.modal);
            assert_eq!(
                pending.parent_rect,
                Some((IVec2::new(-3, 4), UVec2::new(10, 20)))
            );
            assert_eq!(pending.owner_hwnd, Some(77));
        }
        AppCommand::CloseWindow(_) => panic!("not a window to create"),
    }
    match &commands[2] {
        AppCommand::CreateWindow(pending) => {
            assert_eq!(pending.title, "");
            assert_eq!(pending.handler, "other");
            assert!(!pending.modal);
            assert_eq!(pending.parent_rect, None);
            assert_eq!(pending.owner_hwnd, None);
        }
        AppCommand::CloseWindow(_) => panic!("not a window to create"),
    }
}

#[test]
fn cursor_is_locked_or_else_confined() {
    let locked = CursorGrabMode::Locked;
    let confined = CursorGrabMode::Confined;
    let mut helper = helper();
    assert_eq!(
        helper.set_cursor_grab(true),
        (
            CursorGrab {
                grabbed: true,
                trying: None
            },
            IVec2::new(320, 240)
        )
    );
    assert_eq!(grab(&mut helper, true, &[locked]), (vec![locked], true));
    assert!(helper.is_mouse_grabbed);
    helper.is_mouse_grabbed = false;
    assert_eq!(
        grab(&mut helper, true, &[confined]),
        (vec![locked, confined], true)
    );
    assert!(helper.is_mouse_grabbed);
}

#[test]
fn cursor_that_cannot_be_held_is_not_grabbed() {
    let mut helper = helper();
    assert_eq!(
        grab(&mut helper, true, &[]),
        (vec![CursorGrabMode::Locked, CursorGrabMode::Confined], false)
    );
    assert!(!helper.is_mouse_grabbed);
}

#[test]
fn cursor_is_released() {
    let mut helper = helper();
    helper.is_mouse_grabbed = true;
    assert_eq!(
        grab(&mut helper, false, &[]),
        (vec![CursorGrabMode::Free], false)
    );
    assert!(helper.is_mouse_grabbed);
    assert_eq!(
        grab(&mut helper, false, &[CursorGrabMode::Free]),
        (vec![CursorGrabMode::Free], true)
    );
    assert!(!helper.is_mouse_grabbed);
}

#[test]
fn cursor_that_cannot_be_moved_is_not_grabbed() {
    let mut helper = helper();
    let (grab, _) = helper.set_cursor_grab(true);
    match helper.continue_cursor_grab::<&str, ()>(grab, Err("no pointer")) {
        CursorGrabStep::Failed(error) => {
            assert_eq!(error.message, "Failed to move cursor to center of window");
            assert_eq!(error.cause, "no pointer");
        }
        _ => panic!("went on"),
    }
    assert!(!helper.is_mouse_grabbed);
}

#[test]
fn fullscreen_is_announced_to_the_window() {
    let on = helper().set_fullscreen_mode::<()>(WindowFullscreenMode::FullscreenBorderless);
    assert!(on.borderless);
    assert!(matches!(
        on.notice,
        UserEventGlutin::FullscreenStatusChanged(5, true)
    ));
    let off = helper().set_fullscreen_mode::<()>(WindowFullscreenMode::Windowed);
    assert!(!off.borderless);
    assert!(matches!(
        off.notice,
        UserEventGlutin::FullscreenStatusChanged(5, false)
    ));
}

#[test]
fn events_are_addressed_to_the_sender_s_window() {
    let sender = helper().create_user_event_sender();
    assert_eq!(sender, UserEventSenderGlutin::new(Some(5)));
    assert!(matches!(
        sender.send_event("hello"),
        UserEventGlutin::UserEvent(Some(5), "hello")
    ));
}

#[test]
fn closed_event_loop_takes_no_events() {
    let sender = UserEventSenderGlutin::new(None);
    assert_eq!(sender.sent::<()>(Ok(())), Ok(()));
    assert_eq!(
        sender.sent(Err("closed")),
        Err(EventLoopSendError::EventLoopNoLongerExists)
    );
}

#[test]
fn icons_hold_as_many_pixels_as_they_say() {
    let helper = helper();
    assert!(helper
        .set_icon_from_rgba_pixels(vec![255; 24], UVec2::new(3, 2))
        .is_ok());
    assert!(helper
        .set_icon_from_rgba_pixels(vec![], UVec2::new(0, 7))
        .is_ok());
    for (bytes, size) in [
        (23, UVec2::new(3, 2)),
        (24, UVec2::new(3, 3)),
        (0, UVec2::new(1, 1)),
    ] {
        match helper.set_icon_from_rgba_pixels(vec![0; bytes], size) {
            Ok(_) => panic!("accepted {} bytes", bytes),
            Err(error) => assert_eq!(error.message, "Icon data was invalid"),
        }
    }
}

#[test]
fn each_look_has_its_icon() {
    let icons = [
        (MouseCursorType::Default, CursorIcon::Default),
        (MouseCursorType::Pointer, CursorIcon::Pointer),
        (MouseCursorType::Crosshair, CursorIcon::Crosshair),
        (MouseCursorType::Text, CursorIcon::Text),
        (MouseCursorType::VerticalText, CursorIcon::VerticalText),
        (MouseCursorType::Move, CursorIcon::Move),
        (MouseCursorType::Grab, CursorIcon::Grab),
        (MouseCursorType::Grabbing, CursorIcon::Grabbing),
        (MouseCursorType::Wait, CursorIcon::Wait),
        (MouseCursorType::Progress, CursorIcon::Progress),
        (MouseCursorType::Cell, CursorIcon::Cell),
        (MouseCursorType::Alias, CursorIcon::Alias),
        (MouseCursorType::Copy, CursorIcon::Copy),
        (MouseCursorType::NoDrop, CursorIcon::NoDrop),
        (MouseCursorType::NotAllowed, CursorIcon::NotAllowed),
        (MouseCursorType::ColResize, CursorIcon::ColResize),
        (MouseCursorType::RowResize, CursorIcon::RowResize),
        (MouseCursorType::EwResize, CursorIcon::EwResize),
        (MouseCursorType::NsResize, CursorIcon::NsResize),
        (MouseCursorType::NeswResize, CursorIcon::NeswResize),
        (MouseCursorType::NwseResize, CursorIcon::NwseResize),
        (MouseCursorType::ZoomIn, CursorIcon::ZoomIn),
        (MouseCursorType::ZoomOut, CursorIcon::ZoomOut),
    ];
    for (cursor, icon) in icons {
        assert_eq!(cursor_icon(cursor), icon);
        assert_eq!(helper().set_cursor(cursor), icon);
        assert_eq!(cursor_name(cursor), icon.name());
    }
}

#[test]
fn modifiers_are_read_from_their_bits() {
    let none = ModifiersState {
        ctrl: false,
        alt: false,
        shift: false,
        logo: false,
    };
    assert_eq!(ModifiersState::from_bits(0), none);
    assert_eq!(
        ModifiersState::from_bits(SHIFT),
        ModifiersState {
            shift: true,
            ..none
        }
    );
    assert_eq!(
        ModifiersState::from_bits(CONTROL),
        ModifiersState { ctrl: true, ..none }
    );
    assert_eq!(
        ModifiersState::from_bits(ALT),
        ModifiersState { alt: true, ..none }
    );
    assert_eq!(
        ModifiersState::from_bits(SUPER),
        ModifiersState { logo: true, ..none }
    );
    assert_eq!(
        ModifiersState::from_bits(CONTROL | SHIFT),
        ModifiersState {
            ctrl: true,
            shift: true,
            ..none
        }
    );
    assert_eq!(
        ModifiersState::from_bits(!(CONTROL | SHIFT | ALT | SUPER)),
        none
    );
}

#[test]
fn bits_are_those_of_the_window_system() {
    let flags = winit::keyboard::ModifiersState::SHIFT | winit::keyboard::ModifiersState::SUPER;
    assert_eq!(
        ModifiersState::from_bits(flags.bits()),
        ModifiersState {
            ctrl: false,
            alt: false,
            shift: true,
            logo: true
        }
    );
}

#[test]
fn window_takes_what_came_of_the_event_loop() {
    match WindowGlutin::new::<&str>(Ok(17), "Main", options()) {
        Ok(window) => {
            assert_eq!(window.event_loop, 17);
            assert_eq!(window.title, "Main");
            assert_eq!(window.create_user_event_sender().target, None);
        }
        Err(_) => panic!("no window"),
    }
    match WindowGlutin::<u8, (u32, u32)>::new(Err("no display"), "Main", options()) {
        Ok(_) => panic!("a window without an event loop"),
        Err(WindowCreationError::EventLoopCreationFailed(cause)) => {
            assert_eq!(cause, "no display")
        }
    }
}

#[test]
fn process_ends_as_its_event_loop_did() {
    assert_eq!(exit_status::<&str>(&Ok(())), 0);
    assert_eq!(exit_status(&Err("lost the display")), 1);
}
