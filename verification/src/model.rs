//! The event loop as a transition system: what each event does to its state, and
//! what the window system is told to do.

use crate::dimen::UVec2;
use crate::events::{
    is_interaction, key_event_calls, scroll_distance, withheld_when_modal, Callback, ElementState,
    TouchPhase, UserEventGlutin, WindowEvent, WindowId,
};
use crate::helper::{AppCommand, PendingWindow, WindowHelperGlutin};
use crate::modifiers::modifiers_in;
use crate::steps::{
    AfterCallView, AfterCommands, AfterCreation, ControlFlow, Effect, NextView, StepView,
};
use vstd::prelude::*;

verus! {

/// The state of the event loop.
#[verifier::ext_equal]
pub struct AppState<H, V, U> {
    /// The main window, until the program has started.
    pub initial: Option<PendingWindow<H, V>>,
    /// The windows that are open.
    pub windows: Map<WindowId, WindowHelperGlutin>,
    /// The first window. Closing it ends the program.
    pub main_window: Option<WindowId>,
    /// The modal windows, the topmost last.
    pub modal_stack: Seq<WindowId>,
    /// What handlers have asked for, the oldest first.
    pub commands: Seq<AppCommand<H, V>>,
    /// Events that were sent before there was a window, the oldest first.
    pub pending_user_events: Seq<UserEventGlutin<U>>,
}

/// A state, and what is to be done on the way to it and from it.
pub type Transition<H, F, V, U> = (AppState<H, V, U>, StepView<H, F, V, U>);

/// A transition with these effects before its own.
pub open spec fn preceded<H, F, V, U>(
    effects: Seq<Effect>,
    transition: Transition<H, F, V, U>,
) -> Transition<H, F, V, U> {
    (
        transition.0,
        StepView { effects: effects + transition.1.effects, next: transition.1.next },
    )
}

/// The end of an event's handling.
pub open spec fn returning<H, F, V, U>(
    state: AppState<H, V, U>,
    effects: Seq<Effect>,
) -> Transition<H, F, V, U> {
    (state, StepView { effects, next: NextView::Return })
}

/// A call of a window's handler.
pub open spec fn calling<H, F, V, U>(
    state: AppState<H, V, U>,
    effects: Seq<Effect>,
    window: WindowId,
    callbacks: Seq<Callback<F, V, U>>,
    then: AfterCallView<U>,
) -> Transition<H, F, V, U> {
    (state, StepView { effects, next: NextView::Call { window, callbacks, then } })
}

impl<H, V, U> AppState<H, V, U> {
    /// The modal window that has the input to itself, if there is one.
    pub open spec fn top_modal(self) -> Option<WindowId> {
        if self.modal_stack.len() > 0 {
            Some(self.modal_stack.last())
        } else {
            None
        }
    }

    /// Brings the topmost modal window to the front, if there is one.
    pub open spec fn focus_top_modal(self) -> Seq<Effect> {
        match self.top_modal() {
            Some(top) => if self.windows.contains_key(top) {
                seq![Effect::Focus(top)]
            } else {
                seq![]
            },
            None => seq![],
        }
    }

    /// A window wants a frame.
    pub open spec fn any_redraw(self) -> bool {
        exists|id: WindowId| #[trigger]
            self.windows.contains_key(id) && self.windows[id].redraw_requested
    }

    /// No window is left.
    pub open spec fn without_windows(self) -> AppState<H, V, U> {
        AppState { windows: Map::empty(), ..self }
    }

    /// The program has been told to end.
    pub open spec fn exited(self) -> AppState<H, V, U> {
        AppState { modal_stack: Seq::empty(), ..self.without_windows() }
    }

    /// The record of a window has changed. Only windows that are open have one.
    pub open spec fn with_helper(self, window: WindowId, helper: WindowHelperGlutin) -> AppState<
        H,
        V,
        U,
    > {
        if self.windows.contains_key(window) {
            AppState { windows: self.windows.insert(window, helper), ..self }
        } else {
            self
        }
    }

    /// A handler has asked for these things.
    pub open spec fn with_queued(self, queued: Seq<AppCommand<H, V>>) -> AppState<H, V, U> {
        AppState { commands: self.commands + queued, ..self }
    }

    /// A frame is wanted for a window, or not.
    pub open spec fn with_redraw(self, window: WindowId, redraw_requested: bool) -> AppState<
        H,
        V,
        U,
    > {
        self.with_helper(
            window,
            WindowHelperGlutin { redraw_requested, ..self.windows[window] },
        )
    }
}

/// What is done when the program is told to end.
pub open spec fn exit_effects() -> Seq<Effect> {
    seq![Effect::DropAllWindows, Effect::ExitLoop]
}

/// Ends the program.
pub open spec fn exit_app<H, V, U>(state: AppState<H, V, U>) -> (AppState<H, V, U>, Seq<Effect>) {
    (state.exited(), exit_effects())
}

/// The modal windows that are left when one closes.
pub open spec fn without_window(modal_stack: Seq<WindowId>, id: WindowId) -> Seq<WindowId> {
    modal_stack.filter(|window: WindowId| window != id)
}

/// Closes a window. Closing the main window ends the program.
pub open spec fn close_window<H, V, U>(state: AppState<H, V, U>, id: WindowId) -> (
    AppState<H, V, U>,
    Seq<Effect>,
) {
    if state.main_window == Some(id) {
        exit_app(state)
    } else {
        let closed = AppState {
            windows: state.windows.remove(id),
            modal_stack: without_window(state.modal_stack, id),
            ..state
        };
        let dropped = if state.windows.contains_key(id) {
            seq![Effect::DropWindow(id)]
        } else {
            seq![]
        };
        (closed, dropped + closed.focus_top_modal())
    }
}

/// Does what handlers have asked for, the oldest first, up to the first window
/// that has to be created.
pub open spec fn process_commands<H, F, V, U>(
    state: AppState<H, V, U>,
    then: AfterCommands,
) -> Transition<H, F, V, U>
    decreases state.commands.len(),
{
    if state.commands.len() == 0 {
        match then {
            AfterCommands::Return => returning(state, seq![]),
            AfterCommands::ChooseControlFlow => returning(
                state,
                seq![
                    Effect::SetControlFlow(
                        if state.any_redraw() {
                            ControlFlow::Poll
                        } else {
                            ControlFlow::Wait
                        },
                    ),
                ],
            ),
        }
    } else {
        let rest = AppState { commands: state.commands.drop_first(), ..state };
        match state.commands[0] {
            AppCommand::CreateWindow(pending) => (
                rest,
                StepView {
                    effects: seq![],
                    next: NextView::Create { pending, then: AfterCreation::Commands(then) },
                },
            ),
            AppCommand::CloseWindow(id) => {
                let (closed, effects) = close_window(rest, id);
                preceded(effects, process_commands(closed, then))
            },
        }
    }
}

/// After the handler of a window has been called: ends the program if it asked
/// for that, and otherwise does what else it asked for.
pub open spec fn after_callback<H, F, V, U>(
    state: AppState<H, V, U>,
    id: WindowId,
) -> Transition<H, F, V, U> {
    if state.windows.contains_key(id) && state.windows[id].terminate_requested {
        let (exited, effects) = exit_app(state);
        returning(exited, effects)
    } else {
        process_commands(state, AfterCommands::Return)
    }
}

/// The window that an event of the program goes to, open or not.
pub open spec fn addressee<H, V, U>(
    state: AppState<H, V, U>,
    event: UserEventGlutin<U>,
) -> Option<WindowId> {
    match event {
        UserEventGlutin::MouseGrabStatusChanged(id, _) => Some(id),
        UserEventGlutin::FullscreenStatusChanged(id, _) => Some(id),
        UserEventGlutin::UserEvent(Some(id), _) => Some(id),
        UserEventGlutin::UserEvent(None, _) => state.main_window,
    }
}

/// The call that an event of the program leads to.
pub open spec fn user_event_call<F, V, U>(event: UserEventGlutin<U>) -> Callback<F, V, U> {
    match event {
        UserEventGlutin::MouseGrabStatusChanged(_, grabbed) => Callback::MouseGrabStatusChanged(
            grabbed,
        ),
        UserEventGlutin::FullscreenStatusChanged(_, fullscreen) =>
            Callback::FullscreenStatusChanged(fullscreen),
        UserEventGlutin::UserEvent(_, event) => Callback::UserEvent(event),
    }
}

/// The open window that an event of the program goes to.
pub open spec fn recipient<H, V, U>(
    state: AppState<H, V, U>,
    event: UserEventGlutin<U>,
) -> Option<WindowId> {
    match addressee(state, event) {
        Some(id) => if state.windows.contains_key(id) {
            Some(id)
        } else {
            None
        },
        None => None,
    }
}

/// Delivers events that were sent before there was a window. Those for windows
/// that are not open are passed over.
pub open spec fn replay<H, F, V, U>(
    state: AppState<H, V, U>,
    events: Seq<UserEventGlutin<U>>,
) -> Transition<H, F, V, U>
    decreases events.len(),
{
    if events.len() == 0 {
        match state.main_window {
            Some(id) => after_callback(state, id),
            None => returning(state, seq![]),
        }
    } else {
        match recipient(state, events[0]) {
            Some(id) => calling(
                state,
                seq![],
                id,
                seq![user_event_call(events[0])],
                AfterCallView::Replay(events.drop_first()),
            ),
            None => replay(state, events.drop_first()),
        }
    }
}

/// The program starts: its main window is created. Later calls do nothing.
pub open spec fn resumed<H, F, V, U>(state: AppState<H, V, U>) -> Transition<H, F, V, U> {
    match state.initial {
        Some(pending) => (
            AppState { initial: None, ..state },
            StepView {
                effects: seq![],
                next: NextView::Create { pending, then: AfterCreation::Startup },
            },
        ),
        None => returning(state, seq![]),
    }
}

/// Goes on after a window has been created, or could not be.
pub open spec fn after_creation<H, F, V, U>(
    state: AppState<H, V, U>,
    then: AfterCreation,
) -> Transition<H, F, V, U> {
    match then {
        AfterCreation::Startup => replay(
            AppState { pending_user_events: Seq::empty(), ..state },
            state.pending_user_events,
        ),
        AfterCreation::Commands(then) => process_commands(state, then),
    }
}

/// The state with a new window in it. The first window is the main window. A
/// first frame is wanted in any case.
pub open spec fn opened<H, V, U>(
    state: AppState<H, V, U>,
    helper: WindowHelperGlutin,
    modal: bool,
) -> AppState<H, V, U> {
    AppState {
        windows: state.windows.insert(
            helper.id,
            WindowHelperGlutin { redraw_requested: true, ..helper },
        ),
        main_window: if state.main_window is None {
            Some(helper.id)
        } else {
            state.main_window
        },
        modal_stack: if modal {
            state.modal_stack.push(helper.id)
        } else {
            state.modal_stack
        },
        ..state
    }
}

/// A window has been created and its handler has been told of the start.
pub open spec fn window_created<H, F, V, U>(
    state: AppState<H, V, U>,
    helper: WindowHelperGlutin,
    modal: bool,
    queued: Seq<AppCommand<H, V>>,
    then: AfterCreation,
) -> Transition<H, F, V, U> {
    preceded(
        seq![Effect::Focus(helper.id)],
        after_creation(opened(state.with_queued(queued), helper, modal), then),
    )
}

/// A window could not be created. Without a main window there is nothing to go
/// on with.
pub open spec fn creation_failed<H, F, V, U>(
    state: AppState<H, V, U>,
    then: AfterCreation,
) -> Transition<H, F, V, U> {
    if state.main_window is None {
        returning(state, seq![Effect::ExitProcess(1)])
    } else {
        after_creation(state, then)
    }
}

/// A modal window keeps an event from a window.
pub open spec fn is_withheld<H, F, V, U>(
    state: AppState<H, V, U>,
    id: WindowId,
    event: WindowEvent<F, V>,
) -> bool {
    &&& state.top_modal() is Some
    &&& state.top_modal() != Some(id)
    &&& withheld_when_modal(event)
}

/// The effects of a new size: the GL surface follows, unless it would be empty.
pub open spec fn resize_effects(id: WindowId, size: UVec2) -> Seq<Effect> {
    if size.x != 0 && size.y != 0 {
        seq![
            Effect::MakeCurrent(id),
            Effect::ResizeSurface { window: id, width: size.x, height: size.y },
        ]
    } else {
        seq![Effect::MakeCurrent(id)]
    }
}

/// Hands an event to an open window.
pub open spec fn deliver<H, F, V, U>(
    state: AppState<H, V, U>,
    id: WindowId,
    event: WindowEvent<F, V>,
) -> Transition<H, F, V, U> {
    let helper = state.windows[id];
    let center = helper.physical_size.spec_center();
    match event {
        WindowEvent::ScaleFactorChanged(scale_factor) => calling(
            state,
            seq![],
            id,
            seq![Callback::ScaleFactorChanged(scale_factor)],
            AfterCallView::Finish,
        ),
        WindowEvent::Resized(size) => calling(
            state.with_helper(id, WindowHelperGlutin { physical_size: size, ..helper }),
            resize_effects(id, size),
            id,
            seq![Callback::Resize(size)],
            AfterCallView::DrawIfRequested,
        ),
        WindowEvent::CursorMoved(position) => if helper.is_mouse_grabbed {
            calling(
                state,
                seq![Effect::SetCursorPosition(id, center)],
                id,
                seq![
                    Callback::GrabbedMouseMove {
                        position,
                        center: UVec2 {
                            x: helper.physical_size.x / 2,
                            y: helper.physical_size.y / 2,
                        },
                    },
                ],
                AfterCallView::Finish,
            )
        } else {
            calling(state, seq![], id, seq![Callback::MouseMove(position)], AfterCallView::Finish)
        },
        WindowEvent::MouseInput { state: ElementState::Pressed, button } => calling(
            state,
            seq![],
            id,
            seq![Callback::MouseButtonDown(button)],
            AfterCallView::Finish,
        ),
        WindowEvent::MouseInput { state: ElementState::Released, button } => calling(
            state,
            seq![],
            id,
            seq![Callback::MouseButtonUp(button)],
            AfterCallView::Finish,
        ),
        WindowEvent::MouseWheel { delta, phase: TouchPhase::Moved } => calling(
            state,
            seq![],
            id,
            seq![Callback::MouseWheelScroll(scroll_distance(delta))],
            AfterCallView::Finish,
        ),
        WindowEvent::KeyboardInput(event) => calling(
            state,
            seq![],
            id,
            key_event_calls(event),
            AfterCallView::Finish,
        ),
        WindowEvent::ModifiersChanged(bits) => calling(
            state,
            seq![],
            id,
            seq![Callback::KeyboardModifiersChanged(modifiers_in(bits))],
            AfterCallView::Finish,
        ),
        WindowEvent::RedrawRequested => after_callback(state.with_redraw(id, true), id),
        _ => after_callback(state, id),
    }
}

/// Something happened to a window.
pub open spec fn window_event<H, F, V, U>(
    state: AppState<H, V, U>,
    id: WindowId,
    event: WindowEvent<F, V>,
) -> Transition<H, F, V, U> {
    if is_withheld(state, id, event) {
        returning(
            state,
            if is_interaction(event) {
                state.focus_top_modal()
            } else {
                seq![]
            },
        )
    } else if event is CloseRequested {
        let (closed, effects) = close_window(state, id);
        returning(closed, effects)
    } else if state.windows.contains_key(id) {
        deliver(state, id, event)
    } else {
        returning(state, seq![])
    }
}

/// The handler of a window has been called. It left `helper` as its record, and
/// asked for what is in `queued`.
pub open spec fn called<H, F, V, U>(
    state: AppState<H, V, U>,
    window: WindowId,
    helper: WindowHelperGlutin,
    queued: Seq<AppCommand<H, V>>,
    then: AfterCallView<U>,
) -> Transition<H, F, V, U> {
    let updated = state.with_helper(window, helper).with_queued(queued);
    match then {
        AfterCallView::Finish => after_callback(updated, window),
        AfterCallView::DrawIfRequested => if updated.windows.contains_key(window)
            && updated.windows[window].redraw_requested {
            calling(
                updated.with_redraw(window, false),
                seq![],
                window,
                seq![Callback::Draw],
                AfterCallView::Finish,
            )
        } else {
            after_callback(updated, window)
        },
        AfterCallView::Replay(events) => replay(updated, events),
    }
}

/// An event of the program has arrived. Until there is a window it is kept.
pub open spec fn user_event<H, F, V, U>(
    state: AppState<H, V, U>,
    event: UserEventGlutin<U>,
) -> Transition<H, F, V, U> {
    if state.main_window is None {
        returning(
            AppState { pending_user_events: state.pending_user_events.push(event), ..state },
            seq![],
        )
    } else {
        match recipient(state, event) {
            Some(id) => calling(
                state,
                seq![],
                id,
                seq![user_event_call(event)],
                AfterCallView::Finish,
            ),
            None => returning(state, seq![]),
        }
    }
}

/// Draws the windows in `rest` that want a frame, up to the first of them, and
/// then finishes the round. `terminate` says whether a window before them asked
/// for the event loop to end.
pub open spec fn draw_windows<H, F, V, U>(
    state: AppState<H, V, U>,
    rest: Seq<WindowId>,
    terminate: bool,
) -> Transition<H, F, V, U>
    decreases rest.len(),
{
    if rest.len() == 0 {
        if terminate {
            let (exited, effects) = exit_app(state);
            returning(exited, effects)
        } else {
            process_commands(state, AfterCommands::ChooseControlFlow)
        }
    } else {
        let id = rest[0];
        if !state.windows.contains_key(id) {
            draw_windows(state, rest.drop_first(), terminate)
        } else if state.windows[id].redraw_requested {
            (
                state.with_redraw(id, false),
                StepView {
                    effects: seq![],
                    next: NextView::DrawFrame { window: id, rest: rest.drop_first(), terminate },
                },
            )
        } else {
            draw_windows(
                state,
                rest.drop_first(),
                terminate || state.windows[id].terminate_requested,
            )
        }
    }
}

/// The windows that are open, each once, in some order.
pub open spec fn lists_windows<H, V, U>(state: AppState<H, V, U>, order: Seq<WindowId>) -> bool {
    &&& order.no_duplicates()
    &&& forall|id: WindowId| #[trigger] order.contains(id) <==> state.windows.contains_key(id)
}

/// A frame of a window has been drawn.
pub open spec fn frame_drawn<H, F, V, U>(
    state: AppState<H, V, U>,
    window: WindowId,
    helper: WindowHelperGlutin,
    queued: Seq<AppCommand<H, V>>,
    rest: Seq<WindowId>,
    terminate: bool,
) -> Transition<H, F, V, U> {
    draw_windows(
        state.with_helper(window, helper).with_queued(queued),
        rest,
        terminate || helper.terminate_requested,
    )
}

/// The event loop has ended.
pub open spec fn exiting<H, F, V, U>(state: AppState<H, V, U>) -> Transition<H, F, V, U> {
    returning(state.without_windows(), seq![Effect::DropAllWindows])
}

} // verus!
