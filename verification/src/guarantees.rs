//! What a program can rely on, event by event: what it finds afterwards, and what
//! its handlers are told, in terms of what was there before.

use crate::dimen::{IVec2, UVec2};
use crate::events::{
    Callback, ElementState, MouseButton, MouseScrollDelta, MouseScrollDistance, TouchPhase,
    WindowEvent, WindowId,
};
use crate::helper::WindowHelperGlutin;
use crate::keyboard::{key_code, KeyEvent};
use crate::laws::lemma_without_window;
use crate::modal::lemma_close_other;
use crate::model::{process_commands, window_event, AppState};
use crate::modifiers::ModifiersState;
use crate::steps::{AfterCallView, AfterCommands, Effect, NextView, StepView};
use vstd::prelude::*;

verus! {

/// While a modal window is open, no other window learns of the mouse, the keys or
/// the focus, and none can be closed by its user. Nothing changes. A press of a
/// button, a request to close and the focus bring the modal window to the front.
pub proof fn law_open_modal_shields_the_others<H, F, V, U>(
    state: AppState<H, V, U>,
    id: WindowId,
    top: WindowId,
    position: V,
    button: MouseButton,
    delta: MouseScrollDelta<V>,
    phase: TouchPhase,
    key: KeyEvent,
    bits: u32,
)
    requires
        state.modal_stack.len() > 0,
        top == state.modal_stack[state.modal_stack.len() - 1],
        id != top,
    ensures
        ({
            let ignored = (
                state,
                StepView::<H, F, V, U> { effects: seq![], next: NextView::Return },
            );
            let refocused = (
                state,
                StepView::<H, F, V, U> {
                    effects: if state.windows.contains_key(top) {
                        seq![Effect::Focus(top)]
                    } else {
                        seq![]
                    },
                    next: NextView::Return,
                },
            );
            &&& window_event(state, id, WindowEvent::<F, V>::CursorMoved(position)) == ignored
            &&& window_event(state, id, WindowEvent::<F, V>::MouseWheel { delta, phase }) == ignored
            &&& window_event(state, id, WindowEvent::<F, V>::KeyboardInput(key)) == ignored
            &&& window_event(state, id, WindowEvent::<F, V>::ModifiersChanged(bits)) == ignored
            &&& window_event(
                state,
                id,
                WindowEvent::<F, V>::MouseInput { state: ElementState::Released, button },
            ) == ignored
            &&& window_event(
                state,
                id,
                WindowEvent::<F, V>::MouseInput { state: ElementState::Pressed, button },
            ) == refocused
            &&& window_event(state, id, WindowEvent::<F, V>::CloseRequested) == refocused
            &&& window_event(state, id, WindowEvent::<F, V>::Focused(true)) == refocused
        }),
{
}

/// The handler of an open window is told of each turn of a button: of the press as
/// a press and of the release as a release, with the button that it was.
pub proof fn law_buttons_are_told<H, F, V, U>(
    state: AppState<H, V, U>,
    id: WindowId,
    button: MouseButton,
)
    requires
        state.windows.contains_key(id),
        state.modal_stack.len() > 0 ==> state.modal_stack[state.modal_stack.len() - 1] == id,
    ensures
        window_event(
            state,
            id,
            WindowEvent::<F, V>::MouseInput { state: ElementState::Pressed, button },
        ) == (
            state,
            StepView::<H, F, V, U> {
                effects: seq![],
                next: NextView::Call {
                    window: id,
                    callbacks: seq![Callback::MouseButtonDown(button)],
                    then: AfterCallView::Finish,
                },
            },
        ),
        window_event(
            state,
            id,
            WindowEvent::<F, V>::MouseInput { state: ElementState::Released, button },
        ) == (
            state,
            StepView::<H, F, V, U> {
                effects: seq![],
                next: NextView::Call {
                    window: id,
                    callbacks: seq![Callback::MouseButtonUp(button)],
                    then: AfterCallView::Finish,
                },
            },
        ),
{
}

/// The handler of an open window is told where the cursor is. If the cursor is
/// grabbed, it is put back to the middle of the window, and the handler is told
/// from where and to where.
pub proof fn law_cursor_is_told<H, F, V, U>(
    state: AppState<H, V, U>,
    id: WindowId,
    position: V,
)
    requires
        state.windows.contains_key(id),
        state.modal_stack.len() > 0 ==> state.modal_stack[state.modal_stack.len() - 1] == id,
    ensures
        !state.windows[id].is_mouse_grabbed ==> window_event(
            state,
            id,
            WindowEvent::<F, V>::CursorMoved(position),
        ) == (
            state,
            StepView::<H, F, V, U> {
                effects: seq![],
                next: NextView::Call {
                    window: id,
                    callbacks: seq![Callback::MouseMove(position)],
                    then: AfterCallView::Finish,
                },
            },
        ),
        state.windows[id].is_mouse_grabbed ==> ({
            let size = state.windows[id].physical_size;
            let center = UVec2 { x: size.x / 2, y: size.y / 2 };
            window_event(state, id, WindowEvent::<F, V>::CursorMoved(position)) == (
                state,
                StepView::<H, F, V, U> {
                    effects: seq![
                        Effect::SetCursorPosition(
                            id,
                            IVec2 { x: center.x as i32, y: center.y as i32 },
                        ),
                    ],
                    next: NextView::Call {
                        window: id,
                        callbacks: seq![Callback::GrabbedMouseMove { position, center }],
                        then: AfterCallView::Finish,
                    },
                },
            )
        }),
{
}

/// The handler of an open window is told how far the wheel was turned, in the
/// measure that it came in, while it turns and not when it starts or stops.
pub proof fn law_wheel_is_told<H, F, V, U>(
    state: AppState<H, V, U>,
    id: WindowId,
    distance: V,
    delta: MouseScrollDelta<V>,
    phase: TouchPhase,
)
    requires
        state.windows.contains_key(id),
        state.modal_stack.len() > 0 ==> state.modal_stack[state.modal_stack.len() - 1] == id,
    ensures
        window_event(
            state,
            id,
            WindowEvent::<F, V>::MouseWheel {
                delta: MouseScrollDelta::LineDelta(distance),
                phase: TouchPhase::Moved,
            },
        ) == (
            state,
            StepView::<H, F, V, U> {
                effects: seq![],
                next: NextView::Call {
                    window: id,
                    callbacks: seq![
                        Callback::MouseWheelScroll(MouseScrollDistance::Lines(distance)),
                    ],
                    then: AfterCallView::Finish,
                },
            },
        ),
        window_event(
            state,
            id,
            WindowEvent::<F, V>::MouseWheel {
                delta: MouseScrollDelta::PixelDelta(distance),
                phase: TouchPhase::Moved,
            },
        ) == (
            state,
            StepView::<H, F, V, U> {
                effects: seq![],
                next: NextView::Call {
                    window: id,
                    callbacks: seq![
                        Callback::MouseWheelScroll(MouseScrollDistance::Pixels(distance)),
                    ],
                    then: AfterCallView::Finish,
                },
            },
        ),
        phase != TouchPhase::Moved ==> window_event::<H, F, V, U>(
            state,
            id,
            WindowEvent::MouseWheel { delta, phase },
        ) == window_event::<H, F, V, U>(state, id, WindowEvent::Other),
{
}

/// The handler of an open window is told of each key: of what a press types,
/// character by character; then of the key itself unless it is held down; and of
/// its release. It gets the number of the key, or 0 where there is none.
pub proof fn law_keys_are_told<H, F, V, U>(state: AppState<H, V, U>, id: WindowId, key: KeyEvent)
    requires
        state.windows.contains_key(id),
        state.modal_stack.len() > 0 ==> state.modal_stack[state.modal_stack.len() - 1] == id,
    ensures
        ({
            let (after, step) = window_event(state, id, WindowEvent::<F, V>::KeyboardInput(key));
            let virtual_key_code = key_code(key.logical_key, key.location);
            let scancode: u32 = match key.scancode {
                Some(number) => number,
                None => 0,
            };
            let text: Seq<char> = match key.text {
                Some(text) => text@,
                None => seq![],
            };
            &&& after == state
            &&& step.effects == Seq::<Effect>::empty()
            &&& step.next is Call
            &&& step.next->Call_window == id
            &&& step.next->Call_then is Finish
            &&& key.state == ElementState::Released ==> step.next->callbacks == seq![
                Callback::<F, V, U>::KeyUp { virtual_key_code, scancode },
            ]
            &&& key.state == ElementState::Pressed ==> ({
                let calls = step.next->callbacks;
                &&& calls.len() == text.len() + (if key.repeat {
                    0int
                } else {
                    1
                })
                &&& forall|i: int|
                    0 <= i < text.len() ==> #[trigger] calls[i] == Callback::<
                        F,
                        V,
                        U,
                    >::KeyboardChar(text[i])
                &&& !key.repeat ==> calls[text.len() as int] == Callback::<F, V, U>::KeyDown {
                    virtual_key_code,
                    scancode,
                }
            })
        }),
{
    if let Some(text) = key.text {
        crate::events::law_text_typed_in_order::<F, V, U>(text@);
    }
}

/// The handler of an open window is told which modifier keys are held down.
pub proof fn law_modifiers_are_told<H, F, V, U>(
    state: AppState<H, V, U>,
    id: WindowId,
    bits: u32,
)
    requires
        state.windows.contains_key(id),
        state.modal_stack.len() > 0 ==> state.modal_stack[state.modal_stack.len() - 1] == id,
    ensures
        window_event(state, id, WindowEvent::<F, V>::ModifiersChanged(bits)) == (
            state,
            StepView::<H, F, V, U> {
                effects: seq![],
                next: NextView::Call {
                    window: id,
                    callbacks: seq![
                        Callback::KeyboardModifiersChanged(
                            ModifiersState {
                                ctrl: bits & 0x20 != 0,
                                alt: bits & 0x100 != 0,
                                shift: bits & 0x4 != 0,
                                logo: bits & 0x800 != 0,
                            },
                        ),
                    ],
                    then: AfterCallView::Finish,
                },
            },
        ),
{
}

/// The handler of an open window is told of a new scale factor and of a new size,
/// whether or not a modal window is open. The window's record keeps the new size,
/// and its GL surface follows, with its own context current, unless a side is nil.
pub proof fn law_size_and_scale_are_told<H, F, V, U>(
    state: AppState<H, V, U>,
    id: WindowId,
    scale_factor: F,
    size: UVec2,
)
    requires
        state.windows.contains_key(id),
    ensures
        window_event(state, id, WindowEvent::<F, V>::ScaleFactorChanged(scale_factor)) == (
            state,
            StepView::<H, F, V, U> {
                effects: seq![],
                next: NextView::Call {
                    window: id,
                    callbacks: seq![Callback::ScaleFactorChanged(scale_factor)],
                    then: AfterCallView::Finish,
                },
            },
        ),
        window_event(state, id, WindowEvent::<F, V>::Resized(size)) == (
            AppState {
                windows: state.windows.insert(
                    id,
                    WindowHelperGlutin { physical_size: size, ..state.windows[id] },
                ),
                ..state
            },
            StepView::<H, F, V, U> {
                effects: if size.x == 0 || size.y == 0 {
                    seq![Effect::MakeCurrent(id)]
                } else {
                    seq![
                        Effect::MakeCurrent(id),
                        Effect::ResizeSurface { window: id, width: size.x, height: size.y },
                    ]
                },
                next: NextView::Call {
                    window: id,
                    callbacks: seq![Callback::Resize(size)],
                    then: AfterCallView::DrawIfRequested,
                },
            },
        ),
{
}

/// A request to redraw is noted in the window's record. Neither it nor the other
/// events that handlers are not told of does more than let the event loop go on,
/// or end where the window has asked for that.
pub proof fn law_untold_events<H, F, V, U>(state: AppState<H, V, U>, id: WindowId)
    requires
        state.windows.contains_key(id),
    ensures
        ({
            let wanting = AppState {
                windows: state.windows.insert(
                    id,
                    WindowHelperGlutin { redraw_requested: true, ..state.windows[id] },
                ),
                ..state
            };
            let exit = StepView::<H, F, V, U> {
                effects: seq![Effect::DropAllWindows, Effect::ExitLoop],
                next: NextView::Return,
            };
            let ended = AppState {
                windows: Map::empty(),
                modal_stack: Seq::empty(),
                ..state
            };
            let redraw = window_event(state, id, WindowEvent::<F, V>::RedrawRequested);
            let unfocused = window_event(state, id, WindowEvent::<F, V>::Focused(false));
            let other = window_event(state, id, WindowEvent::<F, V>::Other);
            &&& state.windows[id].terminate_requested ==> {
                &&& redraw == (ended, exit)
                &&& unfocused == (ended, exit)
                &&& other == (ended, exit)
            }
            &&& !state.windows[id].terminate_requested ==> {
                &&& redraw == process_commands::<H, F, V, U>(wanting, AfterCommands::Return)
                &&& unfocused == process_commands::<H, F, V, U>(state, AfterCommands::Return)
                &&& other == process_commands::<H, F, V, U>(state, AfterCommands::Return)
            }
            &&& (state.modal_stack.len() == 0 || state.modal_stack[state.modal_stack.len() - 1]
                == id) ==> window_event(state, id, WindowEvent::<F, V>::Focused(true)) == other
        }),
{
}

/// What is reported of a window that is not open is ignored.
pub proof fn law_closed_windows_are_silent<H, F, V, U>(
    state: AppState<H, V, U>,
    id: WindowId,
    event: WindowEvent<F, V>,
    scale_factor: F,
    size: UVec2,
)
    requires
        !state.windows.contains_key(id),
        state.main_window != Some(id),
    ensures
        ({
            let ignored = (
                state,
                StepView::<H, F, V, U> { effects: seq![], next: NextView::Return },
            );
            &&& state.modal_stack.len() == 0 ==> window_event(state, id, event) == ignored
            &&& window_event(state, id, WindowEvent::<F, V>::ScaleFactorChanged(scale_factor))
                == ignored
            &&& window_event(state, id, WindowEvent::<F, V>::Resized(size)) == ignored
            &&& window_event(state, id, WindowEvent::<F, V>::RedrawRequested) == ignored
            &&& window_event(state, id, WindowEvent::<F, V>::Focused(false)) == ignored
            &&& window_event(state, id, WindowEvent::<F, V>::Other) == ignored
        }),
{
    if state.modal_stack.len() == 0 {
        lemma_without_window(state.modal_stack, id);
        assert(state.windows.remove(id) == state.windows);
    }
}

/// The user can close a window that input is not withheld from. Closing the main
/// window drops all windows and ends the program. Any other is dropped alone, is
/// no longer modal, and the modal window below it comes to the front.
pub proof fn law_close_request<H, F, V, U>(
    state: AppState<H, V, U>,
    id: WindowId,
    below: Seq<WindowId>,
)
    requires
        state.modal_stack == below.push(id) || (state.modal_stack.len() == 0 && below.len() == 0),
        !below.contains(id),
    ensures
        state.main_window == Some(id) ==> window_event(
            state,
            id,
            WindowEvent::<F, V>::CloseRequested,
        ) == (
            AppState { windows: Map::empty(), modal_stack: Seq::empty(), ..state },
            StepView::<H, F, V, U> {
                effects: seq![Effect::DropAllWindows, Effect::ExitLoop],
                next: NextView::Return,
            },
        ),
        state.main_window != Some(id) ==> window_event(
            state,
            id,
            WindowEvent::<F, V>::CloseRequested,
        ) == (
            AppState { windows: state.windows.remove(id), modal_stack: below, ..state },
            StepView::<H, F, V, U> {
                effects: (if state.windows.contains_key(id) {
                    seq![Effect::DropWindow(id)]
                } else {
                    seq![]
                }) + (if below.len() > 0 && state.windows.contains_key(below[below.len() - 1]) {
                    seq![Effect::Focus(below[below.len() - 1])]
                } else {
                    seq![]
                }),
                next: NextView::Return,
            },
        ),
{
    let none = Seq::<WindowId>::empty();
    assert(below + none == below);
    assert(below + seq![id] + none == below.push(id));
    if state.main_window != Some(id) {
        if state.modal_stack.len() == 0 {
            assert(state.modal_stack == below + none);
        }
        lemma_close_other(state, id, below, none);
    }
}

} // verus!
