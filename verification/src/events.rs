//! What the window system reports, and what handlers are told of it.
//!
//! `F` is the type of scale factors and `V` that of positions and distances on
//! the screen. Both are carried through unread. `U` is the type of the events
//! that a program sends to itself.

use crate::dimen::UVec2;
use crate::error::EventLoopSendError;
use crate::keyboard::{key_code, KeyEvent, VirtualKeyCode};
use crate::modifiers::ModifiersState;
use vstd::prelude::*;
use vstd::std_specs::iter::IteratorSpec;

verus! {

/// The number by which the window system knows a window.
pub type WindowId = u64;

/// Whether a key or a button goes down or up.
#[derive(Clone, Copy, Debug, PartialEq, Eq, Structural)]
pub enum ElementState {
    Pressed,
    Released,
}

/// Where a movement on a touch device stands.
#[derive(Clone, Copy, Debug, PartialEq, Eq, Structural)]
pub enum TouchPhase {
    Started,
    Moved,
    Ended,
    Cancelled,
}

#[derive(Clone, Copy, Debug, PartialEq, Eq, Structural)]
pub enum MouseButton {
    Left,
    Right,
    Middle,
    Back,
    Forward,
    Other(u16),
}

/// A turn of the mouse wheel, as the window system measures it.
#[derive(Debug)]
pub enum MouseScrollDelta<V> {
    LineDelta(V),
    PixelDelta(V),
}

/// A turn of the mouse wheel, as a handler is told of it. The wheel turns in two
/// directions; there is no movement in a third.
#[derive(Debug)]
pub enum MouseScrollDistance<V> {
    Lines(V),
    Pixels(V),
}

/// Something that happened to a window.
#[derive(Debug)]
pub enum WindowEvent<F, V> {
    ScaleFactorChanged(F),
    Resized(UVec2),
    CursorMoved(V),
    MouseInput { state: ElementState, button: MouseButton },
    MouseWheel { delta: MouseScrollDelta<V>, phase: TouchPhase },
    KeyboardInput(KeyEvent),
    /// The modifier keys that are held down now, by the bits of their flags.
    ModifiersChanged(u32),
    RedrawRequested,
    CloseRequested,
    /// The window gained the focus, or lost it.
    Focused(bool),
    /// Anything else.
    Other,
}

/// An event that goes through the event loop without the window system.
#[derive(Debug)]
pub enum UserEventGlutin<U> {
    MouseGrabStatusChanged(WindowId, bool),
    FullscreenStatusChanged(WindowId, bool),
    /// An event of the program. `None` stands for the main window.
    UserEvent(Option<WindowId>, U),
}

/// A method of a window's handler that is to be called.
#[derive(Debug)]
pub enum Callback<F, V, U> {
    ScaleFactorChanged(F),
    Resize(UVec2),
    /// Draw a frame, and show it.
    Draw,
    MouseMove(V),
    /// The cursor was at `position` and has been put back to `center`. The
    /// distance between them is the movement; none is reported where it is nil.
    GrabbedMouseMove { position: V, center: UVec2 },
    MouseButtonDown(MouseButton),
    MouseButtonUp(MouseButton),
    MouseWheelScroll(MouseScrollDistance<V>),
    KeyboardChar(char),
    KeyDown { virtual_key_code: Option<VirtualKeyCode>, scancode: u32 },
    KeyUp { virtual_key_code: Option<VirtualKeyCode>, scancode: u32 },
    KeyboardModifiersChanged(ModifiersState),
    MouseGrabStatusChanged(bool),
    FullscreenStatusChanged(bool),
    UserEvent(U),
}

/// Events by which a user works with one window: the mouse, the keys, requests to
/// close it, and giving it the focus.
pub open spec fn blocked_when_modal<F, V>(event: WindowEvent<F, V>) -> bool {
    ||| event is CursorMoved
    ||| event is MouseInput
    ||| event is MouseWheel
    ||| event is KeyboardInput
    ||| event is CloseRequested
    ||| event matches WindowEvent::Focused(true)
}

/// Events that are withheld from all windows but the topmost while a modal
/// window is open. Besides those of [`blocked_when_modal`], the modifier keys are
/// input too.
pub open spec fn withheld_when_modal<F, V>(event: WindowEvent<F, V>) -> bool {
    ||| blocked_when_modal(event)
    ||| event is ModifiersChanged
}

/// Events by which a user tries to get at a window.
pub open spec fn is_interaction<F, V>(event: WindowEvent<F, V>) -> bool {
    ||| event matches WindowEvent::MouseInput { state: ElementState::Pressed, .. }
    ||| event is CloseRequested
    ||| event matches WindowEvent::Focused(true)
}

pub fn is_blocked_when_modal<F, V>(event: &WindowEvent<F, V>) -> (blocked: bool)
    ensures
        blocked == blocked_when_modal(*event),
{
    match event {
        WindowEvent::CursorMoved(_)
        | WindowEvent::MouseInput { .. }
        | WindowEvent::MouseWheel { .. }
        | WindowEvent::KeyboardInput(_)
        | WindowEvent::CloseRequested
        | WindowEvent::Focused(true) => true,
        _ => false,
    }
}

/// Whether an event is withheld from all windows but the topmost while a modal
/// window is open.
pub fn is_withheld_when_modal<F, V>(event: &WindowEvent<F, V>) -> (withheld: bool)
    ensures
        withheld == withheld_when_modal(*event),
{
    match event {
        WindowEvent::ModifiersChanged(_) => true,
        _ => is_blocked_when_modal(event),
    }
}

/// Whether an event that is withheld brings the modal window to the front.
pub fn refocuses_modal<F, V>(event: &WindowEvent<F, V>) -> (refocus: bool)
    ensures
        refocus == is_interaction(*event),
{
    match event {
        WindowEvent::MouseInput { state: ElementState::Pressed, .. }
        | WindowEvent::CloseRequested
        | WindowEvent::Focused(true) => true,
        _ => false,
    }
}

/// The distance that a turn of the wheel stands for.
pub open spec fn scroll_distance<V>(delta: MouseScrollDelta<V>) -> MouseScrollDistance<V> {
    match delta {
        MouseScrollDelta::LineDelta(distance) => MouseScrollDistance::Lines(distance),
        MouseScrollDelta::PixelDelta(distance) => MouseScrollDistance::Pixels(distance),
    }
}

impl<V> MouseScrollDistance<V> {
    pub fn from_delta(delta: MouseScrollDelta<V>) -> (distance: MouseScrollDistance<V>)
        ensures
            distance == scroll_distance(delta),
    {
        match delta {
            MouseScrollDelta::LineDelta(distance) => MouseScrollDistance::Lines(distance),
            MouseScrollDelta::PixelDelta(distance) => MouseScrollDistance::Pixels(distance),
        }
    }
}

/// One call for each character of a text.
pub open spec fn typed<F, V, U>(text: Seq<char>) -> Seq<Callback<F, V, U>>
    decreases text.len(),
{
    if text.len() == 0 {
        Seq::empty()
    } else {
        typed(text.drop_last()).push(Callback::KeyboardChar(text.last()))
    }
}

/// The calls that a key event leads to. A press tells the characters that it
/// types each time, and the key itself the first time only.
pub open spec fn key_event_calls<F, V, U>(event: KeyEvent) -> Seq<Callback<F, V, U>> {
    let virtual_key_code = key_code(event.logical_key, event.location);
    let scancode = event.spec_handler_scancode();
    match event.state {
        ElementState::Pressed => {
            let characters = match event.text {
                Some(text) => typed(text@),
                None => Seq::empty(),
            };
            if event.repeat {
                characters
            } else {
                characters.push(Callback::KeyDown { virtual_key_code, scancode })
            }
        },
        ElementState::Released => seq![Callback::KeyUp { virtual_key_code, scancode }],
    }
}

proof fn lemma_push_after_concat<A>(first: Seq<A>, second: Seq<A>, item: A)
    ensures
        (first + second).push(item) == first + second.push(item),
{
}

fn push_typed<F, V, U>(callbacks: &mut Vec<Callback<F, V, U>>, text: &str)
    ensures
        final(callbacks)@ == old(callbacks)@ + typed::<F, V, U>(text@),
{
    let mut chars = text.chars();
    let ghost before = callbacks@;
    let ghost mut count: int = 0;
    loop
        invariant
            0 <= count <= text@.len(),
            IteratorSpec::remaining(&chars) == text@.skip(count),
            callbacks@ == before + typed::<F, V, U>(text@.take(count)),
        ensures
            count == text@.len(),
        decreases text@.len() - count,
    {
        match chars.next() {
            Some(c) => {
                callbacks.push(Callback::KeyboardChar(c));
                proof {
                    assert(text@.take(count + 1).drop_last() == text@.take(count));
                    assert(text@.take(count + 1).last() == c);
                    lemma_push_after_concat(
                        before,
                        typed::<F, V, U>(text@.take(count)),
                        Callback::KeyboardChar(c),
                    );
                    count = count + 1;
                }
            },
            None => {
                break;
            },
        }
    }
    assert(text@.take(count) == text@);
}

/// The calls that a key event leads to, in their order.
pub fn key_callbacks<F, V, U>(event: &KeyEvent) -> (callbacks: Vec<Callback<F, V, U>>)
    ensures
        callbacks@ == key_event_calls::<F, V, U>(*event),
{
    let virtual_key_code = match VirtualKeyCode::try_from(event) {
        Ok(code) => Some(code),
        Err(()) => None,
    };
    let scancode: u32 = event.handler_scancode();
    let mut callbacks: Vec<Callback<F, V, U>> = Vec::new();
    match event.state {
        ElementState::Pressed => {
            if let Some(text) = &event.text {
                push_typed(&mut callbacks, text.as_str());
            }
            if !event.repeat {
                callbacks.push(Callback::KeyDown { virtual_key_code, scancode });
            }
        },
        ElementState::Released => {
            callbacks.push(Callback::KeyUp { virtual_key_code, scancode });
        },
    }
    callbacks
}

/// The means to send events to the handler of a window.
#[derive(Clone, Copy, Debug, PartialEq, Eq, Structural)]
pub struct UserEventSenderGlutin {
    /// The window whose handler receives the events; `None` is the main window.
    pub target: Option<WindowId>,
}

impl UserEventSenderGlutin {
    pub fn new(target: Option<WindowId>) -> (sender: UserEventSenderGlutin)
        ensures
            sender.target == target,
    {
        UserEventSenderGlutin { target }
    }

    /// Addresses an event to the sender's window: what is returned is to be put
    /// into the event loop.
    pub fn send_event<U>(&self, event: U) -> (addressed: UserEventGlutin<U>)
        ensures
            addressed == UserEventGlutin::UserEvent(self.target, event),
    {
        UserEventGlutin::UserEvent(self.target, event)
    }

    /// What the sender's user is told, given what came of putting an event into
    /// the event loop. It refuses events only once it is closed.
    pub fn sent<C>(&self, outcome: Result<(), C>) -> (result: Result<(), EventLoopSendError>)
        ensures
            outcome is Ok ==> result == Ok::<(), EventLoopSendError>(()),
            outcome is Err ==> result == Err::<(), EventLoopSendError>(
                EventLoopSendError::EventLoopNoLongerExists,
            ),
    {
        match outcome {
            Ok(()) => Ok(()),
            Err(_) => Err(EventLoopSendError::EventLoopNoLongerExists),
        }
    }
}

proof fn lemma_pushed<A>(first: Seq<A>, item: A)
    ensures
        first.push(item).len() == first.len() + 1,
        first.push(item).last() == item,
        forall|i: int| 0 <= i < first.len() ==> #[trigger] first.push(item)[i] == first[i],
{
}

/// A text is typed character by character, in its order.
pub proof fn law_text_typed_in_order<F, V, U>(text: Seq<char>)
    ensures
        typed::<F, V, U>(text).len() == text.len(),
        forall|i: int|
            0 <= i < text.len() ==> #[trigger] typed::<F, V, U>(text)[i] == Callback::<
                F,
                V,
                U,
            >::KeyboardChar(text[i]),
    decreases text.len(),
{
    if text.len() > 0 {
        let init = typed::<F, V, U>(text.drop_last());
        law_text_typed_in_order::<F, V, U>(text.drop_last());
        lemma_pushed(init, Callback::<F, V, U>::KeyboardChar(text.last()));
        assert forall|i: int| 0 <= i < text.len() implies #[trigger] typed::<F, V, U>(text)[i]
            == Callback::<F, V, U>::KeyboardChar(text[i]) by {
            if i < text.len() - 1 {
                assert(init[i] == Callback::<F, V, U>::KeyboardChar(text.drop_last()[i]));
            }
        }
    }
}

/// A key that is held down types again and again, but is reported as pressed
/// once, after what it typed; and releasing it is reported and types nothing.
pub proof fn law_key_reported_once<F, V, U>(event: KeyEvent)
    ensures
        ({
            let calls = key_event_calls::<F, V, U>(event);
            let pressed = event.state == ElementState::Pressed;
            let typed_count: nat = match event.text {
                Some(text) => if pressed {
                    text@.len()
                } else {
                    0
                },
                None => 0,
            };
            &&& calls.len() == typed_count + (if pressed && event.repeat {
                0nat
            } else {
                1
            })
            &&& forall|i: int| 0 <= i < typed_count ==> #[trigger] calls[i] is KeyboardChar
            &&& pressed && !event.repeat ==> calls.last() is KeyDown
            &&& !pressed ==> calls.last() is KeyUp
        }),
{
    if let Some(text) = event.text {
        law_text_typed_in_order::<F, V, U>(text@);
    }
}

/// Events of the mouse and of the keys are among those by which a user works with a
/// window, in whatever state or phase they are, and so are requests to close and
/// the focus when it is gained. Sizes, scale factors, frames, the focus when it is
/// lost and all others are not; nor are the modifier keys, which belong to no one
/// window. Input is all of the former and the modifier keys.
pub proof fn law_what_input_is<F, V>(
    position: V,
    state: ElementState,
    button: MouseButton,
    delta: MouseScrollDelta<V>,
    phase: TouchPhase,
    key: KeyEvent,
    bits: u32,
    scale_factor: F,
    size: UVec2,
    event: WindowEvent<F, V>,
)
    ensures
        blocked_when_modal(WindowEvent::<F, V>::CursorMoved(position)),
        blocked_when_modal(WindowEvent::<F, V>::MouseInput { state, button }),
        blocked_when_modal(WindowEvent::<F, V>::MouseWheel { delta, phase }),
        blocked_when_modal(WindowEvent::<F, V>::KeyboardInput(key)),
        blocked_when_modal(WindowEvent::<F, V>::CloseRequested),
        blocked_when_modal(WindowEvent::<F, V>::Focused(true)),
        !blocked_when_modal(WindowEvent::<F, V>::Focused(false)),
        !blocked_when_modal(WindowEvent::<F, V>::ModifiersChanged(bits)),
        !blocked_when_modal(WindowEvent::<F, V>::ScaleFactorChanged(scale_factor)),
        !blocked_when_modal(WindowEvent::<F, V>::Resized(size)),
        !blocked_when_modal(WindowEvent::<F, V>::RedrawRequested),
        !blocked_when_modal(WindowEvent::<F, V>::Other),
        withheld_when_modal(event) <==> blocked_when_modal(event) || event is ModifiersChanged,
{
}

/// A user tries to get at a window by pressing a button over it, by asking for it to
/// be closed and by giving it the focus, and in no other way.
pub proof fn law_what_interaction_is<F, V>(event: WindowEvent<F, V>)
    ensures
        is_interaction(event) <==> match event {
            WindowEvent::MouseInput { state, .. } => state == ElementState::Pressed,
            WindowEvent::CloseRequested => true,
            WindowEvent::Focused(gained) => gained,
            _ => false,
        },
{
}

/// The number of a key is told as it is; 0 stands for none.
pub proof fn law_number_is_told_as_it_is(event: KeyEvent)
    ensures
        event.scancode is Some ==> Some(event.spec_handler_scancode()) == event.scancode,
        event.scancode is None ==> event.spec_handler_scancode() == 0,
{
}

} // verus!
