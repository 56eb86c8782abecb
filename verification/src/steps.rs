//! What the event loop does in answer to an event: effects on the window system,
//! and then at most one piece of work whose outcome it needs to go on.

use crate::dimen::IVec2;
use crate::events::{Callback, UserEventGlutin, WindowId};
use crate::helper::PendingWindow;
use vstd::prelude::*;

verus! {

/// Whether the event loop goes round at once or waits for an event.
#[derive(Clone, Copy, Debug, PartialEq, Eq, Structural)]
pub enum ControlFlow {
    Poll,
    Wait,
}

/// Something to be done with the window system. No decision depends on what
/// comes of it.
#[derive(Clone, Copy, Debug, PartialEq, Eq, Structural)]
pub enum Effect {
    Focus(WindowId),
    /// Make the window's GL context current.
    MakeCurrent(WindowId),
    /// Give the window's GL surface this size. Neither side is zero.
    ResizeSurface { window: WindowId, width: u32, height: u32 },
    SetCursorPosition(WindowId, IVec2),
    /// Drop the window and its handler, with its own GL context current.
    DropWindow(WindowId),
    /// The same for every window there is.
    DropAllWindows,
    SetControlFlow(ControlFlow),
    ExitLoop,
    /// End the process at once, with this status.
    ExitProcess(i32),
}

/// What follows once the queue of commands is empty.
#[derive(Clone, Copy, Debug, PartialEq, Eq, Structural)]
pub enum AfterCommands {
    Return,
    ChooseControlFlow,
}

/// What follows the creation of a window.
#[derive(Clone, Copy, Debug, PartialEq, Eq, Structural)]
pub enum AfterCreation {
    /// The program has started, and the window is its first.
    Startup,
    Commands(AfterCommands),
}

/// What follows a call of a handler.
#[derive(Debug)]
pub enum AfterCall<U> {
    Finish,
    /// Draw at once if a frame is wanted.
    DrawIfRequested,
    /// Deliver these events, which were sent before there was a window.
    Replay(Vec<UserEventGlutin<U>>),
}

/// The work whose outcome the event loop needs to go on.
pub enum Next<H, F, V, U> {
    /// None: control goes back to the window system.
    Return,
    /// Create a window. `window_created` or `creation_failed` takes the outcome.
    Create { pending: PendingWindow<H, V>, then: AfterCreation },
    /// Call the window's handler. `called` takes the outcome.
    Call { window: WindowId, callbacks: Vec<Callback<F, V, U>>, then: AfterCall<U> },
    /// Make the window's context current, draw a frame and show it.
    /// `frame_drawn` or `frame_skipped` takes the outcome. The other fields go
    /// back with it: the windows yet to be seen to, and whether one of those
    /// before asked for the event loop to end.
    DrawFrame { window: WindowId, rest: Vec<WindowId>, terminate: bool },
}

/// The answer to an event.
pub struct Step<H, F, V, U> {
    /// To be done first, in this order.
    pub effects: Vec<Effect>,
    pub next: Next<H, F, V, U>,
}

/// The view of [`AfterCall`].
#[verifier::ext_equal]
pub enum AfterCallView<U> {
    Finish,
    DrawIfRequested,
    Replay(Seq<UserEventGlutin<U>>),
}

/// The view of [`Next`].
#[verifier::ext_equal]
pub enum NextView<H, F, V, U> {
    Return,
    Create { pending: PendingWindow<H, V>, then: AfterCreation },
    Call { window: WindowId, callbacks: Seq<Callback<F, V, U>>, then: AfterCallView<U> },
    DrawFrame { window: WindowId, rest: Seq<WindowId>, terminate: bool },
}

/// The view of [`Step`].
#[verifier::ext_equal]
pub struct StepView<H, F, V, U> {
    pub effects: Seq<Effect>,
    pub next: NextView<H, F, V, U>,
}

impl<U> View for AfterCall<U> {
    type V = AfterCallView<U>;

    open spec fn view(&self) -> AfterCallView<U> {
        match *self {
            AfterCall::Finish => AfterCallView::Finish,
            AfterCall::DrawIfRequested => AfterCallView::DrawIfRequested,
            AfterCall::Replay(events) => AfterCallView::Replay(events@),
        }
    }
}

impl<H, F, V, U> View for Next<H, F, V, U> {
    type V = NextView<H, F, V, U>;

    open spec fn view(&self) -> NextView<H, F, V, U> {
        match *self {
            Next::Return => NextView::Return,
            Next::Create { pending, then } => NextView::Create { pending, then },
            Next::Call { window, callbacks, then } => NextView::Call {
                window,
                callbacks: callbacks@,
                then: then@,
            },
            Next::DrawFrame { window, rest, terminate } => NextView::DrawFrame {
                window,
                rest: rest@,
                terminate,
            },
        }
    }
}

impl<H, F, V, U> View for Step<H, F, V, U> {
    type V = StepView<H, F, V, U>;

    open spec fn view(&self) -> StepView<H, F, V, U> {
        StepView { effects: self.effects@, next: self.next@ }
    }
}

/// A step is read as it stands: its effects in their order, and the work that it
/// names with all that belongs to it.
pub proof fn law_step_is_read_as_it_stands<H, F, V, U>(step: Step<H, F, V, U>)
    ensures
        step@.effects == step.effects@,
        match step.next {
            Next::Return => step@.next == NextView::<H, F, V, U>::Return,
            Next::Create { pending, then } => step@.next == (NextView::<H, F, V, U>::Create {
                pending,
                then,
            }),
            Next::Call { window, callbacks, then } => {
                &&& step@.next is Call
                &&& step@.next->Call_window == window
                &&& step@.next->callbacks == callbacks@
                &&& match then {
                    AfterCall::Finish => step@.next->Call_then is Finish,
                    AfterCall::DrawIfRequested => step@.next->Call_then is DrawIfRequested,
                    AfterCall::Replay(events) => step@.next->Call_then == AfterCallView::Replay(
                        events@,
                    ),
                }
            },
            Next::DrawFrame { window, rest, terminate } => step@.next == (NextView::<
                H,
                F,
                V,
                U,
            >::DrawFrame { window, rest: rest@, terminate }),
        },
{
}

} // verus!
