//! What a handler can do with its window while it is being called.

use crate::cursor::{css_name, cursor_icon, icon_named, MouseCursorType};
use crate::dimen::{IVec2, UVec2};
use crate::error::ErrorMessage;
use crate::events::{UserEventGlutin, UserEventSenderGlutin, WindowId};
use crate::icon::{describes, icon_from_rgba_pixels, icon_outcomes, is_pixel_data};
use crate::options::{WindowCreationOptions, WindowFullscreenMode};
use vstd::prelude::*;
use winit::window::{BadIcon, CursorIcon, Icon};

verus! {

/// Whether the event loop goes on.
#[derive(Clone, Copy, Debug, PartialEq, Eq, Structural)]
pub enum WindowEventLoopAction {
    Continue,
    Exit,
}

/// A window that is waiting to be created. `H` is the type of handlers.
pub struct PendingWindow<H, V> {
    pub title: String,
    pub options: WindowCreationOptions<V>,
    pub handler: H,
    pub modal: bool,
    /// The outer position and size of the window that asked for this one, at
    /// the time when it did.
    pub parent_rect: Option<(IVec2, UVec2)>,
    /// The handle of that window, on systems where windows have owners.
    pub owner_hwnd: Option<isize>,
}

/// What a handler has asked of the event loop, to be done once it returns.
pub enum AppCommand<H, V> {
    CreateWindow(PendingWindow<H, V>),
    CloseWindow(WindowId),
}

/// How the cursor is kept in a window.
#[derive(Clone, Copy, Debug, PartialEq, Eq, Structural)]
pub enum CursorGrabMode {
    /// It can leave the window.
    Free,
    Confined,
    Locked,
}

/// Grabbing or releasing the cursor, as far as it has come.
#[derive(Clone, Copy, Debug, PartialEq, Eq, Structural)]
pub struct CursorGrab {
    pub grabbed: bool,
    /// The mode that is being tried. `None` while the cursor is being moved to
    /// the middle of the window, which comes first.
    pub trying: Option<CursorGrabMode>,
}

/// What comes next in grabbing or releasing the cursor. `C` is the type of the
/// window system's errors.
#[derive(Debug)]
pub enum CursorGrabStep<C, U> {
    /// Put the cursor into this mode.
    Try(CursorGrab, CursorGrabMode),
    /// It is done, and this event tells the handler.
    Done(UserEventGlutin<U>),
    Failed(ErrorMessage<C>),
}

/// A change of the fullscreen state.
#[derive(Debug)]
pub struct FullscreenChange<U> {
    /// Cover the screen that the window is on; otherwise show it as a window.
    pub borderless: bool,
    /// The event that tells the handler.
    pub notice: UserEventGlutin<U>,
}

/// The event loop's record of a window.
#[derive(Clone, Copy, Debug, PartialEq, Eq, Structural)]
pub struct WindowHelperGlutin {
    pub id: WindowId,
    pub redraw_requested: bool,
    pub terminate_requested: bool,
    pub physical_size: UVec2,
    pub is_mouse_grabbed: bool,
}

/// The rectangle of a window whose position is known.
pub open spec fn outer_rect(position: Option<IVec2>, size: UVec2) -> Option<(IVec2, UVec2)> {
    match position {
        Some(position) => Some((position, size)),
        None => None,
    }
}

/// The modes in which the cursor is grabbed or released, the preferred one
/// first.
pub open spec fn grab_modes(grabbed: bool) -> Seq<CursorGrabMode> {
    if grabbed {
        seq![CursorGrabMode::Locked, CursorGrabMode::Confined]
    } else {
        seq![CursorGrabMode::Free]
    }
}

/// What follows a step in grabbing or releasing the cursor.
pub enum GrabOutlook {
    Try(CursorGrabMode),
    Done,
    NotCentered,
    Refused,
}

impl CursorGrab {
    /// What follows the current step. Where a mode is refused, the next one in
    /// [`grab_modes`] is tried, as long as there is one.
    pub open spec fn outlook(self, succeeded: bool) -> GrabOutlook {
        match self.trying {
            None => if succeeded {
                GrabOutlook::Try(grab_modes(self.grabbed)[0])
            } else {
                GrabOutlook::NotCentered
            },
            Some(mode) => if succeeded {
                GrabOutlook::Done
            } else if self.grabbed && mode == CursorGrabMode::Locked {
                GrabOutlook::Try(grab_modes(self.grabbed)[1])
            } else {
                GrabOutlook::Refused
            },
        }
    }

    /// The same attempt, trying this mode now.
    pub open spec fn with_mode(self, mode: CursorGrabMode) -> CursorGrab {
        CursorGrab { trying: Some(mode), ..self }
    }
}

impl WindowHelperGlutin {
    /// The record of a window that has just been created.
    pub fn new(id: WindowId, initial_physical_size: UVec2) -> (helper: WindowHelperGlutin)
        ensures
            helper == (WindowHelperGlutin {
                id,
                redraw_requested: false,
                terminate_requested: false,
                physical_size: initial_physical_size,
                is_mouse_grabbed: false,
            }),
    {
        WindowHelperGlutin {
            id,
            redraw_requested: false,
            terminate_requested: false,
            physical_size: initial_physical_size,
            is_mouse_grabbed: false,
        }
    }

    /// Asks for a new window. `outer_position` is where this window is, if that
    /// is known, and `outer_size` its size, so that the new one can be put over
    /// it. `owner_hwnd` is its handle, on systems where windows have owners.
    pub fn create_window<H, V>(
        &self,
        commands: &mut Vec<AppCommand<H, V>>,
        title: &str,
        options: WindowCreationOptions<V>,
        handler: H,
        modal: bool,
        outer_position: Option<IVec2>,
        outer_size: UVec2,
        owner_hwnd: Option<isize>,
    )
        ensures
            final(commands)@.len() == old(commands)@.len() + 1,
            final(commands)@.drop_last() == old(commands)@,
            final(commands)@.last() is CreateWindow,
            ({
                let pending = final(commands)@.last()->CreateWindow_0;
                &&& pending.title@ == title@
                &&& pending.options == options
                &&& pending.handler == handler
                &&& pending.modal == modal
                &&& pending.parent_rect == outer_rect(outer_position, outer_size)
                &&& pending.owner_hwnd == owner_hwnd
            }),
    {
        let parent_rect = match outer_position {
            Some(position) => Some((position, outer_size)),
            None => None,
        };
        commands.push(
            AppCommand::CreateWindow(
                PendingWindow {
                    title: title.to_owned(),
                    options,
                    handler,
                    modal,
                    parent_rect,
                    owner_hwnd,
                },
            ),
        );
    }

    /// Asks for this window to be closed.
    pub fn close_window<H, V>(&self, commands: &mut Vec<AppCommand<H, V>>)
        ensures
            final(commands)@ == old(commands)@.push(AppCommand::CloseWindow(self.id)),
    {
        commands.push(AppCommand::CloseWindow(self.id));
    }

    pub fn is_redraw_requested(&self) -> (requested: bool)
        ensures
            requested == self.redraw_requested,
    {
        self.redraw_requested
    }

    pub fn set_redraw_requested(&mut self, redraw_requested: bool)
        ensures
            *final(self) == (WindowHelperGlutin { redraw_requested, ..*old(self) }),
    {
        self.redraw_requested = redraw_requested;
    }

    /// Asks for another frame.
    pub fn request_redraw(&mut self)
        ensures
            *final(self) == (WindowHelperGlutin { redraw_requested: true, ..*old(self) }),
    {
        self.redraw_requested = true;
    }

    pub fn get_event_loop_action(&self) -> (action: WindowEventLoopAction)
        ensures
            action == (if self.terminate_requested {
                WindowEventLoopAction::Exit
            } else {
                WindowEventLoopAction::Continue
            }),
    {
        if self.terminate_requested {
            WindowEventLoopAction::Exit
        } else {
            WindowEventLoopAction::Continue
        }
    }

    /// Asks for the event loop to end.
    pub fn terminate_loop(&mut self)
        ensures
            *final(self) == (WindowHelperGlutin { terminate_requested: true, ..*old(self) }),
    {
        self.terminate_requested = true;
    }

    /// The icon that the window is to be given: what the system makes of exactly
    /// these pixels. It can refuse data that are well formed; the window then keeps
    /// the icon that it has.
    pub fn set_icon_from_rgba_pixels(&self, data: Vec<u8>, size: UVec2) -> (result: Result<
        Icon,
        ErrorMessage<BadIcon>,
    >)
        requires
            data@.len() % 4 == 0 ==> size.x * size.y <= u32::MAX,
        ensures
            exists|outcome: Result<Icon, BadIcon>| #[trigger]
                icon_outcomes(data@, size.x, size.y).contains(outcome) && describes(
                    outcome,
                    result,
                ),
            result is Ok ==> is_pixel_data(data@.len(), size.x, size.y),
            result matches Err(error) ==> error.message@ == "Icon data was invalid"@,
    {
        icon_from_rgba_pixels(data, size.x, size.y)
    }

    /// The icon that the cursor is to have over the window.
    pub fn set_cursor(&self, cursor: MouseCursorType) -> (icon: CursorIcon)
        ensures
            icon_named(css_name(cursor)) == Some(icon),
    {
        cursor_icon(cursor)
    }

    /// Begins to grab or to release the cursor: it is to be moved to the middle
    /// of the window, which is returned.
    pub fn set_cursor_grab(&self, grabbed: bool) -> (begun: (CursorGrab, IVec2))
        ensures
            begun.0 == (CursorGrab { grabbed, trying: None }),
            begun.1 == self.physical_size.spec_center(),
    {
        (CursorGrab { grabbed, trying: None }, self.physical_size.center())
    }

    /// Goes on with grabbing or releasing the cursor, given what came of the
    /// last step.
    pub fn continue_cursor_grab<C, U>(&mut self, grab: CursorGrab, outcome: Result<(), C>) -> (step:
        CursorGrabStep<C, U>)
        ensures
            *final(self) == (if grab.outlook(outcome is Ok) is Done {
                WindowHelperGlutin { is_mouse_grabbed: grab.grabbed, ..*old(self) }
            } else {
                *old(self)
            }),
            match grab.outlook(outcome is Ok) {
                GrabOutlook::Try(mode) => step == CursorGrabStep::<C, U>::Try(
                    grab.with_mode(mode),
                    mode,
                ),
                GrabOutlook::Done => step == CursorGrabStep::<C, U>::Done(
                    UserEventGlutin::MouseGrabStatusChanged(old(self).id, grab.grabbed),
                ),
                GrabOutlook::NotCentered => {
                    &&& step is Failed
                    &&& step->Failed_0.message@ == "Failed to move cursor to center of window"@
                    &&& step->Failed_0.cause == outcome->Err_0
                },
                GrabOutlook::Refused => {
                    &&& step is Failed
                    &&& step->Failed_0.message@ == "Could not grab cursor"@
                    &&& step->Failed_0.cause == outcome->Err_0
                },
            },
    {
        match grab.trying {
            None => match outcome {
                Ok(()) => {
                    let mode = if grab.grabbed {
                        CursorGrabMode::Locked
                    } else {
                        CursorGrabMode::Free
                    };
                    CursorGrabStep::Try(CursorGrab { trying: Some(mode), ..grab }, mode)
                },
                Err(cause) => CursorGrabStep::Failed(
                    ErrorMessage::msg_with_cause(
                        "Failed to move cursor to center of window",
                        cause,
                    ),
                ),
            },
            Some(mode) => match outcome {
                Ok(()) => {
                    self.is_mouse_grabbed = grab.grabbed;
                    CursorGrabStep::Done(
                        UserEventGlutin::MouseGrabStatusChanged(self.id, grab.grabbed),
                    )
                },
                Err(cause) => if grab.grabbed && mode == CursorGrabMode::Locked {
                    let mode = CursorGrabMode::Confined;
                    CursorGrabStep::Try(CursorGrab { trying: Some(mode), ..grab }, mode)
                } else {
                    CursorGrabStep::Failed(
                        ErrorMessage::msg_with_cause("Could not grab cursor", cause),
                    )
                },
            },
        }
    }

    /// What is to be done to put the window into a fullscreen state.
    pub fn set_fullscreen_mode<U>(&self, mode: WindowFullscreenMode) -> (change: FullscreenChange<
        U,
    >)
        ensures
            change.borderless == (mode == WindowFullscreenMode::FullscreenBorderless),
            change.notice == UserEventGlutin::<U>::FullscreenStatusChanged(
                self.id,
                mode == WindowFullscreenMode::FullscreenBorderless,
            ),
    {
        let is_fullscreen = match mode {
            WindowFullscreenMode::Windowed => false,
            WindowFullscreenMode::FullscreenBorderless => true,
        };
        FullscreenChange {
            borderless: is_fullscreen,
            notice: UserEventGlutin::FullscreenStatusChanged(self.id, is_fullscreen),
        }
    }

    /// The means to send events to this window's handler.
    pub fn create_user_event_sender(&self) -> (sender: UserEventSenderGlutin)
        ensures
            sender.target == Some(self.id),
    {
        UserEventSenderGlutin::new(Some(self.id))
    }
}

/// Where grabbing or releasing the cursor ends on a system that answers
/// `centered` to the move and `accepts(mode)` to each mode: with the mode that
/// was taken, or with a failure.
pub open spec fn grab_result(
    grab: CursorGrab,
    centered: bool,
    accepts: spec_fn(CursorGrabMode) -> bool,
) -> GrabOutlook
    decreases
            (match grab.trying {
                None => 2int,
                Some(mode) => if mode == CursorGrabMode::Locked {
                    1
                } else {
                    0
                },
            }),
{
    let succeeded = match grab.trying {
        None => centered,
        Some(mode) => accepts(mode),
    };
    match grab.outlook(succeeded) {
        GrabOutlook::Try(mode) => grab_result(grab.with_mode(mode), centered, accepts),
        end => end,
    }
}

/// The cursor is grabbed wherever it can be moved to the middle of the window
/// and the system accepts one of the two ways to hold it, and only there; it is
/// released wherever it can be moved and the system lets it go.
pub proof fn law_grab_tries_each_mode(
    grabbed: bool,
    centered: bool,
    accepts: spec_fn(CursorGrabMode) -> bool,
)
    ensures
        ({
            let result = grab_result(CursorGrab { grabbed, trying: None }, centered, accepts);
            let accepted = exists|i: int|
                0 <= i < grab_modes(grabbed).len() && accepts(#[trigger] grab_modes(grabbed)[i]);
            &&& result is Done <==> centered && accepted
            &&& result is NotCentered <==> !centered
            &&& result is Refused <==> centered && !accepted
        }),
{
    let begun = CursorGrab { grabbed, trying: None };
    let modes = grab_modes(grabbed);
    let first = begun.with_mode(modes[0]);
    assert(grab_result(begun, true, accepts) == grab_result(first, true, accepts));
    if grabbed {
        let second = begun.with_mode(modes[1]);
        assert(!accepts(modes[0]) ==> grab_result(first, true, accepts) == grab_result(
            second,
            true,
            accepts,
        ));
    }
}

/// A new window is put over the window that asked for it where that one's position
/// is known: its parent's rectangle is that position with that size.
pub proof fn law_parent_rectangle(position: IVec2, size: UVec2)
    ensures
        outer_rect(Some(position), size) == Some((position, size)),
        outer_rect(None, size) == None::<(IVec2, UVec2)>,
{
}

/// To grab the cursor, locking it is tried first, and confining it where that is
/// refused; to release it, letting it go is all that is tried. None of that is done
/// where the cursor cannot be moved to the middle of the window. The first mode
/// that is accepted ends the matter, and what was asked for is not forgotten.
pub proof fn law_order_of_grab_modes(grab: CursorGrab, mode: CursorGrabMode, succeeded: bool)
    ensures
        ({
            let moving = CursorGrab { trying: None, ..grab };
            let trying = CursorGrab { trying: Some(mode), ..grab };
            &&& grab.with_mode(mode) == trying
            &&& moving.outlook(false) is NotCentered
            &&& grab.grabbed ==> moving.outlook(true) == GrabOutlook::Try(CursorGrabMode::Locked)
            &&& !grab.grabbed ==> moving.outlook(true) == GrabOutlook::Try(CursorGrabMode::Free)
            &&& trying.outlook(true) is Done
            &&& grab.grabbed && mode == CursorGrabMode::Locked ==> trying.outlook(false)
                == GrabOutlook::Try(CursorGrabMode::Confined)
            &&& !(grab.grabbed && mode == CursorGrabMode::Locked) ==> trying.outlook(
                false,
            ) is Refused
        }),
{
}

} // verus!
