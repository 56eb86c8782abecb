//! A program's main window, before its event loop runs.

use crate::app::GlutinApp;
use crate::events::UserEventSenderGlutin;
use crate::helper::PendingWindow;
use crate::model::AppState;
use crate::options::WindowCreationOptions;
use vstd::prelude::*;

verus! {

/// Why there is no window. `C` is the type of the window system's errors.
#[derive(Debug)]
pub enum WindowCreationError<C> {
    EventLoopCreationFailed(C),
}

/// A main window that is yet to be created. `E` is the type of the window
/// system's event loops.
pub struct WindowGlutin<E, V> {
    pub event_loop: E,
    pub title: String,
    pub options: WindowCreationOptions<V>,
}

impl<E, V> WindowGlutin<E, V> {
    /// The window itself and its GL context are made once the event loop runs;
    /// `event_loop` is what came of setting that up.
    pub fn new<C>(
        event_loop: Result<E, C>,
        title: &str,
        options: WindowCreationOptions<V>,
    ) -> (result: Result<WindowGlutin<E, V>, WindowCreationError<C>>)
        ensures
            match event_loop {
                Ok(event_loop) => {
                    &&& result is Ok
                    &&& result->Ok_0.event_loop == event_loop
                    &&& result->Ok_0.title@ == title@
                    &&& result->Ok_0.options == options
                },
                Err(cause) => result == Err::<WindowGlutin<E, V>, WindowCreationError<C>>(
                    WindowCreationError::EventLoopCreationFailed(cause),
                ),
            },
    {
        match event_loop {
            Ok(event_loop) => Ok(WindowGlutin { event_loop, title: title.to_owned(), options }),
            Err(cause) => Err(WindowCreationError::EventLoopCreationFailed(cause)),
        }
    }

    /// The means to send events to the handler of the main window, which has no
    /// number yet.
    pub fn create_user_event_sender(&self) -> (sender: UserEventSenderGlutin)
        ensures
            sender.target is None,
    {
        UserEventSenderGlutin::new(None)
    }

    /// The event loop to run, and the state that it starts from: the main window
    /// is waiting to be created, and there is nothing else.
    pub fn run_loop<H, U>(self, handler: H) -> (started: (E, GlutinApp<H, V, U>))
        ensures
            started.0 == self.event_loop,
            started.1@ == (AppState::<H, V, U> {
                initial: Some(
                    PendingWindow {
                        title: self.title,
                        options: self.options,
                        handler,
                        modal: false,
                        parent_rect: None,
                        owner_hwnd: None,
                    },
                ),
                windows: Map::empty(),
                main_window: None,
                modal_stack: Seq::empty(),
                commands: Seq::empty(),
                pending_user_events: Seq::empty(),
            }),
    {
        let initial = PendingWindow {
            title: self.title,
            options: self.options,
            handler,
            modal: false,
            parent_rect: None,
            owner_hwnd: None,
        };
        (self.event_loop, GlutinApp::new(initial))
    }
}

/// The status that the process ends with, given how its event loop ended.
pub fn exit_status<C>(ended: &Result<(), C>) -> (status: i32)
    ensures
        status == (if *ended is Ok {
            0int
        } else {
            1
        }),
{
    match ended {
        Ok(()) => 0,
        Err(_) => 1,
    }
}

} // verus!
