//! The event loop: the windows that are open, and what happens to them.

use crate::dimen::UVec2;
use crate::events::{
    is_withheld_when_modal, key_callbacks, refocuses_modal, Callback, ElementState,
    MouseScrollDistance, TouchPhase, UserEventGlutin, WindowEvent, WindowId,
};
use crate::helper::{AppCommand, PendingWindow, WindowEventLoopAction, WindowHelperGlutin};
use crate::model;
use crate::model::AppState;
use crate::modifiers::ModifiersState;
use crate::steps::{AfterCall, AfterCommands, AfterCreation, ControlFlow, Effect, Next, Step};
use std::collections::HashMap;
use vstd::prelude::*;
use vstd::std_specs::hash::spec_keys_iter;
use vstd::std_specs::iter::IteratorSpec;

verus! {

broadcast use vstd::std_specs::hash::group_hash_axioms;

/// The state of the event loop. Each event is answered with a [`Step`]; once the
/// work that a step names has been done, its outcome is handed back, which gives
/// the next step, until there is none.
pub struct GlutinApp<H, V, U> {
    initial: Option<PendingWindow<H, V>>,
    windows: HashMap<WindowId, WindowHelperGlutin>,
    main_window: Option<WindowId>,
    modal_stack: Vec<WindowId>,
    commands: Vec<AppCommand<H, V>>,
    pending_user_events: Vec<UserEventGlutin<U>>,
}

impl<H, V, U> View for GlutinApp<H, V, U> {
    type V = AppState<H, V, U>;

    closed spec fn view(&self) -> AppState<H, V, U> {
        AppState {
            initial: self.initial,
            windows: self.windows@,
            main_window: self.main_window,
            modal_stack: self.modal_stack@,
            commands: self.commands@,
            pending_user_events: self.pending_user_events@,
        }
    }
}

fn returning<H, F, V, U>(effects: Vec<Effect>) -> (step: Step<H, F, V, U>)
    ensures
        step@.effects == effects@,
        step@.next is Return,
{
    Step { effects, next: Next::Return }
}

fn calling<H, F, V, U>(
    effects: Vec<Effect>,
    window: WindowId,
    callback: Callback<F, V, U>,
    then: AfterCall<U>,
) -> (step: Step<H, F, V, U>)
    ensures
        step@.effects == effects@,
        step@.next == (crate::steps::NextView::<H, F, V, U>::Call {
            window,
            callbacks: seq![callback],
            then: then@,
        }),
{
    let mut callbacks: Vec<Callback<F, V, U>> = Vec::new();
    callbacks.push(callback);
    assert(callbacks@ == seq![callback]);
    Step { effects, next: Next::Call { window, callbacks, then } }
}

/// The modal windows that are left when one closes.
fn retain_others(modal_stack: &Vec<WindowId>, id: WindowId) -> (rest: Vec<WindowId>)
    ensures
        rest@ == model::without_window(modal_stack@, id),
{
    let mut rest: Vec<WindowId> = Vec::new();
    let mut i: usize = 0;
    proof {
        reveal(Seq::filter);
    }
    while i < modal_stack.len()
        invariant
            i <= modal_stack@.len(),
            rest@ == model::without_window(modal_stack@.take(i as int), id),
        decreases modal_stack@.len() - i,
    {
        proof {
            reveal(Seq::filter);
            assert(modal_stack@.take(i + 1).drop_last() == modal_stack@.take(i as int));
        }
        if modal_stack[i] != id {
            rest.push(modal_stack[i]);
        }
        i = i + 1;
    }
    assert(modal_stack@.take(i as int) == modal_stack@);
    rest
}

impl<H, V, U> GlutinApp<H, V, U> {
    /// The event loop of a program with this main window, before it starts.
    pub fn new(initial: PendingWindow<H, V>) -> (app: GlutinApp<H, V, U>)
        ensures
            app@ == (AppState::<H, V, U> {
                initial: Some(initial),
                windows: Map::empty(),
                main_window: None,
                modal_stack: Seq::empty(),
                commands: Seq::empty(),
                pending_user_events: Seq::empty(),
            }),
    {
        GlutinApp {
            initial: Some(initial),
            windows: HashMap::new(),
            main_window: None,
            modal_stack: Vec::new(),
            commands: Vec::new(),
            pending_user_events: Vec::new(),
        }
    }

    /// The record of a window, which its handler gets when it is called.
    pub fn helper(&self, id: WindowId) -> (helper: Option<WindowHelperGlutin>)
        ensures
            helper == (if self@.windows.contains_key(id) {
                Some(self@.windows[id])
            } else {
                None
            }),
    {
        match self.windows.get(&id) {
            Some(helper) => Some(*helper),
            None => None,
        }
    }

    fn set_helper(&mut self, id: WindowId, helper: WindowHelperGlutin)
        ensures
            final(self)@ == old(self)@.with_helper(id, helper),
    {
        if self.windows.contains_key(&id) {
            self.windows.insert(id, helper);
        }
    }

    fn enqueue(&mut self, queued: Vec<AppCommand<H, V>>)
        ensures
            final(self)@ == old(self)@.with_queued(queued@),
    {
        let mut queued = queued;
        self.commands.append(&mut queued);
    }

    fn exit_app(&mut self, effects: &mut Vec<Effect>)
        ensures
            (final(self)@, final(effects)@) == ({
                let (state, exit_effects) = model::exit_app(old(self)@);
                (state, old(effects)@ + exit_effects)
            }),
    {
        self.windows.clear();
        self.modal_stack.clear();
        effects.push(Effect::DropAllWindows);
        effects.push(Effect::ExitLoop);
    }

    fn focus_top_modal(&self, effects: &mut Vec<Effect>)
        ensures
            final(effects)@ == old(effects)@ + self@.focus_top_modal(),
    {
        if self.modal_stack.len() > 0 {
            let top: WindowId = self.modal_stack[self.modal_stack.len() - 1];
            if self.windows.contains_key(&top) {
                effects.push(Effect::Focus(top));
            }
        }
    }

    fn close_window(&mut self, id: WindowId, effects: &mut Vec<Effect>)
        ensures
            (final(self)@, final(effects)@) == ({
                let (state, close_effects) = model::close_window(old(self)@, id);
                (state, old(effects)@ + close_effects)
            }),
    {
        if let Some(main_window) = self.main_window {
            if main_window == id {
                self.exit_app(effects);
                return;
            }
        }
        if self.windows.remove(&id).is_some() {
            effects.push(Effect::DropWindow(id));
        }
        self.modal_stack = retain_others(&self.modal_stack, id);
        self.focus_top_modal(effects);
    }

    fn any_redraw(&self) -> (any: bool)
        ensures
            any == self@.any_redraw(),
    {
        let ids = self.open_windows();
        let mut i: usize = 0;
        while i < ids.len()
            invariant
                i <= ids@.len(),
                model::lists_windows(self@, ids@),
                forall|j: int| 0 <= j < i ==> !self@.windows[#[trigger] ids@[j]].redraw_requested,
            decreases ids@.len() - i,
        {
            assert(ids@.contains(ids@[i as int]));
            if let Some(helper) = self.helper(ids[i]) {
                if helper.is_redraw_requested() {
                    assert(self@.windows.contains_key(ids@[i as int]));
                    return true;
                }
            }
            i = i + 1;
        }
        assert forall|id: WindowId| #[trigger] self@.windows.contains_key(id) implies !self@
            .windows[id].redraw_requested by {
            assert(ids@.contains(id));
        }
        false
    }

    fn open_windows(&self) -> (ids: Vec<WindowId>)
        ensures
            model::lists_windows(self@, ids@),
    {
        let mut ids: Vec<WindowId> = Vec::new();
        for id in keys: self.windows.keys()
            invariant
                keys.seq() == spec_keys_iter(&self.windows).remaining(),
                ids@ == keys.seq().unref().take(keys.index()),
        {
            ids.push(*id);
        }
        proof {
            assert(ids@ == spec_keys_iter(&self.windows).remaining().unref());
            assert(spec_keys_iter(&self.windows).remaining().no_duplicates());
            assert forall|id: WindowId| #[trigger]
                ids@.contains(id) <==> self@.windows.contains_key(id) by {
                assert(ids@.to_set().contains(id) <==> self@.windows.dom().contains(id));
            }
        }
        ids
    }

    /// Does what handlers have asked for, after the effects that are given.
    fn process_commands<F>(&mut self, then: AfterCommands, effects: Vec<Effect>) -> (step: Step<
        H,
        F,
        V,
        U,
    >)
        ensures
            (final(self)@, step@) == model::preceded(
                effects@,
                model::process_commands::<H, F, V, U>(old(self)@, then),
            ),
    {
        let mut all_effects = effects;
        while self.commands.len() > 0
            invariant
                model::preceded(
                    effects@,
                    model::process_commands::<H, F, V, U>(old(self)@, then),
                ) == model::preceded(
                    all_effects@,
                    model::process_commands::<H, F, V, U>(self@, then),
                ),
            decreases self@.commands.len(),
        {
            let ghost before = self@;
            let ghost earlier = all_effects@;
            let command = self.commands.remove(0);
            assert(self@.commands == before.commands.drop_first());
            match command {
                AppCommand::CreateWindow(pending) => {
                    let then = AfterCreation::Commands(then);
                    return Step { effects: all_effects, next: Next::Create { pending, then } };
                },
                AppCommand::CloseWindow(id) => {
                    self.close_window(id, &mut all_effects);
                    assert(model::preceded(
                        earlier,
                        model::process_commands::<H, F, V, U>(before, then),
                    ) =~= model::preceded(
                        all_effects@,
                        model::process_commands::<H, F, V, U>(self@, then),
                    ));
                },
            }
        }
        if let AfterCommands::ChooseControlFlow = then {
            let control_flow = if self.any_redraw() {
                ControlFlow::Poll
            } else {
                ControlFlow::Wait
            };
            all_effects.push(Effect::SetControlFlow(control_flow));
        }
        returning(all_effects)
    }

    /// Finishes a call of a window's handler.
    fn after_callback<F>(&mut self, id: WindowId) -> (step: Step<H, F, V, U>)
        ensures
            (final(self)@, step@) == model::after_callback::<H, F, V, U>(old(self)@, id),
    {
        let mut effects: Vec<Effect> = Vec::new();
        if let Some(helper) = self.helper(id) {
            if let WindowEventLoopAction::Exit = helper.get_event_loop_action() {
                self.exit_app(&mut effects);
                return returning(effects);
            }
        }
        self.process_commands(AfterCommands::Return, effects)
    }

    /// The open window that an event of the program goes to, and the call of its
    /// handler that it leads to.
    pub fn dispatch_user_event<F>(&self, event: UserEventGlutin<U>) -> (dispatched: Option<
        (WindowId, Callback<F, V, U>),
    >)
        ensures
            dispatched == (match model::recipient(self@, event) {
                Some(id) => Some((id, model::user_event_call::<F, V, U>(event))),
                None => None,
            }),
    {
        let (id, callback) = match event {
            UserEventGlutin::MouseGrabStatusChanged(id, grabbed) => (
                id,
                Callback::MouseGrabStatusChanged(grabbed),
            ),
            UserEventGlutin::FullscreenStatusChanged(id, fullscreen) => (
                id,
                Callback::FullscreenStatusChanged(fullscreen),
            ),
            UserEventGlutin::UserEvent(target, event) => {
                let id = match target {
                    Some(id) => id,
                    None => match self.main_window {
                        Some(id) => id,
                        None => {
                            return None;
                        },
                    },
                };
                (id, Callback::UserEvent(event))
            },
        };
        if self.windows.contains_key(&id) {
            Some((id, callback))
        } else {
            None
        }
    }

    /// Delivers events that were sent before there was a window.
    fn replay<F>(&mut self, events: Vec<UserEventGlutin<U>>) -> (step: Step<H, F, V, U>)
        ensures
            (final(self)@, step@) == model::replay::<H, F, V, U>(old(self)@, events@),
    {
        let mut rest = events;
        while rest.len() > 0
            invariant
                self@ == old(self)@,
                model::replay::<H, F, V, U>(self@, events@) == model::replay::<H, F, V, U>(
                    self@,
                    rest@,
                ),
            decreases rest@.len(),
        {
            let ghost before = rest@;
            let event = rest.remove(0);
            assert(rest@ == before.drop_first());
            if let Some((id, callback)) = self.dispatch_user_event(event) {
                return calling(Vec::new(), id, callback, AfterCall::Replay(rest));
            }
        }
        match self.main_window {
            Some(id) => self.after_callback(id),
            None => returning(Vec::new()),
        }
    }

    /// The program starts.
    pub fn resumed<F>(&mut self) -> (step: Step<H, F, V, U>)
        ensures
            (final(self)@, step@) == model::resumed::<H, F, V, U>(old(self)@),
    {
        match self.initial.take() {
            Some(pending) => Step {
                effects: Vec::new(),
                next: Next::Create { pending, then: AfterCreation::Startup },
            },
            None => returning(Vec::new()),
        }
    }

    fn after_creation<F>(&mut self, then: AfterCreation) -> (step: Step<H, F, V, U>)
        ensures
            (final(self)@, step@) == model::after_creation::<H, F, V, U>(old(self)@, then),
    {
        match then {
            AfterCreation::Startup => {
                let mut events: Vec<UserEventGlutin<U>> = Vec::new();
                std::mem::swap(&mut events, &mut self.pending_user_events);
                self.replay(events)
            },
            AfterCreation::Commands(then) => self.process_commands(then, Vec::new()),
        }
    }

    /// Takes up a window that has been created, shown and started. `helper` is
    /// its record as its handler left it, and `queued` what the handler asked
    /// for when it was told of the start.
    pub fn window_created<F>(
        &mut self,
        helper: WindowHelperGlutin,
        modal: bool,
        queued: Vec<AppCommand<H, V>>,
        then: AfterCreation,
    ) -> (step: Step<H, F, V, U>)
        ensures
            (final(self)@, step@) == model::window_created::<H, F, V, U>(
                old(self)@,
                helper,
                modal,
                queued@,
                then,
            ),
    {
        self.enqueue(queued);
        let id: WindowId = helper.id;
        let mut helper = helper;
        helper.set_redraw_requested(true);
        if self.main_window.is_none() {
            self.main_window = Some(id);
        }
        if modal {
            self.modal_stack.push(id);
        }
        self.windows.insert(id, helper);
        let mut step = self.after_creation(then);
        let mut effects: Vec<Effect> = Vec::new();
        effects.push(Effect::Focus(id));
        effects.append(&mut step.effects);
        Step { effects, next: step.next }
    }

    /// Goes on without a window that could not be created, or gives up where it
    /// was the main window.
    pub fn creation_failed<F>(&mut self, then: AfterCreation) -> (step: Step<H, F, V, U>)
        ensures
            (final(self)@, step@) == model::creation_failed::<H, F, V, U>(old(self)@, then),
    {
        if self.main_window.is_none() {
            let mut effects: Vec<Effect> = Vec::new();
            effects.push(Effect::ExitProcess(1));
            returning(effects)
        } else {
            self.after_creation(then)
        }
    }

    /// Something happened to a window.
    pub fn window_event<F>(&mut self, window_id: WindowId, event: WindowEvent<F, V>) -> (step: Step<
        H,
        F,
        V,
        U,
    >)
        ensures
            (final(self)@, step@) == model::window_event::<H, F, V, U>(old(self)@, window_id, event),
    {
        let mut effects: Vec<Effect> = Vec::new();
        if self.modal_stack.len() > 0 {
            let top: WindowId = self.modal_stack[self.modal_stack.len() - 1];
            if window_id != top && is_withheld_when_modal(&event) {
                if refocuses_modal(&event) {
                    self.focus_top_modal(&mut effects);
                }
                return returning(effects);
            }
        }
        if let WindowEvent::CloseRequested = event {
            self.close_window(window_id, &mut effects);
            return returning(effects);
        }
        match self.helper(window_id) {
            Some(helper) => self.deliver(window_id, helper, event),
            None => returning(effects),
        }
    }

    /// Hands an event to an open window.
    fn deliver<F>(
        &mut self,
        id: WindowId,
        helper: WindowHelperGlutin,
        event: WindowEvent<F, V>,
    ) -> (step: Step<H, F, V, U>)
        requires
            old(self)@.windows.contains_key(id),
            old(self)@.windows[id] == helper,
        ensures
            (final(self)@, step@) == model::deliver::<H, F, V, U>(old(self)@, id, event),
    {
        let mut helper = helper;
        let mut effects: Vec<Effect> = Vec::new();
        let callback = match event {
            WindowEvent::ScaleFactorChanged(scale_factor) => Callback::ScaleFactorChanged(
                scale_factor,
            ),
            WindowEvent::Resized(size) => {
                // With several GL contexts, that of this window may not be the
                // current one.
                effects.push(Effect::MakeCurrent(id));
                if size.x != 0 && size.y != 0 {
                    effects.push(
                        Effect::ResizeSurface { window: id, width: size.x, height: size.y },
                    );
                }
                helper.physical_size = size;
                self.set_helper(id, helper);
                // A frame is drawn right after this, so that the window keeps up
                // while its user drags its edge.
                return calling(effects, id, Callback::Resize(size), AfterCall::DrawIfRequested);
            },
            WindowEvent::CursorMoved(position) => if helper.is_mouse_grabbed {
                effects.push(Effect::SetCursorPosition(id, helper.physical_size.center()));
                let center = UVec2::new(helper.physical_size.x / 2, helper.physical_size.y / 2);
                Callback::GrabbedMouseMove { position, center }
            } else {
                Callback::MouseMove(position)
            },
            WindowEvent::MouseInput { state, button } => match state {
                ElementState::Pressed => Callback::MouseButtonDown(button),
                ElementState::Released => Callback::MouseButtonUp(button),
            },
            WindowEvent::MouseWheel { delta, phase: TouchPhase::Moved } =>
                Callback::MouseWheelScroll(MouseScrollDistance::from_delta(delta)),
            WindowEvent::KeyboardInput(event) => {
                let callbacks = key_callbacks(&event);
                let then = AfterCall::Finish;
                return Step { effects, next: Next::Call { window: id, callbacks, then } };
            },
            WindowEvent::ModifiersChanged(bits) => Callback::KeyboardModifiersChanged(
                ModifiersState::from_bits(bits),
            ),
            WindowEvent::RedrawRequested => {
                helper.set_redraw_requested(true);
                self.set_helper(id, helper);
                return self.after_callback(id);
            },
            _ => {
                return self.after_callback(id);
            },
        };
        calling(effects, id, callback, AfterCall::Finish)
    }

    /// Takes up the outcome of calling a window's handler: the window's record
    /// as the handler left it, and what the handler asked for.
    pub fn called<F>(
        &mut self,
        window: WindowId,
        helper: WindowHelperGlutin,
        queued: Vec<AppCommand<H, V>>,
        then: AfterCall<U>,
    ) -> (step: Step<H, F, V, U>)
        ensures
            (final(self)@, step@) == model::called::<H, F, V, U>(
                old(self)@,
                window,
                helper,
                queued@,
                then@,
            ),
    {
        self.set_helper(window, helper);
        self.enqueue(queued);
        match then {
            AfterCall::Finish => self.after_callback(window),
            AfterCall::DrawIfRequested => {
                if let Some(helper) = self.helper(window) {
                    if helper.is_redraw_requested() {
                        let mut helper = helper;
                        helper.set_redraw_requested(false);
                        self.set_helper(window, helper);
                        return calling(Vec::new(), window, Callback::Draw, AfterCall::Finish);
                    }
                }
                self.after_callback(window)
            },
            AfterCall::Replay(events) => self.replay(events),
        }
    }

    /// An event of the program has arrived.
    pub fn user_event<F>(&mut self, event: UserEventGlutin<U>) -> (step: Step<H, F, V, U>)
        ensures
            (final(self)@, step@) == model::user_event::<H, F, V, U>(old(self)@, event),
    {
        if self.main_window.is_none() {
            self.pending_user_events.push(event);
            return returning(Vec::new());
        }
        match self.dispatch_user_event(event) {
            Some((id, callback)) => calling(Vec::new(), id, callback, AfterCall::Finish),
            None => returning(Vec::new()),
        }
    }

    /// The event loop is about to wait: the windows that want a frame are drawn,
    /// in an order that is left open.
    pub fn about_to_wait<F>(&mut self) -> (step: Step<H, F, V, U>)
        ensures
            exists|order: Seq<WindowId>|
                {
                    &&& #[trigger] model::lists_windows(old(self)@, order)
                    &&& (final(self)@, step@) == model::draw_windows::<H, F, V, U>(
                        old(self)@,
                        order,
                        false,
                    )
                },
    {
        let ids = self.open_windows();
        let ghost order = ids@;
        assert(model::lists_windows(self@, order));
        self.draw_windows(ids, false)
    }

    /// Draws the windows in `rest` that want a frame, up to the first of them,
    /// and then finishes the round.
    fn draw_windows<F>(&mut self, rest: Vec<WindowId>, terminate: bool) -> (step: Step<H, F, V, U>)
        ensures
            (final(self)@, step@) == model::draw_windows::<H, F, V, U>(old(self)@, rest@, terminate),
    {
        let mut left = rest;
        let mut exit = terminate;
        while left.len() > 0
            invariant
                self@ == old(self)@,
                model::draw_windows::<H, F, V, U>(self@, rest@, terminate) == model::draw_windows::<
                    H,
                    F,
                    V,
                    U,
                >(self@, left@, exit),
            decreases left@.len(),
        {
            let ghost before = left@;
            let window: WindowId = left.remove(0);
            assert(left@ == before.drop_first());
            if let Some(helper) = self.helper(window) {
                if helper.is_redraw_requested() {
                    let mut helper = helper;
                    helper.set_redraw_requested(false);
                    self.set_helper(window, helper);
                    return Step {
                        effects: Vec::new(),
                        next: Next::DrawFrame { window, rest: left, terminate: exit },
                    };
                }
                if let WindowEventLoopAction::Exit = helper.get_event_loop_action() {
                    exit = true;
                }
            }
        }
        if exit {
            let mut effects: Vec<Effect> = Vec::new();
            self.exit_app(&mut effects);
            returning(effects)
        } else {
            self.process_commands(AfterCommands::ChooseControlFlow, Vec::new())
        }
    }

    /// Takes up the outcome of drawing a frame: the window's record as its
    /// handler left it, and what the handler asked for.
    pub fn frame_drawn<F>(
        &mut self,
        window: WindowId,
        helper: WindowHelperGlutin,
        queued: Vec<AppCommand<H, V>>,
        rest: Vec<WindowId>,
        terminate: bool,
    ) -> (step: Step<H, F, V, U>)
        ensures
            (final(self)@, step@) == model::frame_drawn::<H, F, V, U>(
                old(self)@,
                window,
                helper,
                queued@,
                rest@,
                terminate,
            ),
    {
        self.set_helper(window, helper);
        self.enqueue(queued);
        self.draw_windows(rest, terminate || helper.terminate_requested)
    }

    /// Goes on where a frame could not be drawn, as the window's context could
    /// not be made current. The window is not asked whether the event loop is to
    /// end.
    pub fn frame_skipped<F>(&mut self, rest: Vec<WindowId>, terminate: bool) -> (step: Step<
        H,
        F,
        V,
        U,
    >)
        ensures
            (final(self)@, step@) == model::draw_windows::<H, F, V, U>(old(self)@, rest@, terminate),
    {
        self.draw_windows(rest, terminate)
    }

    /// The event loop has ended.
    pub fn exiting<F>(&mut self) -> (step: Step<H, F, V, U>)
        ensures
            (final(self)@, step@) == model::exiting::<H, F, V, U>(old(self)@),
    {
        self.windows.clear();
        let mut effects: Vec<Effect> = Vec::new();
        effects.push(Effect::DropAllWindows);
        returning(effects)
    }
}

} // verus!
