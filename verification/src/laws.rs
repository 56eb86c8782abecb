//! What holds of the event loop as a whole, whatever happens.

use crate::events::{
    is_interaction, withheld_when_modal, Callback, UserEventGlutin, UserEventSenderGlutin,
    WindowEvent, WindowId,
};
use crate::helper::{AppCommand, WindowHelperGlutin};
use crate::model::{
    after_callback, after_creation, called, calling, close_window, creation_failed, deliver,
    draw_windows, exit_effects, exiting, frame_drawn, is_withheld, lists_windows, opened,
    process_commands, recipient, replay, resumed, user_event, user_event_call, window_created,
    window_event, without_window, AppState, Transition,
};
use crate::steps::{
    AfterCallView, AfterCommands, AfterCreation, ControlFlow, Effect, NextView, StepView,
};
use vstd::prelude::*;

verus! {

impl<H, V, U> AppState<H, V, U> {
    /// The windows fit together: there are none before the main window, and each
    /// modal window is open and is on the stack once.
    pub open spec fn well_formed(self) -> bool {
        &&& self.main_window is None ==> self.windows.dom() == Set::<WindowId>::empty()
        &&& self.modal_stack.no_duplicates()
        &&& forall|i: int|
            0 <= i < self.modal_stack.len() ==> self.windows.contains_key(
                #[trigger] self.modal_stack[i],
            )
    }
}

/// What is left of the modal windows when one closes: the others, in their
/// order.
pub proof fn lemma_without_window(modal_stack: Seq<WindowId>, id: WindowId)
    ensures
        ({
            let rest = without_window(modal_stack, id);
            &&& forall|window: WindowId| #[trigger]
                rest.contains(window) <==> modal_stack.contains(window) && window != id
            &&& modal_stack.no_duplicates() ==> rest.no_duplicates()
            &&& !modal_stack.contains(id) ==> rest == modal_stack
            &&& rest.len() <= modal_stack.len()
        }),
    decreases modal_stack.len(),
{
    reveal(Seq::filter);
    if modal_stack.len() > 0 {
        let init = modal_stack.drop_last();
        let last = modal_stack.last();
        lemma_without_window(init, id);
        let rest = without_window(modal_stack, id);
        assert(modal_stack == init.push(last));
        assert forall|window: WindowId| #[trigger]
            rest.contains(window) <==> modal_stack.contains(window) && window != id by {
            assert(init.push(last).contains(window) <==> init.contains(window) || window == last) by {
                if init.contains(window) {
                    let i = choose|i: int| 0 <= i < init.len() && init[i] == window;
                    assert(init.push(last)[i] == window);
                }
                assert(init.push(last)[init.len() as int] == last);
            }
            let shorter = without_window(init, id);
            assert(shorter.push(last).contains(window) <==> shorter.contains(window) || window
                == last) by {
                if shorter.contains(window) {
                    let i = choose|i: int| 0 <= i < shorter.len() && shorter[i] == window;
                    assert(shorter.push(last)[i] == window);
                }
                assert(shorter.push(last)[shorter.len() as int] == last);
            }
        }
        if modal_stack.no_duplicates() {
            assert(!init.contains(last));
            assert(!without_window(init, id).contains(last));
        }
        if !modal_stack.contains(id) {
            assert(modal_stack[modal_stack.len() - 1] == last);
            assert(!init.contains(id)) by {
                if init.contains(id) {
                    let i = choose|i: int| 0 <= i < init.len() && init[i] == id;
                    assert(modal_stack[i] == id);
                }
            }
        }
    }
}

/// While a modal window is open, an event that is withheld from another window
/// reaches no handler and changes nothing. Where the user tried to get at that
/// window, the modal window comes to the front instead.
pub proof fn law_modal_withholds_input<H, F, V, U>(
    state: AppState<H, V, U>,
    id: WindowId,
    event: WindowEvent<F, V>,
)
    requires
        state.well_formed(),
        state.modal_stack.len() > 0,
        id != state.modal_stack.last(),
        withheld_when_modal(event),
    ensures
        ({
            let (after, step) = window_event::<H, F, V, U>(state, id, event);
            &&& after == state
            &&& step.next is Return
            &&& step.effects == (if is_interaction(event) {
                seq![Effect::Focus(state.modal_stack.last())]
            } else {
                seq![]
            })
        }),
{
}

/// While a modal window is open, only its own handler is called for input.
pub proof fn law_input_goes_to_topmost<H, F, V, U>(
    state: AppState<H, V, U>,
    id: WindowId,
    event: WindowEvent<F, V>,
)
    requires
        state.modal_stack.len() > 0,
        withheld_when_modal(event),
    ensures
        window_event::<H, F, V, U>(state, id, event).1.next matches NextView::Call {
            window,
            ..
        } ==> window == state.modal_stack.last(),
{
    law_handler_of_the_window::<H, F, V, U>(state, id, event);
}

/// Nothing is withheld from the topmost window, nor from any while no modal
/// window is open; and what is not input is withheld from none.
pub proof fn law_nothing_else_withheld<H, F, V, U>(
    state: AppState<H, V, U>,
    id: WindowId,
    event: WindowEvent<F, V>,
)
    requires
        state.modal_stack.len() == 0 || id == state.modal_stack.last() || !withheld_when_modal(
            event,
        ),
    ensures
        !is_withheld(state, id, event),
        !(event is CloseRequested) && state.windows.contains_key(id) ==> window_event::<H, F, V, U>(
            state,
            id,
            event,
        ) == deliver::<H, F, V, U>(state, id, event),
{
}

proof fn lemma_commands_call_no_handler<H, F, V, U>(state: AppState<H, V, U>, then: AfterCommands)
    ensures
        ({
            let next = process_commands::<H, F, V, U>(state, then).1.next;
            next is Return || next is Create
        }),
    decreases state.commands.len(),
{
    if state.commands.len() > 0 {
        let rest = AppState { commands: state.commands.drop_first(), ..state };
        if let AppCommand::CloseWindow(id) = state.commands[0] {
            lemma_commands_call_no_handler::<H, F, V, U>(close_window(rest, id).0, then);
        }
    }
}

/// What happens to a window is told to its own handler or to none, and only
/// while the window is open.
pub proof fn law_handler_of_the_window<H, F, V, U>(
    state: AppState<H, V, U>,
    id: WindowId,
    event: WindowEvent<F, V>,
)
    ensures
        window_event::<H, F, V, U>(state, id, event).1.next matches NextView::Call {
            window,
            ..
        } ==> window == id && state.windows.contains_key(id),
{
    lemma_commands_call_no_handler::<H, F, V, U>(state, AfterCommands::Return);
    lemma_commands_call_no_handler::<H, F, V, U>(
        state.with_redraw(id, true),
        AfterCommands::Return,
    );
}

/// Closing the main window ends the program: no window is left open, and the
/// event loop is told to exit.
pub proof fn law_closing_main_exits<H, V, U>(state: AppState<H, V, U>, id: WindowId)
    requires
        state.main_window == Some(id),
    ensures
        close_window(state, id) == (state.exited(), exit_effects()),
        exit_effects().contains(Effect::ExitLoop),
        close_window(state, id).0.windows.dom() == Set::<WindowId>::empty(),
{
    assert(exit_effects()[1] == Effect::ExitLoop);
}

/// Closing any other window leaves the rest as they are: their records, the main
/// window, and the order of the modal windows among them. The program goes on.
pub proof fn law_closing_child_leaves_others<H, V, U>(
    state: AppState<H, V, U>,
    id: WindowId,
    other: WindowId,
)
    requires
        state.main_window != Some(id),
        other != id,
    ensures
        ({
            let (closed, effects) = close_window(state, id);
            &&& !closed.windows.contains_key(id)
            &&& !closed.modal_stack.contains(id)
            &&& closed.windows.contains_key(other) <==> state.windows.contains_key(other)
            &&& state.windows.contains_key(other) ==> closed.windows[other] == state.windows[other]
            &&& closed.modal_stack.contains(other) <==> state.modal_stack.contains(other)
            &&& closed.modal_stack == without_window(state.modal_stack, id)
            &&& closed.main_window == state.main_window
            &&& closed.commands == state.commands
            &&& !effects.contains(Effect::ExitLoop)
            &&& !effects.contains(Effect::DropAllWindows)
            &&& !effects.contains(Effect::DropWindow(other))
        }),
{
    lemma_without_window(state.modal_stack, id);
}

/// Closing a window that was just opened, modal or not, restores the windows and
/// the modal stack, and the modal window that was topmost before comes to the
/// front again.
pub proof fn law_close_undoes_open<H, V, U>(
    state: AppState<H, V, U>,
    helper: WindowHelperGlutin,
    modal: bool,
)
    requires
        state.well_formed(),
        state.main_window is Some,
        state.main_window != Some(helper.id),
        !state.windows.contains_key(helper.id),
    ensures
        close_window(opened(state, helper, modal), helper.id) == (
            state,
            seq![Effect::DropWindow(helper.id)] + state.focus_top_modal(),
        ),
{
    let open = opened(state, helper, modal);
    assert(!state.modal_stack.contains(helper.id));
    lemma_without_window(state.modal_stack, helper.id);
    reveal(Seq::filter);
    assert(state.modal_stack.push(helper.id).drop_last() == state.modal_stack);
    assert(without_window(open.modal_stack, helper.id) == state.modal_stack);
    assert(open.windows.remove(helper.id) == state.windows);
}

/// Closing a window keeps the windows fitting together.
pub proof fn law_close_keeps_well_formed<H, V, U>(state: AppState<H, V, U>, id: WindowId)
    requires
        state.well_formed(),
    ensures
        close_window(state, id).0.well_formed(),
{
    lemma_without_window(state.modal_stack, id);
    let closed = close_window(state, id).0;
    if state.main_window != Some(id) {
        assert forall|i: int| 0 <= i < closed.modal_stack.len() implies closed.windows.contains_key(
            #[trigger] closed.modal_stack[i],
        ) by {
            let window = closed.modal_stack[i];
            assert(closed.modal_stack.contains(window));
            let j = choose|j: int|
                0 <= j < state.modal_stack.len() && state.modal_stack[j] == window;
            assert(state.windows.contains_key(state.modal_stack[j]));
        }
        assert(state.main_window is None ==> closed.windows.dom() == Set::<WindowId>::empty());
    }
}

proof fn lemma_commands_keep_well_formed<H, F, V, U>(state: AppState<H, V, U>, then: AfterCommands)
    requires
        state.well_formed(),
    ensures
        process_commands::<H, F, V, U>(state, then).0.well_formed(),
    decreases state.commands.len(),
{
    if state.commands.len() > 0 {
        let rest = AppState { commands: state.commands.drop_first(), ..state };
        assert(rest.well_formed());
        if let AppCommand::CloseWindow(id) = state.commands[0] {
            law_close_keeps_well_formed(rest, id);
            lemma_commands_keep_well_formed::<H, F, V, U>(close_window(rest, id).0, then);
        }
    }
}

proof fn lemma_helper_keeps_well_formed<H, V, U>(
    state: AppState<H, V, U>,
    window: WindowId,
    helper: WindowHelperGlutin,
)
    requires
        state.well_formed(),
    ensures
        state.with_helper(window, helper).well_formed(),
{
    if state.windows.contains_key(window) {
        assert(state.with_helper(window, helper).windows.dom() == state.windows.dom());
        assert(!Set::<WindowId>::empty().contains(window));
    }
}

proof fn lemma_finish_keeps_well_formed<H, F, V, U>(state: AppState<H, V, U>, id: WindowId)
    requires
        state.well_formed(),
    ensures
        after_callback::<H, F, V, U>(state, id).0.well_formed(),
{
    lemma_commands_keep_well_formed::<H, F, V, U>(state, AfterCommands::Return);
}

proof fn lemma_replay_keeps_well_formed<H, F, V, U>(
    state: AppState<H, V, U>,
    events: Seq<UserEventGlutin<U>>,
)
    requires
        state.well_formed(),
    ensures
        replay::<H, F, V, U>(state, events).0.well_formed(),
    decreases events.len(),
{
    if events.len() == 0 {
        if let Some(id) = state.main_window {
            lemma_finish_keeps_well_formed::<H, F, V, U>(state, id);
        }
    } else {
        lemma_replay_keeps_well_formed::<H, F, V, U>(state, events.drop_first());
    }
}

proof fn lemma_drawing_keeps_well_formed<H, F, V, U>(
    state: AppState<H, V, U>,
    rest: Seq<WindowId>,
    terminate: bool,
)
    requires
        state.well_formed(),
    ensures
        draw_windows::<H, F, V, U>(state, rest, terminate).0.well_formed(),
    decreases rest.len(),
{
    if rest.len() == 0 {
        lemma_commands_keep_well_formed::<H, F, V, U>(state, AfterCommands::ChooseControlFlow);
    } else {
        let id = rest[0];
        lemma_helper_keeps_well_formed(
            state,
            id,
            WindowHelperGlutin { redraw_requested: false, ..state.windows[id] },
        );
        lemma_drawing_keeps_well_formed::<H, F, V, U>(
            state,
            rest.drop_first(),
            terminate || (state.windows.contains_key(id) && state.windows[id].terminate_requested),
        );
        lemma_drawing_keeps_well_formed::<H, F, V, U>(state, rest.drop_first(), terminate);
    }
}

proof fn lemma_creation_keeps_well_formed<H, F, V, U>(
    state: AppState<H, V, U>,
    then: AfterCreation,
)
    requires
        state.well_formed(),
    ensures
        after_creation::<H, F, V, U>(state, then).0.well_formed(),
{
    match then {
        AfterCreation::Startup => {
            lemma_replay_keeps_well_formed::<H, F, V, U>(
                AppState { pending_user_events: Seq::empty(), ..state },
                state.pending_user_events,
            );
        },
        AfterCreation::Commands(then) => {
            lemma_commands_keep_well_formed::<H, F, V, U>(state, then);
        },
    }
}

/// The windows fit together before the program starts.
pub proof fn law_start_well_formed<H, V, U>(state: AppState<H, V, U>)
    requires
        state.windows == Map::<WindowId, WindowHelperGlutin>::empty(),
        state.modal_stack == Seq::<WindowId>::empty(),
    ensures
        state.well_formed(),
{
}

/// They still do after any event that the window system or the program sends,
/// up to the end of the event loop.
pub proof fn law_events_keep_well_formed<H, F, V, U>(
    state: AppState<H, V, U>,
    id: WindowId,
    event: WindowEvent<F, V>,
    sent: UserEventGlutin<U>,
    order: Seq<WindowId>,
)
    requires
        state.well_formed(),
    ensures
        resumed::<H, F, V, U>(state).0.well_formed(),
        window_event::<H, F, V, U>(state, id, event).0.well_formed(),
        user_event::<H, F, V, U>(state, sent).0.well_formed(),
        draw_windows::<H, F, V, U>(state, order, false).0.well_formed(),
{
    law_close_keeps_well_formed(state, id);
    lemma_finish_keeps_well_formed::<H, F, V, U>(state, id);
    lemma_helper_keeps_well_formed(
        state,
        id,
        WindowHelperGlutin { redraw_requested: true, ..state.windows[id] },
    );
    lemma_finish_keeps_well_formed::<H, F, V, U>(state.with_redraw(id, true), id);
    if let WindowEvent::Resized(size) = event {
        lemma_helper_keeps_well_formed(
            state,
            id,
            WindowHelperGlutin { physical_size: size, ..state.windows[id] },
        );
    }
    lemma_drawing_keeps_well_formed::<H, F, V, U>(state, order, false);
}

/// They still do whatever comes of the work that a step names: whatever a
/// handler does to its window's record and asks for, and whether or not a window
/// could be created, as long as no two open windows have the same number.
pub proof fn law_outcomes_keep_well_formed<H, F, V, U>(
    state: AppState<H, V, U>,
    window: WindowId,
    helper: WindowHelperGlutin,
    queued: Seq<AppCommand<H, V>>,
    modal: bool,
    then_call: AfterCallView<U>,
    then_create: AfterCreation,
    rest: Seq<WindowId>,
    terminate: bool,
)
    requires
        state.well_formed(),
    ensures
        called::<H, F, V, U>(state, window, helper, queued, then_call).0.well_formed(),
        frame_drawn::<H, F, V, U>(
            state,
            window,
            helper,
            queued,
            rest,
            terminate,
        ).0.well_formed(),
        draw_windows::<H, F, V, U>(state, rest, terminate).0.well_formed(),
        creation_failed::<H, F, V, U>(state, then_create).0.well_formed(),
        !state.windows.contains_key(helper.id) ==> window_created::<H, F, V, U>(
            state,
            helper,
            modal,
            queued,
            then_create,
        ).0.well_formed(),
{
    lemma_helper_keeps_well_formed(state, window, helper);
    let updated = state.with_helper(window, helper).with_queued(queued);
    assert(updated.well_formed());
    lemma_finish_keeps_well_formed::<H, F, V, U>(updated, window);
    lemma_helper_keeps_well_formed(
        updated,
        window,
        WindowHelperGlutin { redraw_requested: false, ..updated.windows[window] },
    );
    if let AfterCallView::Replay(events) = then_call {
        lemma_replay_keeps_well_formed::<H, F, V, U>(updated, events);
    }
    lemma_drawing_keeps_well_formed::<H, F, V, U>(
        updated,
        rest,
        terminate || helper.terminate_requested,
    );
    lemma_drawing_keeps_well_formed::<H, F, V, U>(state, rest, terminate);
    lemma_creation_keeps_well_formed::<H, F, V, U>(state, then_create);
    if !state.windows.contains_key(helper.id) {
        let open = opened(state.with_queued(queued), helper, modal);
        assert forall|i: int| 0 <= i < open.modal_stack.len() implies open.windows.contains_key(
            #[trigger] open.modal_stack[i],
        ) by {
            if i < state.modal_stack.len() {
                assert(state.windows.contains_key(state.modal_stack[i]));
            }
        }
        assert(open.modal_stack.no_duplicates()) by {
            assert(!state.modal_stack.contains(helper.id));
        }
        lemma_creation_keeps_well_formed::<H, F, V, U>(open, then_create);
    }
}

/// The number of commands at the front of a queue that close a window.
pub open spec fn leading_closes<H, V>(commands: Seq<AppCommand<H, V>>) -> nat
    decreases commands.len(),
{
    if commands.len() > 0 && commands[0] is CloseWindow {
        1 + leading_closes(commands.drop_first())
    } else {
        0
    }
}

proof fn lemma_leading_closes<H, V>(commands: Seq<AppCommand<H, V>>)
    ensures
        leading_closes(commands) <= commands.len(),
        forall|i: int| 0 <= i < leading_closes(commands) ==> #[trigger] commands[i] is CloseWindow,
        leading_closes(commands) < commands.len() ==> commands[leading_closes(
            commands,
        ) as int] is CreateWindow,
    decreases commands.len(),
{
    if commands.len() > 0 && commands[0] is CloseWindow {
        let rest = commands.drop_first();
        lemma_leading_closes(rest);
        assert forall|i: int| 0 <= i < leading_closes(commands) implies #[trigger]
            commands[i] is CloseWindow by {
            if i > 0 {
                assert(commands[i] == rest[i - 1]);
            }
        }
        if leading_closes(commands) < commands.len() {
            assert(commands[leading_closes(commands) as int] == rest[leading_closes(rest) as int]);
        }
    }
}

/// Commands are carried out in the order in which handlers gave them. They stop
/// at the first window that is to be created, and what comes after it waits its
/// turn; where there is none, the queue is worked off to its end.
pub proof fn law_commands_in_order<H, F, V, U>(state: AppState<H, V, U>, then: AfterCommands)
    ensures
        ({
            let (after, step) = process_commands::<H, F, V, U>(state, then);
            let closes = leading_closes(state.commands);
            &&& closes <= state.commands.len()
            &&& forall|i: int| 0 <= i < closes ==> #[trigger] state.commands[i] is CloseWindow
            &&& closes == state.commands.len() ==> step.next is Return && after.commands.len() == 0
            &&& closes < state.commands.len() ==> {
                &&& state.commands[closes as int] is CreateWindow
                &&& step.next == (NextView::<H, F, V, U>::Create {
                    pending: state.commands[closes as int]->CreateWindow_0,
                    then: AfterCreation::Commands(then),
                })
                &&& after.commands == state.commands.skip(closes as int + 1)
            }
        }),
    decreases state.commands.len(),
{
    lemma_leading_closes(state.commands);
    if state.commands.len() > 0 {
        let rest = AppState { commands: state.commands.drop_first(), ..state };
        match state.commands[0] {
            AppCommand::CreateWindow(_) => {
                assert(state.commands.drop_first() == state.commands.skip(1));
            },
            AppCommand::CloseWindow(id) => {
                let closed = close_window(rest, id).0;
                assert(closed.commands == rest.commands);
                law_commands_in_order::<H, F, V, U>(closed, then);
                let closes = leading_closes(rest.commands);
                if closes < rest.commands.len() {
                    assert(rest.commands.skip(closes as int + 1) == state.commands.skip(
                        closes as int + 2,
                    ));
                }
            },
        }
    }
}

/// The program has been told to end: every window is dropped, the loop is told to
/// exit, and nothing follows.
pub open spec fn has_exited<H, F, V, U>(transition: Transition<H, F, V, U>) -> bool {
    let (after, step) = transition;
    &&& after.windows.dom() == Set::<WindowId>::empty()
    &&& after.modal_stack.len() == 0
    &&& step.effects == exit_effects()
    &&& step.next is Return
}

/// Where a handler asks for the event loop to end, it does once the handler
/// returns. After a new size, a frame that is wanted is drawn before that, and the
/// loop ends if the window's record still asks for it then.
pub proof fn law_terminate_exits<H, F, V, U>(
    state: AppState<H, V, U>,
    window: WindowId,
    helper: WindowHelperGlutin,
    queued: Seq<AppCommand<H, V>>,
    drawn: WindowHelperGlutin,
    queued_while_drawing: Seq<AppCommand<H, V>>,
)
    requires
        state.windows.contains_key(window),
        helper.terminate_requested,
    ensures
        has_exited(
            called::<H, F, V, U>(state, window, helper, queued, AfterCallView::Finish),
        ),
        !helper.redraw_requested ==> has_exited(
            called::<H, F, V, U>(state, window, helper, queued, AfterCallView::DrawIfRequested),
        ),
        helper.redraw_requested ==> {
            let (after, step) = called::<H, F, V, U>(
                state,
                window,
                helper,
                queued,
                AfterCallView::DrawIfRequested,
            );
            &&& after.windows.contains_key(window)
            &&& after.windows[window] == (WindowHelperGlutin { redraw_requested: false, ..helper })
            &&& step.effects.len() == 0
            &&& step.next == (NextView::<H, F, V, U>::Call {
                window,
                callbacks: seq![Callback::Draw],
                then: AfterCallView::Finish,
            })
            &&& drawn.terminate_requested ==> has_exited(
                called::<H, F, V, U>(
                    after,
                    window,
                    drawn,
                    queued_while_drawing,
                    AfterCallView::Finish,
                ),
            )
        },
{
}

/// What handlers leave behind when events that were kept are delivered to them:
/// the window's record, and what was asked for. The number is that of the events
/// yet to come.
pub type Answers<H, V> = spec_fn(nat) -> (WindowHelperGlutin, Seq<AppCommand<H, V>>);

/// The state after an event that was kept has been delivered to a window.
pub open spec fn after_answer<H, V, U>(
    state: AppState<H, V, U>,
    window: WindowId,
    left: nat,
    answers: Answers<H, V>,
) -> AppState<H, V, U> {
    let (helper, queued) = answers(left);
    state.with_helper(window, helper).with_queued(queued)
}

/// Each call leaves fewer kept events to deliver, and changes nothing itself. Once
/// its outcome is taken up, the delivery goes on with those that are left.
pub proof fn law_replay_comes_to_an_end<H, F, V, U>(
    state: AppState<H, V, U>,
    events: Seq<UserEventGlutin<U>>,
)
    ensures
        ({
            let (after, step) = replay::<H, F, V, U>(state, events);
            step.next matches NextView::Call { window, then, .. } ==> {
                &&& after == state
                &&& state.windows.contains_key(window)
                &&& then matches AfterCallView::Replay(rest) && rest.len() < events.len()
                &&& forall|answers: Answers<H, V>, left: nat|
                    called::<H, F, V, U>(
                        state,
                        window,
                        (#[trigger] answers(left)).0,
                        answers(left).1,
                        then,
                    ) == replay::<H, F, V, U>(
                        after_answer(state, window, left, answers),
                        then->Replay_0,
                    )
            }
        }),
    decreases events.len(),
{
    if events.len() == 0 {
        lemma_commands_call_no_handler::<H, F, V, U>(state, AfterCommands::Return);
    } else {
        law_replay_comes_to_an_end::<H, F, V, U>(state, events.drop_first());
    }
}

/// The state once all events that were kept have been delivered.
pub open spec fn replayed<H, F, V, U>(
    state: AppState<H, V, U>,
    events: Seq<UserEventGlutin<U>>,
    answers: Answers<H, V>,
) -> AppState<H, V, U>
    decreases events.len(),
{
    proof {
        law_replay_comes_to_an_end::<H, F, V, U>(state, events);
    }
    match replay::<H, F, V, U>(state, events).1.next {
        NextView::Call { window, then: AfterCallView::Replay(rest), .. } => replayed::<H, F, V, U>(
            after_answer(state, window, rest.len(), answers),
            rest,
            answers,
        ),
        _ => state,
    }
}

/// What the delivery of events that were kept comes to, once there is no handler
/// left to call.
pub open spec fn replay_end<H, F, V, U>(
    state: AppState<H, V, U>,
    events: Seq<UserEventGlutin<U>>,
    answers: Answers<H, V>,
) -> Transition<H, F, V, U>
    decreases events.len(),
{
    proof {
        law_replay_comes_to_an_end::<H, F, V, U>(state, events);
    }
    let (after, step) = replay::<H, F, V, U>(state, events);
    match step.next {
        NextView::Call { window, then: AfterCallView::Replay(rest), .. } => replay_end::<H, F, V, U>(
            after_answer(state, window, rest.len(), answers),
            rest,
            answers,
        ),
        _ => (after, step),
    }
}

proof fn lemma_replay_without_calls<H, F, V, U>(
    state: AppState<H, V, U>,
    events: Seq<UserEventGlutin<U>>,
    main: WindowId,
)
    requires
        state.main_window == Some(main),
        !(replay::<H, F, V, U>(state, events).1.next is Call),
    ensures
        replay::<H, F, V, U>(state, events) == after_callback::<H, F, V, U>(state, main),
    decreases events.len(),
{
    if events.len() > 0 {
        lemma_replay_without_calls::<H, F, V, U>(state, events.drop_first(), main);
    }
}

/// Once the last of the events that were kept has been delivered, the event loop
/// ends if the record of the main window, as its handler left it, asks for that.
/// Otherwise what handlers asked for is done, and not before.
pub proof fn law_terminate_exits_after_replay<H, F, V, U>(
    state: AppState<H, V, U>,
    events: Seq<UserEventGlutin<U>>,
    answers: Answers<H, V>,
    main: WindowId,
)
    requires
        state.main_window == Some(main),
        state.windows.contains_key(main),
    ensures
        ({
            let last = replayed::<H, F, V, U>(state, events, answers);
            let end = replay_end::<H, F, V, U>(state, events, answers);
            &&& last.main_window == Some(main)
            &&& last.windows.contains_key(main)
            &&& last.windows[main].terminate_requested ==> has_exited(end)
            &&& !last.windows[main].terminate_requested ==> end == process_commands::<H, F, V, U>(
                last,
                AfterCommands::Return,
            )
        }),
    decreases events.len(),
{
    law_replay_comes_to_an_end::<H, F, V, U>(state, events);
    let (after, step) = replay::<H, F, V, U>(state, events);
    if let NextView::Call { window, then: AfterCallView::Replay(rest), .. } = step.next {
        let next = after_answer(state, window, rest.len(), answers);
        law_replay_comes_to_an_end::<H, F, V, U>(next, rest);
        law_terminate_exits_after_replay::<H, F, V, U>(next, rest, answers, main);
    } else {
        lemma_replay_without_calls::<H, F, V, U>(state, events, main);
    }
}

/// A wish to end that the main window's handler does not take back outlives the
/// delivery of the events that were kept.
pub proof fn law_wish_to_end_outlives_replay<H, F, V, U>(
    state: AppState<H, V, U>,
    events: Seq<UserEventGlutin<U>>,
    answers: Answers<H, V>,
    main: WindowId,
)
    requires
        state.main_window == Some(main),
        state.windows.contains_key(main),
        state.windows[main].terminate_requested,
        forall|left: nat| (#[trigger] answers(left)).0.terminate_requested,
    ensures
        has_exited(replay_end::<H, F, V, U>(state, events, answers)),
{
    law_terminate_exits_after_replay::<H, F, V, U>(state, events, answers, main);
    lemma_wish_to_end_kept::<H, F, V, U>(state, events, answers, main);
}

proof fn lemma_wish_to_end_kept<H, F, V, U>(
    state: AppState<H, V, U>,
    events: Seq<UserEventGlutin<U>>,
    answers: Answers<H, V>,
    main: WindowId,
)
    requires
        state.windows.contains_key(main),
        state.windows[main].terminate_requested,
        forall|left: nat| (#[trigger] answers(left)).0.terminate_requested,
    ensures
        replayed::<H, F, V, U>(state, events, answers).windows[main].terminate_requested,
    decreases events.len(),
{
    law_replay_comes_to_an_end::<H, F, V, U>(state, events);
    let step = replay::<H, F, V, U>(state, events).1;
    if let NextView::Call { window, then: AfterCallView::Replay(rest), .. } = step.next {
        let next = after_answer(state, window, rest.len(), answers);
        lemma_wish_to_end_kept::<H, F, V, U>(next, rest, answers, main);
    }
}

/// Events that are sent before there is a window are kept, in their order; no
/// handler is called for them yet.
pub proof fn law_early_events_kept<H, F, V, U>(
    state: AppState<H, V, U>,
    event: UserEventGlutin<U>,
)
    requires
        state.main_window is None,
    ensures
        ({
            let (after, step) = user_event::<H, F, V, U>(state, event);
            &&& after == (AppState {
                pending_user_events: state.pending_user_events.push(event),
                ..state
            })
            &&& step.next is Return
            &&& step.effects.len() == 0
        }),
{
}

/// When kept events are delivered, each goes to the window that it is for, in
/// the order in which they were sent: the first whose window is open is next,
/// and those behind it follow. None is put off and none comes twice.
pub proof fn law_early_events_delivered_in_order<H, F, V, U>(
    state: AppState<H, V, U>,
    events: Seq<UserEventGlutin<U>>,
    first: int,
    id: WindowId,
)
    requires
        0 <= first < events.len(),
        recipient(state, events[first]) == Some(id),
        forall|i: int| 0 <= i < first ==> recipient(state, #[trigger] events[i]) is None,
    ensures
        replay::<H, F, V, U>(state, events) == calling::<H, F, V, U>(
            state,
            seq![],
            id,
            seq![user_event_call(events[first])],
            AfterCallView::Replay(events.skip(first + 1)),
        ),
    decreases events.len(),
{
    if first > 0 {
        let rest = events.drop_first();
        assert(recipient(state, events[0]) is None);
        assert forall|i: int| 0 <= i < first - 1 implies recipient(
            state,
            #[trigger] rest[i],
        ) is None by {
            assert(rest[i] == events[i + 1]);
        }
        law_early_events_delivered_in_order::<H, F, V, U>(state, rest, first - 1, id);
        assert(rest.skip(first) == events.skip(first + 1));
    } else {
        assert(events.drop_first() == events.skip(1));
    }
}

/// What a handler does to its window's record, and what it asks for, has no
/// bearing on where the events behind it go.
pub proof fn law_calls_do_not_redirect<H, V, U>(
    state: AppState<H, V, U>,
    window: WindowId,
    helper: WindowHelperGlutin,
    queued: Seq<AppCommand<H, V>>,
    event: UserEventGlutin<U>,
)
    ensures
        recipient(state.with_helper(window, helper).with_queued(queued), event) == recipient(
            state,
            event,
        ),
{
}

/// Once the main window is there, an event that names no window goes to it, and
/// one that names a window goes to that window or, if it is closed, to none.
pub proof fn law_user_event_routing<H, F, V, U>(
    state: AppState<H, V, U>,
    main: WindowId,
    target: Option<WindowId>,
    event: U,
)
    requires
        state.main_window == Some(main),
    ensures
        ({
            let id = match target {
                Some(id) => id,
                None => main,
            };
            let (after, step) = user_event::<H, F, V, U>(
                state,
                UserEventGlutin::UserEvent(target, event),
            );
            &&& after == state
            &&& step.effects.len() == 0
            &&& state.windows.contains_key(id) ==> step.next == (NextView::<H, F, V, U>::Call {
                window: id,
                callbacks: seq![Callback::UserEvent(event)],
                then: AfterCallView::Finish,
            })
            &&& !state.windows.contains_key(id) ==> step.next is Return
        }),
{
}

/// The program starts once: a second start does nothing.
pub proof fn law_starts_once<H, F, V, U>(state: AppState<H, V, U>)
    ensures
        ({
            let started = resumed::<H, F, V, U>(state).0;
            &&& resumed::<H, F, V, U>(started).0 == started
            &&& resumed::<H, F, V, U>(started).1.next is Return
            &&& resumed::<H, F, V, U>(started).1.effects.len() == 0
        }),
{
}

/// The first window is the main window, and stays it whatever is created after
/// it.
pub proof fn law_first_window_is_main<H, V, U>(
    state: AppState<H, V, U>,
    helper: WindowHelperGlutin,
    modal: bool,
    other: WindowHelperGlutin,
    other_modal: bool,
)
    requires
        state.main_window is None,
    ensures
        opened(state, helper, modal).main_window == Some(helper.id),
        opened(opened(state, helper, modal), other, other_modal).main_window == Some(helper.id),
{
}

/// Where the main window cannot be created the process ends. Where another
/// cannot, the program goes on as if it had not been asked for.
pub proof fn law_creation_failure<H, F, V, U>(state: AppState<H, V, U>, then: AfterCreation)
    ensures
        state.main_window is None ==> creation_failed::<H, F, V, U>(state, then) == (
            state,
            StepView::<H, F, V, U> {
                effects: seq![Effect::ExitProcess(1)],
                next: NextView::Return,
            },
        ),
        state.main_window is Some ==> creation_failed::<H, F, V, U>(state, then) == after_creation::<
            H,
            F,
            V,
            U,
        >(state, then),
{
}

/// In a round of drawing, a window is drawn only if it wants a frame, is not
/// drawn again in that round, and has its wish cleared before its handler runs,
/// so that a wish made while drawing is for another frame. Windows before it in
/// the round did not want a frame.
pub proof fn law_frame_is_wanted<H, F, V, U>(
    state: AppState<H, V, U>,
    order: Seq<WindowId>,
    terminate: bool,
)
    requires
        order.no_duplicates(),
    ensures
        ({
            let (after, step) = draw_windows::<H, F, V, U>(state, order, terminate);
            step.next matches NextView::DrawFrame { window, rest, .. } ==> {
                &&& state.windows.contains_key(window)
                &&& state.windows[window].redraw_requested
                &&& after == state.with_redraw(window, false)
                &&& !after.windows[window].redraw_requested
                &&& order.contains(window)
                &&& !rest.contains(window)
                &&& rest == order.skip(order.len() - rest.len())
                &&& rest.len() < order.len()
                &&& order[order.len() - rest.len() - 1] == window
                &&& forall|i: int|
                    0 <= i < order.len() - rest.len() - 1 ==> !(state.windows.contains_key(
                        #[trigger] order[i],
                    ) && state.windows[order[i]].redraw_requested)
            }
        }),
    decreases order.len(),
{
    if order.len() > 0 {
        let id = order[0];
        let tail = order.drop_first();
        assert(tail == order.skip(1));
        assert(order.contains(id));
        assert(!tail.contains(id)) by {
            if tail.contains(id) {
                let i = choose|i: int| 0 <= i < tail.len() && tail[i] == id;
                assert(order[i + 1] == id);
            }
        }
        assert(tail.no_duplicates());
        if !(state.windows.contains_key(id) && state.windows[id].redraw_requested) {
            let ends = if state.windows.contains_key(id) {
                terminate || state.windows[id].terminate_requested
            } else {
                terminate
            };
            law_frame_is_wanted::<H, F, V, U>(state, tail, ends);
            let next = draw_windows::<H, F, V, U>(state, tail, ends).1.next;
            if let NextView::DrawFrame { window, rest, .. } = next {
                assert(rest == order.skip(order.len() - rest.len()));
                let i = choose|i: int| 0 <= i < tail.len() && tail[i] == window;
                assert(order[i + 1] == window);
                assert forall|i: int| 0 <= i < order.len() - rest.len() - 1 implies !(
                state.windows.contains_key(#[trigger] order[i])
                    && state.windows[order[i]].redraw_requested) by {
                    if i > 0 {
                        assert(order[i] == tail[i - 1]);
                    }
                }
            }
        }
    } else {
        lemma_commands_call_no_handler::<H, F, V, U>(state, AfterCommands::ChooseControlFlow);
    }
}

/// A round of drawing in which no open window wants a frame comes to its end: the
/// program exits if one of them has asked for that, and otherwise does what
/// handlers have asked for.
pub proof fn law_round_without_frames<H, F, V, U>(
    state: AppState<H, V, U>,
    order: Seq<WindowId>,
    terminate: bool,
)
    requires
        forall|i: int|
            0 <= i < order.len() ==> state.windows.contains_key(#[trigger] order[i])
                && !state.windows[order[i]].redraw_requested,
    ensures
        ({
            let ends = terminate || exists|i: int|
                0 <= i < order.len() && state.windows[#[trigger] order[i]].terminate_requested;
            draw_windows::<H, F, V, U>(state, order, terminate) == (if ends {
                (
                    state.exited(),
                    StepView::<H, F, V, U> { effects: exit_effects(), next: NextView::Return },
                )
            } else {
                process_commands::<H, F, V, U>(state, AfterCommands::ChooseControlFlow)
            })
        }),
    decreases order.len(),
{
    if order.len() > 0 {
        let tail = order.drop_first();
        assert forall|i: int| 0 <= i < tail.len() implies state.windows.contains_key(
            #[trigger] tail[i],
        ) && !state.windows[tail[i]].redraw_requested by {
            assert(tail[i] == order[i + 1]);
        }
        let id = order[0];
        let now = terminate || state.windows[id].terminate_requested;
        law_round_without_frames::<H, F, V, U>(state, tail, now);
        if exists|i: int|
            0 <= i < tail.len() && state.windows[#[trigger] tail[i]].terminate_requested {
            let i = choose|i: int|
                0 <= i < tail.len() && state.windows[#[trigger] tail[i]].terminate_requested;
            assert(state.windows[order[i + 1]].terminate_requested);
        }
        if exists|i: int|
            0 <= i < order.len() && state.windows[#[trigger] order[i]].terminate_requested {
            let i = choose|i: int|
                0 <= i < order.len() && state.windows[#[trigger] order[i]].terminate_requested;
            if i > 0 {
                assert(state.windows[tail[i - 1]].terminate_requested);
            }
        }
    }
}

/// When the commands of a round have been worked off, the last thing to be done
/// is to say how the event loop goes on: at once if a window wants a frame then,
/// and otherwise with the next event.
pub proof fn law_polls_while_a_frame_is_wanted<H, F, V, U>(state: AppState<H, V, U>)
    ensures
        ({
            let (after, step) = process_commands::<H, F, V, U>(
                state,
                AfterCommands::ChooseControlFlow,
            );
            step.next is Return ==> {
                &&& step.effects.len() > 0
                &&& step.effects.last() == Effect::SetControlFlow(
                    if after.any_redraw() {
                        ControlFlow::Poll
                    } else {
                        ControlFlow::Wait
                    },
                )
            }
        }),
    decreases state.commands.len(),
{
    if state.commands.len() > 0 {
        let rest = AppState { commands: state.commands.drop_first(), ..state };
        if let AppCommand::CloseWindow(id) = state.commands[0] {
            law_polls_while_a_frame_is_wanted::<H, F, V, U>(close_window(rest, id).0);
        }
    }
}

/// A new window gets a first frame without its handler asking: the next round of
/// drawing finds it wanting one.
pub proof fn law_new_window_is_drawn<H, V, U>(
    state: AppState<H, V, U>,
    helper: WindowHelperGlutin,
    modal: bool,
    order: Seq<WindowId>,
)
    requires
        lists_windows(opened(state, helper, modal), order),
    ensures
        opened(state, helper, modal).windows[helper.id].redraw_requested,
        order.contains(helper.id),
        opened(state, helper, modal).any_redraw(),
{
    assert(opened(state, helper, modal).windows.contains_key(helper.id));
    assert(order.contains(helper.id));
}

/// What the handler of a window leaves behind once it has drawn a frame: the
/// window's record, and what it asked for. `None` where its context cannot be made
/// current.
pub type Drawings<H, V> = spec_fn(WindowId) -> Option<
    (WindowHelperGlutin, Seq<AppCommand<H, V>>),
>;

/// The state after a window has come up in a round of drawing.
pub open spec fn after_drawing<H, V, U>(
    state: AppState<H, V, U>,
    window: WindowId,
    drawings: Drawings<H, V>,
) -> AppState<H, V, U> {
    match drawings(window) {
        Some((helper, queued)) => state.with_helper(window, helper).with_queued(queued),
        None => state,
    }
}

/// A window that has come up in a round of drawing wants the event loop to end.
pub open spec fn drawing_ends<H, V>(window: WindowId, drawings: Drawings<H, V>) -> bool {
    match drawings(window) {
        Some((helper, _)) => helper.terminate_requested,
        None => false,
    }
}

/// A window that has come up in a round of drawing wants another frame.
pub open spec fn drawing_wishes<H, V>(window: WindowId, drawings: Drawings<H, V>) -> bool {
    match drawings(window) {
        Some((helper, _)) => helper.redraw_requested,
        None => false,
    }
}

/// Each frame leaves fewer windows to see to, so a round comes to an end.
pub proof fn law_round_comes_to_an_end<H, F, V, U>(
    state: AppState<H, V, U>,
    rest: Seq<WindowId>,
    terminate: bool,
)
    ensures
        draw_windows::<H, F, V, U>(state, rest, terminate).1.next matches NextView::DrawFrame {
            rest: left,
            ..
        } ==> left.len() < rest.len(),
    decreases rest.len(),
{
    if rest.len() == 0 {
        lemma_commands_call_no_handler::<H, F, V, U>(state, AfterCommands::ChooseControlFlow);
    } else {
        let id = rest[0];
        let tail = rest.drop_first();
        law_round_comes_to_an_end::<H, F, V, U>(state, tail, terminate);
        law_round_comes_to_an_end::<H, F, V, U>(
            state,
            tail,
            terminate || state.windows[id].terminate_requested,
        );
    }
}

/// The windows that come up for drawing in what is left of a round, in their
/// order.
pub open spec fn round_frames<H, F, V, U>(
    state: AppState<H, V, U>,
    rest: Seq<WindowId>,
    terminate: bool,
    drawings: Drawings<H, V>,
) -> Seq<WindowId>
    decreases rest.len(),
{
    proof {
        law_round_comes_to_an_end::<H, F, V, U>(state, rest, terminate);
    }
    let (after, step) = draw_windows::<H, F, V, U>(state, rest, terminate);
    match step.next {
        NextView::DrawFrame { window, rest: left, terminate: ends } => seq![window]
            + round_frames::<H, F, V, U>(
            after_drawing(after, window, drawings),
            left,
            ends || drawing_ends(window, drawings),
            drawings,
        ),
        _ => seq![],
    }
}

/// Where what is left of a round comes to, once there is no frame left to draw.
pub open spec fn round_end<H, F, V, U>(
    state: AppState<H, V, U>,
    rest: Seq<WindowId>,
    terminate: bool,
    drawings: Drawings<H, V>,
) -> Transition<H, F, V, U>
    decreases rest.len(),
{
    proof {
        law_round_comes_to_an_end::<H, F, V, U>(state, rest, terminate);
    }
    let (after, step) = draw_windows::<H, F, V, U>(state, rest, terminate);
    match step.next {
        NextView::DrawFrame { window, rest: left, terminate: ends } => round_end::<H, F, V, U>(
            after_drawing(after, window, drawings),
            left,
            ends || drawing_ends(window, drawings),
            drawings,
        ),
        _ => (after, step),
    }
}

/// A window is open and wants a frame.
pub open spec fn wants_frame<H, V, U>(state: AppState<H, V, U>, id: WindowId) -> bool {
    state.windows.contains_key(id) && state.windows[id].redraw_requested
}

/// What is done in answer to commands leaves the records of the windows that stay
/// open.
proof fn lemma_commands_keep_records<H, F, V, U>(
    state: AppState<H, V, U>,
    then: AfterCommands,
    id: WindowId,
)
    ensures
        ({
            let after = process_commands::<H, F, V, U>(state, then).0;
            after.windows.contains_key(id) ==> {
                &&& state.windows.contains_key(id)
                &&& after.windows[id] == state.windows[id]
            }
        }),
    decreases state.commands.len(),
{
    if state.commands.len() > 0 {
        let rest = AppState { commands: state.commands.drop_first(), ..state };
        if let AppCommand::CloseWindow(closed) = state.commands[0] {
            lemma_commands_keep_records::<H, F, V, U>(close_window(rest, closed).0, then, id);
        }
    }
}

/// The steps of a round between two frames leave the records of the windows that
/// stay open, but for the wish of the window that is drawn next.
proof fn lemma_drawing_keeps_records<H, F, V, U>(
    state: AppState<H, V, U>,
    rest: Seq<WindowId>,
    terminate: bool,
    id: WindowId,
)
    ensures
        ({
            let (after, step) = draw_windows::<H, F, V, U>(state, rest, terminate);
            let drawn = step.next matches NextView::DrawFrame { window, .. } && window == id;
            after.windows.contains_key(id) && !drawn ==> {
                &&& state.windows.contains_key(id)
                &&& after.windows[id] == state.windows[id]
            }
        }),
    decreases rest.len(),
{
    if rest.len() == 0 {
        lemma_commands_keep_records::<H, F, V, U>(state, AfterCommands::ChooseControlFlow, id);
        lemma_commands_call_no_handler::<H, F, V, U>(state, AfterCommands::ChooseControlFlow);
    } else {
        let tail = rest.drop_first();
        lemma_drawing_keeps_records::<H, F, V, U>(state, tail, terminate, id);
        lemma_drawing_keeps_records::<H, F, V, U>(
            state,
            tail,
            terminate || state.windows[rest[0]].terminate_requested,
            id,
        );
    }
}

/// A round of drawing skips no window that wants a frame.
proof fn lemma_no_frame_missed<H, F, V, U>(
    state: AppState<H, V, U>,
    rest: Seq<WindowId>,
    terminate: bool,
    id: WindowId,
)
    requires
        rest.contains(id),
        wants_frame(state, id),
    ensures
        draw_windows::<H, F, V, U>(state, rest, terminate).1.next matches NextView::DrawFrame {
            window,
            rest: left,
            ..
        } && (window == id || left.contains(id)),
    decreases rest.len(),
{
    let tail = rest.drop_first();
    if rest[0] != id {
        let i = choose|i: int| 0 <= i < rest.len() && rest[i] == id;
        assert(tail[i - 1] == id);
        if !wants_frame(state, rest[0]) {
            let ends = if state.windows.contains_key(rest[0]) {
                terminate || state.windows[rest[0]].terminate_requested
            } else {
                terminate
            };
            lemma_no_frame_missed::<H, F, V, U>(state, tail, ends, id);
        }
    }
}

proof fn lemma_frames_of_the_rest<H, F, V, U>(
    state: AppState<H, V, U>,
    rest: Seq<WindowId>,
    terminate: bool,
    drawings: Drawings<H, V>,
)
    requires
        rest.no_duplicates(),
    ensures
        ({
            let frames = round_frames::<H, F, V, U>(state, rest, terminate, drawings);
            &&& frames.no_duplicates()
            &&& forall|id: WindowId| #[trigger]
                frames.contains(id) <==> rest.contains(id) && wants_frame(state, id)
        }),
    decreases rest.len(),
{
    law_round_comes_to_an_end::<H, F, V, U>(state, rest, terminate);
    law_frame_is_wanted::<H, F, V, U>(state, rest, terminate);
    let frames = round_frames::<H, F, V, U>(state, rest, terminate, drawings);
    let (after, step) = draw_windows::<H, F, V, U>(state, rest, terminate);
    if let NextView::DrawFrame { window, rest: left, terminate: ends } = step.next {
        let next = after_drawing(after, window, drawings);
        let ends_then = ends || drawing_ends(window, drawings);
        lemma_frames_of_the_rest::<H, F, V, U>(next, left, ends_then, drawings);
        let later = round_frames::<H, F, V, U>(next, left, ends_then, drawings);
        assert(frames == seq![window] + later);
        assert(!later.contains(window));
        assert forall|id: WindowId| #[trigger] frames.contains(id) implies rest.contains(id)
            && wants_frame(state, id) by {
            let i = choose|i: int| 0 <= i < frames.len() && frames[i] == id;
            if i > 0 {
                assert(later[i - 1] == id);
                assert(later.contains(id));
                let j = choose|j: int| 0 <= j < left.len() && left[j] == id;
                assert(rest[rest.len() - left.len() + j] == id);
                assert(id != window);
            }
        }
        assert forall|id: WindowId| rest.contains(id) && wants_frame(
            state,
            id,
        ) implies #[trigger] frames.contains(id) by {
            lemma_no_frame_missed::<H, F, V, U>(state, rest, terminate, id);
            if id == window {
                assert(frames[0] == id);
            } else {
                assert(later.contains(id));
                let i = choose|i: int| 0 <= i < later.len() && later[i] == id;
                assert(frames[i + 1] == id);
            }
        }
    } else {
        assert forall|id: WindowId| rest.contains(id) implies !wants_frame(state, id) by {
            if wants_frame(state, id) {
                lemma_no_frame_missed::<H, F, V, U>(state, rest, terminate, id);
            }
        }
    }
}

proof fn lemma_wish_outlives_the_rest<H, F, V, U>(
    state: AppState<H, V, U>,
    rest: Seq<WindowId>,
    terminate: bool,
    drawings: Drawings<H, V>,
    id: WindowId,
)
    requires
        !rest.contains(id),
        rest.no_duplicates(),
        state.windows.contains_key(id) ==> state.windows[id].redraw_requested,
    ensures
        ({
            let end = round_end::<H, F, V, U>(state, rest, terminate, drawings).0;
            end.windows.contains_key(id) ==> end.windows[id].redraw_requested
        }),
    decreases rest.len(),
{
    law_round_comes_to_an_end::<H, F, V, U>(state, rest, terminate);
    law_frame_is_wanted::<H, F, V, U>(state, rest, terminate);
    lemma_drawing_keeps_records::<H, F, V, U>(state, rest, terminate, id);
    let (after, step) = draw_windows::<H, F, V, U>(state, rest, terminate);
    if let NextView::DrawFrame { window, rest: left, terminate: ends } = step.next {
        assert(!left.contains(id)) by {
            if left.contains(id) {
                let j = choose|j: int| 0 <= j < left.len() && left[j] == id;
                assert(rest[rest.len() - left.len() + j] == id);
            }
        }
        lemma_wish_outlives_the_rest::<H, F, V, U>(
            after_drawing(after, window, drawings),
            left,
            ends || drawing_ends(window, drawings),
            drawings,
            id,
        );
    }
}

proof fn lemma_wish_of_the_rest<H, F, V, U>(
    state: AppState<H, V, U>,
    rest: Seq<WindowId>,
    terminate: bool,
    drawings: Drawings<H, V>,
    id: WindowId,
)
    requires
        rest.no_duplicates(),
        round_frames::<H, F, V, U>(state, rest, terminate, drawings).contains(id),
        drawing_wishes(id, drawings),
    ensures
        ({
            let end = round_end::<H, F, V, U>(state, rest, terminate, drawings).0;
            end.windows.contains_key(id) ==> end.windows[id].redraw_requested
        }),
    decreases rest.len(),
{
    law_round_comes_to_an_end::<H, F, V, U>(state, rest, terminate);
    law_frame_is_wanted::<H, F, V, U>(state, rest, terminate);
    let frames = round_frames::<H, F, V, U>(state, rest, terminate, drawings);
    let (after, step) = draw_windows::<H, F, V, U>(state, rest, terminate);
    if let NextView::DrawFrame { window, rest: left, terminate: ends } = step.next {
        let next = after_drawing(after, window, drawings);
        let ends_then = ends || drawing_ends(window, drawings);
        if window == id {
            lemma_wish_outlives_the_rest::<H, F, V, U>(next, left, ends_then, drawings, id);
        } else {
            let later = round_frames::<H, F, V, U>(next, left, ends_then, drawings);
            assert(frames == seq![window] + later);
            let i = choose|i: int| 0 <= i < frames.len() && frames[i] == id;
            assert(later[i - 1] == id);
            assert(later.contains(id));
            lemma_wish_of_the_rest::<H, F, V, U>(next, left, ends_then, drawings, id);
        }
    }
}

proof fn lemma_round_ends_with_control_flow<H, F, V, U>(
    state: AppState<H, V, U>,
    rest: Seq<WindowId>,
    terminate: bool,
    drawings: Drawings<H, V>,
    id: WindowId,
)
    ensures
        ({
            let (end, step) = round_end::<H, F, V, U>(state, rest, terminate, drawings);
            step.next is Return && wants_frame(end, id) ==> {
                &&& step.effects.len() > 0
                &&& step.effects.last() == Effect::SetControlFlow(ControlFlow::Poll)
            }
        }),
    decreases rest.len(),
{
    law_round_comes_to_an_end::<H, F, V, U>(state, rest, terminate);
    let (after, step) = draw_windows::<H, F, V, U>(state, rest, terminate);
    if let NextView::DrawFrame { window, rest: left, terminate: ends } = step.next {
        lemma_round_ends_with_control_flow::<H, F, V, U>(
            after_drawing(after, window, drawings),
            left,
            ends || drawing_ends(window, drawings),
            drawings,
            id,
        );
    } else if rest.len() == 0 {
        law_polls_while_a_frame_is_wanted::<H, F, V, U>(state);
    } else {
        let tail = rest.drop_first();
        let ends = if state.windows.contains_key(rest[0]) {
            terminate || state.windows[rest[0]].terminate_requested
        } else {
            terminate
        };
        lemma_round_ends_with_control_flow::<H, F, V, U>(state, tail, ends, drawings, id);
        assert(draw_windows::<H, F, V, U>(state, tail, ends) == (after, step));
    }
}

/// In a whole round of drawing, each window that wanted a frame at its beginning
/// comes up once, and no other does.
pub proof fn law_each_wanted_frame_drawn_once<H, F, V, U>(
    state: AppState<H, V, U>,
    order: Seq<WindowId>,
    drawings: Drawings<H, V>,
)
    requires
        lists_windows(state, order),
    ensures
        ({
            let frames = round_frames::<H, F, V, U>(state, order, false, drawings);
            &&& frames.no_duplicates()
            &&& forall|id: WindowId| #[trigger] frames.contains(id) <==> wants_frame(state, id)
        }),
{
    lemma_frames_of_the_rest::<H, F, V, U>(state, order, false, drawings);
}

/// A wish that a window makes while it is drawn outlives the round, as long as the
/// window does: the event loop then goes round again at once.
pub proof fn law_wish_while_drawing_is_met<H, F, V, U>(
    state: AppState<H, V, U>,
    order: Seq<WindowId>,
    drawings: Drawings<H, V>,
    id: WindowId,
)
    requires
        lists_windows(state, order),
        round_frames::<H, F, V, U>(state, order, false, drawings).contains(id),
        drawing_wishes(id, drawings),
    ensures
        ({
            let (end, step) = round_end::<H, F, V, U>(state, order, false, drawings);
            end.windows.contains_key(id) ==> {
                &&& end.windows[id].redraw_requested
                &&& step.next is Return ==> step.effects.len() > 0 && step.effects.last()
                    == Effect::SetControlFlow(ControlFlow::Poll)
            }
        }),
{
    lemma_wish_of_the_rest::<H, F, V, U>(state, order, false, drawings, id);
    lemma_round_ends_with_control_flow::<H, F, V, U>(state, order, false, drawings, id);
}

/// Windows that are created at the end of a round, or cannot be, do not put an end
/// to another window's wish for a frame either.
pub proof fn law_wish_outlives_creation<H, F, V, U>(
    state: AppState<H, V, U>,
    helper: WindowHelperGlutin,
    modal: bool,
    queued: Seq<AppCommand<H, V>>,
    id: WindowId,
)
    requires
        wants_frame(state, id),
        state.main_window is Some,
    ensures
        ({
            let then = AfterCreation::Commands(AfterCommands::ChooseControlFlow);
            let (after, step) = window_created::<H, F, V, U>(state, helper, modal, queued, then);
            after.windows.contains_key(id) ==> {
                &&& after.windows[id].redraw_requested
                &&& step.next is Return ==> step.effects.last() == Effect::SetControlFlow(
                    ControlFlow::Poll,
                )
            }
        }),
        ({
            let then = AfterCreation::Commands(AfterCommands::ChooseControlFlow);
            let (after, step) = creation_failed::<H, F, V, U>(state, then);
            after.windows.contains_key(id) ==> {
                &&& after.windows[id].redraw_requested
                &&& step.next is Return ==> step.effects.last() == Effect::SetControlFlow(
                    ControlFlow::Poll,
                )
            }
        }),
{
    let then = AfterCommands::ChooseControlFlow;
    let open = opened(state.with_queued(queued), helper, modal);
    lemma_commands_keep_records::<H, F, V, U>(open, then, id);
    law_polls_while_a_frame_is_wanted::<H, F, V, U>(open);
    lemma_commands_keep_records::<H, F, V, U>(state, then, id);
    law_polls_while_a_frame_is_wanted::<H, F, V, U>(state);
}

/// A window asks for the event loop to end, once its turn in a round of drawing
/// has come: in the record that its handler left if it was drawn, and in the one
/// that it had otherwise. A window whose frame could not be drawn is not asked.
pub open spec fn asks_to_end<H, V, U>(
    state: AppState<H, V, U>,
    id: WindowId,
    drawings: Drawings<H, V>,
) -> bool {
    if wants_frame(state, id) {
        drawing_ends(id, drawings)
    } else {
        state.windows.contains_key(id) && state.windows[id].terminate_requested
    }
}

/// One of these windows asks for the event loop to end.
spec fn one_asks_to_end<H, V, U>(
    state: AppState<H, V, U>,
    rest: Seq<WindowId>,
    drawings: Drawings<H, V>,
) -> bool {
    exists|i: int| 0 <= i < rest.len() && asks_to_end(state, #[trigger] rest[i], drawings)
}

/// The last thing to be done with commands in a round is to say how the event loop
/// goes on, and it is done once; it waits where a window has to be created first.
spec fn control_flow_last<H, F, V, U>(transition: Transition<H, F, V, U>) -> bool {
    let (after, step) = transition;
    &&& step.next is Return || step.next is Create
    &&& step.next is Return ==> step.effects.len() > 0
    &&& forall|i: int|
        0 <= i < step.effects.len() ==> (#[trigger] step.effects[i] is SetControlFlow <==> (
        step.next is Return && i == step.effects.len() - 1))
    &&& step.next is Return ==> step.effects.last() == Effect::SetControlFlow(
        if after.any_redraw() {
            ControlFlow::Poll
        } else {
            ControlFlow::Wait
        },
    )
}

proof fn lemma_control_flow_last<H, F, V, U>(state: AppState<H, V, U>)
    ensures
        control_flow_last(
            process_commands::<H, F, V, U>(state, AfterCommands::ChooseControlFlow),
        ),
    decreases state.commands.len(),
{
    let then = AfterCommands::ChooseControlFlow;
    if state.commands.len() > 0 {
        let rest = AppState { commands: state.commands.drop_first(), ..state };
        if let AppCommand::CloseWindow(id) = state.commands[0] {
            let (closed, effects) = close_window(rest, id);
            lemma_control_flow_last::<H, F, V, U>(closed);
            let later = process_commands::<H, F, V, U>(closed, then).1.effects;
            let all = process_commands::<H, F, V, U>(state, then).1.effects;
            assert(all == effects + later);
            assert forall|i: int| 0 <= i < effects.len() implies !(
            #[trigger] effects[i] is SetControlFlow) by {}
        }
    }
}

proof fn lemma_end_of_the_rest<H, F, V, U>(
    state: AppState<H, V, U>,
    rest: Seq<WindowId>,
    terminate: bool,
    drawings: Drawings<H, V>,
)
    requires
        rest.no_duplicates(),
    ensures
        ({
            let end = round_end::<H, F, V, U>(state, rest, terminate, drawings);
            if terminate || one_asks_to_end(state, rest, drawings) {
                has_exited(end)
            } else {
                control_flow_last(end)
            }
        }),
    decreases rest.len(),
{
    let (after, step) = draw_windows::<H, F, V, U>(state, rest, terminate);
    if rest.len() == 0 {
        lemma_control_flow_last::<H, F, V, U>(state);
    } else {
        let id = rest[0];
        let tail = rest.drop_first();
        assert(!tail.contains(id)) by {
            if tail.contains(id) {
                let i = choose|i: int| 0 <= i < tail.len() && tail[i] == id;
                assert(rest[i + 1] == id);
            }
        }
        let (next, ends) = if wants_frame(state, id) {
            (after_drawing(after, id, drawings), terminate || drawing_ends(id, drawings))
        } else if state.windows.contains_key(id) {
            (state, terminate || state.windows[id].terminate_requested)
        } else {
            (state, terminate)
        };
        assert(round_end::<H, F, V, U>(state, rest, terminate, drawings) == round_end::<
            H,
            F,
            V,
            U,
        >(next, tail, ends, drawings));
        lemma_end_of_the_rest::<H, F, V, U>(next, tail, ends, drawings);
        assert(ends == (terminate || asks_to_end(state, id, drawings)));
        assert forall|i: int| 0 <= i < tail.len() implies asks_to_end(
            next,
            #[trigger] tail[i],
            drawings,
        ) == asks_to_end(state, rest[i + 1], drawings) by {
            assert(tail.contains(tail[i]));
        }
        if one_asks_to_end(next, tail, drawings) {
            let i = choose|i: int|
                0 <= i < tail.len() && asks_to_end(next, #[trigger] tail[i], drawings);
            assert(asks_to_end(state, rest[i + 1], drawings));
        }
        if one_asks_to_end(state, rest, drawings) {
            let i = choose|i: int|
                0 <= i < rest.len() && asks_to_end(state, #[trigger] rest[i], drawings);
            if i > 0 {
                assert(asks_to_end(next, tail[i - 1], drawings));
            }
        }
    }
}

/// A whole round of drawing ends the program if and only if an open window asks
/// for that after its turn. Otherwise, once what handlers asked for is done, the
/// event loop is told how to go on: once, at the very end, and according to
/// whether a window wants a frame then. Where a window is yet to be created, that
/// is still to come.
pub proof fn law_end_of_a_round<H, F, V, U>(
    state: AppState<H, V, U>,
    order: Seq<WindowId>,
    drawings: Drawings<H, V>,
)
    requires
        lists_windows(state, order),
    ensures
        ({
            let (end, step) = round_end::<H, F, V, U>(state, order, false, drawings);
            let ends = exists|id: WindowId| #[trigger]
                state.windows.contains_key(id) && asks_to_end(state, id, drawings);
            &&& ends <==> has_exited((end, step))
            &&& !ends ==> {
                &&& step.next is Return || step.next is Create
                &&& step.next is Return ==> step.effects.len() > 0 && step.effects.last()
                    == Effect::SetControlFlow(
                    if end.any_redraw() {
                        ControlFlow::Poll
                    } else {
                        ControlFlow::Wait
                    },
                )
                &&& forall|i: int|
                    0 <= i < step.effects.len() ==> (#[trigger] step.effects[i] is SetControlFlow
                        <==> (step.next is Return && i == step.effects.len() - 1))
            }
        }),
{
    lemma_end_of_the_rest::<H, F, V, U>(state, order, false, drawings);
    let (end, step) = round_end::<H, F, V, U>(state, order, false, drawings);
    let ends = exists|id: WindowId| #[trigger]
        state.windows.contains_key(id) && asks_to_end(state, id, drawings);
    if ends {
        let id = choose|id: WindowId| #[trigger]
            state.windows.contains_key(id) && asks_to_end(state, id, drawings);
        assert(order.contains(id));
        let i = choose|i: int| 0 <= i < order.len() && order[i] == id;
        assert(asks_to_end(state, order[i], drawings));
    } else if one_asks_to_end(state, order, drawings) {
        let i = choose|i: int|
            0 <= i < order.len() && asks_to_end(state, #[trigger] order[i], drawings);
        assert(order.contains(order[i]));
        assert(state.windows.contains_key(order[i]));
    } else {
        assert(exit_effects().last() == Effect::ExitLoop);
    }
}

proof fn lemma_commands_keep_main<H, F, V, U>(state: AppState<H, V, U>, then: AfterCommands)
    ensures
        process_commands::<H, F, V, U>(state, then).0.main_window == state.main_window,
    decreases state.commands.len(),
{
    if state.commands.len() > 0 {
        let rest = AppState { commands: state.commands.drop_first(), ..state };
        if let AppCommand::CloseWindow(id) = state.commands[0] {
            lemma_commands_keep_main::<H, F, V, U>(close_window(rest, id).0, then);
        }
    }
}

proof fn lemma_replay_keeps_main<H, F, V, U>(
    state: AppState<H, V, U>,
    events: Seq<UserEventGlutin<U>>,
)
    ensures
        replay::<H, F, V, U>(state, events).0.main_window == state.main_window,
    decreases events.len(),
{
    if events.len() == 0 {
        lemma_commands_keep_main::<H, F, V, U>(state, AfterCommands::Return);
    } else {
        lemma_replay_keeps_main::<H, F, V, U>(state, events.drop_first());
    }
}

proof fn lemma_drawing_keeps_main<H, F, V, U>(
    state: AppState<H, V, U>,
    rest: Seq<WindowId>,
    terminate: bool,
)
    ensures
        draw_windows::<H, F, V, U>(state, rest, terminate).0.main_window == state.main_window,
    decreases rest.len(),
{
    if rest.len() == 0 {
        lemma_commands_keep_main::<H, F, V, U>(state, AfterCommands::ChooseControlFlow);
    } else {
        let tail = rest.drop_first();
        lemma_drawing_keeps_main::<H, F, V, U>(state, tail, terminate);
        lemma_drawing_keeps_main::<H, F, V, U>(
            state,
            tail,
            terminate || state.windows[rest[0]].terminate_requested,
        );
    }
}

proof fn lemma_creation_keeps_main<H, F, V, U>(state: AppState<H, V, U>, then: AfterCreation)
    ensures
        after_creation::<H, F, V, U>(state, then).0.main_window == state.main_window,
{
    match then {
        AfterCreation::Startup => {
            lemma_replay_keeps_main::<H, F, V, U>(
                AppState { pending_user_events: Seq::empty(), ..state },
                state.pending_user_events,
            );
        },
        AfterCreation::Commands(then) => {
            lemma_commands_keep_main::<H, F, V, U>(state, then);
        },
    }
}

/// No event changes which window is the main window, nor makes one of a window
/// where there is none.
pub proof fn law_events_keep_main_window<H, F, V, U>(
    state: AppState<H, V, U>,
    id: WindowId,
    event: WindowEvent<F, V>,
    sent: UserEventGlutin<U>,
    order: Seq<WindowId>,
    terminate: bool,
)
    ensures
        resumed::<H, F, V, U>(state).0.main_window == state.main_window,
        window_event::<H, F, V, U>(state, id, event).0.main_window == state.main_window,
        user_event::<H, F, V, U>(state, sent).0.main_window == state.main_window,
        draw_windows::<H, F, V, U>(state, order, terminate).0.main_window == state.main_window,
        exiting::<H, F, V, U>(state).0.main_window == state.main_window,
{
    lemma_commands_keep_main::<H, F, V, U>(state, AfterCommands::Return);
    lemma_commands_keep_main::<H, F, V, U>(state.with_redraw(id, true), AfterCommands::Return);
    lemma_drawing_keeps_main::<H, F, V, U>(state, order, terminate);
}

/// Nor does anything that handlers do or ask for; and once there is a main window,
/// no window that is created takes its place.
pub proof fn law_outcomes_keep_main_window<H, F, V, U>(
    state: AppState<H, V, U>,
    window: WindowId,
    helper: WindowHelperGlutin,
    queued: Seq<AppCommand<H, V>>,
    modal: bool,
    then_call: AfterCallView<U>,
    then_create: AfterCreation,
    rest: Seq<WindowId>,
    terminate: bool,
)
    ensures
        called::<H, F, V, U>(state, window, helper, queued, then_call).0.main_window
            == state.main_window,
        frame_drawn::<H, F, V, U>(state, window, helper, queued, rest, terminate).0.main_window
            == state.main_window,
        creation_failed::<H, F, V, U>(state, then_create).0.main_window == state.main_window,
        window_created::<H, F, V, U>(state, helper, modal, queued, then_create).0.main_window == (
        if state.main_window is None {
            Some(helper.id)
        } else {
            state.main_window
        }),
{
    let updated = state.with_helper(window, helper).with_queued(queued);
    lemma_commands_keep_main::<H, F, V, U>(updated, AfterCommands::Return);
    if let AfterCallView::Replay(events) = then_call {
        lemma_replay_keeps_main::<H, F, V, U>(updated, events);
    }
    lemma_drawing_keeps_main::<H, F, V, U>(
        updated,
        rest,
        terminate || helper.terminate_requested,
    );
    lemma_creation_keeps_main::<H, F, V, U>(state, then_create);
    lemma_creation_keeps_main::<H, F, V, U>(
        opened(state.with_queued(queued), helper, modal),
        then_create,
    );
}

/// A modal window has the input to itself from the moment it opens: events that
/// are withheld reach none of the windows that were there before.
pub proof fn law_new_modal_has_the_input<H, F, V, U>(
    state: AppState<H, V, U>,
    helper: WindowHelperGlutin,
    id: WindowId,
    event: WindowEvent<F, V>,
)
    requires
        id != helper.id,
        withheld_when_modal(event),
    ensures
        is_withheld(opened(state, helper, true), id, event),
        !is_withheld(opened(state, helper, true), helper.id, event),
{
}

/// What a window sends to itself comes back to its own handler, as long as it is
/// open.
pub proof fn law_sent_events_come_back<H, F, V, U>(
    state: AppState<H, V, U>,
    sender: UserEventSenderGlutin,
    event: U,
)
    requires
        state.main_window is Some,
        sender.target is Some,
        state.windows.contains_key(sender.target->0),
    ensures
        user_event::<H, F, V, U>(state, UserEventGlutin::UserEvent(sender.target, event))
            == calling::<H, F, V, U>(
            state,
            seq![],
            sender.target->0,
            seq![Callback::UserEvent(event)],
            AfterCallView::Finish,
        ),
{
}

/// At the end no window is left.
pub proof fn law_nothing_left_at_the_end<H, F, V, U>(state: AppState<H, V, U>)
    ensures
        exiting::<H, F, V, U>(state).0.windows.dom() == Set::<WindowId>::empty(),
        exiting::<H, F, V, U>(state).1.effects == seq![Effect::DropAllWindows],
{
}

} // verus!
