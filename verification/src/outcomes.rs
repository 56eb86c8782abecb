//! What a program can rely on once its handlers return: what they asked for is
//! done, in what order, and what becomes of the windows.

use crate::events::{Callback, UserEventGlutin, WindowId};
use crate::helper::{AppCommand, PendingWindow, WindowHelperGlutin};
use crate::modal::lemma_close_other;
use crate::model::{
    called, close_window, creation_failed, draw_windows, exiting, frame_drawn, lists_windows,
    process_commands, recipient, replay, resumed, user_event, user_event_call, window_created,
    AppState,
};
use crate::steps::{
    AfterCallView, AfterCommands, AfterCreation, ControlFlow, Effect, NextView, StepView,
};
use vstd::prelude::*;

verus! {

/// Where handlers have asked for nothing, nothing is done. At the end of a round
/// the event loop is then told to go round at once if some open window wants a
/// frame, and to wait for an event if none does.
pub proof fn law_nothing_asked_nothing_done<H, F, V, U>(state: AppState<H, V, U>)
    requires
        state.commands.len() == 0,
    ensures
        process_commands::<H, F, V, U>(state, AfterCommands::Return) == (
            state,
            StepView::<H, F, V, U> { effects: seq![], next: NextView::Return },
        ),
        (exists|id: WindowId| #[trigger]
            state.windows.contains_key(id) && state.windows[id].redraw_requested)
            ==> process_commands::<H, F, V, U>(state, AfterCommands::ChooseControlFlow) == (
            state,
            StepView::<H, F, V, U> {
                effects: seq![Effect::SetControlFlow(ControlFlow::Poll)],
                next: NextView::Return,
            },
        ),
        (forall|id: WindowId| #[trigger]
            state.windows.contains_key(id) ==> !state.windows[id].redraw_requested)
            ==> process_commands::<H, F, V, U>(state, AfterCommands::ChooseControlFlow) == (
            state,
            StepView::<H, F, V, U> {
                effects: seq![Effect::SetControlFlow(ControlFlow::Wait)],
                next: NextView::Return,
            },
        ),
{
}

/// A window that was asked for is created, as it was asked for. What was asked for
/// after it waits.
pub proof fn law_create_is_carried_out<H, F, V, U>(
    state: AppState<H, V, U>,
    pending: PendingWindow<H, V>,
    rest: Seq<AppCommand<H, V>>,
    then: AfterCommands,
)
    requires
        state.commands == seq![AppCommand::CreateWindow(pending)] + rest,
    ensures
        process_commands::<H, F, V, U>(state, then) == (
            AppState { commands: rest, ..state },
            StepView::<H, F, V, U> {
                effects: seq![],
                next: NextView::Create { pending, then: AfterCreation::Commands(then) },
            },
        ),
{
    assert(state.commands.drop_first() == rest);
}

/// A request to close the main window drops all windows and ends the event loop.
/// What was asked for after it is still done.
pub proof fn law_close_of_main_is_carried_out<H, F, V, U>(
    state: AppState<H, V, U>,
    id: WindowId,
    rest: Seq<AppCommand<H, V>>,
    then: AfterCommands,
)
    requires
        state.commands == seq![AppCommand::CloseWindow(id)] + rest,
        state.main_window == Some(id),
    ensures
        ({
            let ended = AppState {
                windows: Map::empty(),
                modal_stack: Seq::empty(),
                commands: rest,
                ..state
            };
            let (after, step) = process_commands::<H, F, V, U>(state, then);
            let (later, later_step) = process_commands::<H, F, V, U>(ended, then);
            &&& after == later
            &&& step.effects == seq![Effect::DropAllWindows, Effect::ExitLoop] + later_step.effects
            &&& step.next == later_step.next
            &&& rest.len() == 0 && then == AfterCommands::Return ==> (after, step) == (
                ended,
                StepView::<H, F, V, U> {
                    effects: seq![Effect::DropAllWindows, Effect::ExitLoop],
                    next: NextView::Return,
                },
            )
        }),
{
    assert(state.commands.drop_first() == rest);
}

/// A request to close another window drops that window and no other, takes it off
/// the modal stack, and brings the modal window that is on top then to the front.
/// What was asked for after it is done next.
pub proof fn law_close_of_child_is_carried_out<H, F, V, U>(
    state: AppState<H, V, U>,
    id: WindowId,
    rest: Seq<AppCommand<H, V>>,
    below: Seq<WindowId>,
    above: Seq<WindowId>,
    then: AfterCommands,
)
    requires
        state.commands == seq![AppCommand::CloseWindow(id)] + rest,
        state.main_window != Some(id),
        !below.contains(id),
        !above.contains(id),
        state.modal_stack == below + above || state.modal_stack == below + seq![id] + above,
    ensures
        ({
            let stack = below + above;
            let closed = AppState {
                windows: state.windows.remove(id),
                modal_stack: stack,
                commands: rest,
                ..state
            };
            let dropped: Seq<Effect> = if state.windows.contains_key(id) {
                seq![Effect::DropWindow(id)]
            } else {
                seq![]
            };
            let focused: Seq<Effect> = if stack.len() > 0 && state.windows.contains_key(
                stack[stack.len() - 1],
            ) {
                seq![Effect::Focus(stack[stack.len() - 1])]
            } else {
                seq![]
            };
            let (after, step) = process_commands::<H, F, V, U>(state, then);
            let (later, later_step) = process_commands::<H, F, V, U>(closed, then);
            &&& after == later
            &&& step.effects == dropped + focused + later_step.effects
            &&& step.next == later_step.next
            &&& rest.len() == 0 && then == AfterCommands::Return ==> (after, step) == (
                closed,
                StepView::<H, F, V, U> { effects: dropped + focused, next: NextView::Return },
            )
        }),
{
    let first = AppState { commands: rest, ..state };
    assert(state.commands.drop_first() == rest);
    lemma_close_other(first, id, below, above);
    let closed = AppState {
        windows: state.windows.remove(id),
        modal_stack: below + above,
        commands: rest,
        ..state
    };
    assert(close_window(first, id).0 == closed);
    if rest.len() == 0 && then == AfterCommands::Return {
        law_nothing_asked_nothing_done::<H, F, V, U>(closed);
        let effects = close_window(first, id).1;
        assert(effects + Seq::<Effect>::empty() == effects);
    }
}

/// Of the windows that handlers asked to close before the first one that they asked
/// to create, none is open afterwards. Where the main window is one of them, none
/// is open at all, and the event loop has been told to end. The others keep their
/// records, and no window opens by itself.
pub proof fn law_all_closes_are_carried_out<H, F, V, U>(
    state: AppState<H, V, U>,
    closes: int,
    then: AfterCommands,
)
    requires
        0 <= closes <= state.commands.len(),
        forall|i: int| 0 <= i < closes ==> #[trigger] state.commands[i] is CloseWindow,
        closes < state.commands.len() ==> state.commands[closes] is CreateWindow,
    ensures
        ({
            let (after, step) = process_commands::<H, F, V, U>(state, then);
            let main_closed = exists|i: int|
                0 <= i < closes && state.main_window == Some(
                    #[trigger] state.commands[i]->CloseWindow_0,
                );
            &&& forall|i: int|
                0 <= i < closes ==> !after.windows.contains_key(
                    #[trigger] state.commands[i]->CloseWindow_0,
                )
            &&& main_closed ==> after.windows.dom() == Set::<WindowId>::empty()
            &&& main_closed ==> step.effects.contains(Effect::DropAllWindows)
                && step.effects.contains(Effect::ExitLoop)
            &&& forall|id: WindowId| #[trigger]
                after.windows.contains_key(id) ==> state.windows.contains_key(id)
                    && after.windows[id] == state.windows[id]
            &&& !main_closed ==> forall|id: WindowId|
                {
                    &&& #[trigger] state.windows.contains_key(id)
                    &&& forall|i: int|
                        0 <= i < closes ==> #[trigger] state.commands[i]->CloseWindow_0 != id
                } ==> after.windows.contains_key(id)
            &&& after.initial == state.initial
            &&& after.main_window == state.main_window
            &&& after.pending_user_events == state.pending_user_events
            &&& closes == state.commands.len() ==> step.next is Return && after.commands.len() == 0
        }),
    decreases closes,
{
    if closes > 0 {
        let rest = state.commands.drop_first();
        let id = state.commands[0]->CloseWindow_0;
        let first = AppState { commands: rest, ..state };
        let (closed, effects) = close_window(first, id);
        assert forall|i: int| 0 <= i < closes - 1 implies #[trigger]
            closed.commands[i] is CloseWindow by {
            assert(closed.commands[i] == state.commands[i + 1]);
        }
        if closes < state.commands.len() {
            assert(closed.commands[closes - 1] == state.commands[closes]);
        }
        law_all_closes_are_carried_out::<H, F, V, U>(closed, closes - 1, then);
        let (after, step) = process_commands::<H, F, V, U>(state, then);
        let later = process_commands::<H, F, V, U>(closed, then).1.effects;
        assert(step.effects == effects + later);
        assert forall|i: int| 0 <= i < closes implies !after.windows.contains_key(
            #[trigger] state.commands[i]->CloseWindow_0,
        ) by {
            if i > 0 {
                assert(closed.commands[i - 1] == state.commands[i]);
                assert(!after.windows.contains_key(closed.commands[i - 1]->CloseWindow_0));
            }
        }
        let main_closed = exists|i: int|
            0 <= i < closes && state.main_window == Some(
                #[trigger] state.commands[i]->CloseWindow_0,
            );
        if main_closed {
            let i = choose|i: int|
                0 <= i < closes && state.main_window == Some(
                    #[trigger] state.commands[i]->CloseWindow_0,
                );
            if i > 0 {
                assert(closed.commands[i - 1] == state.commands[i]);
                assert(closed.main_window == Some(closed.commands[i - 1]->CloseWindow_0));
                let k = choose|k: int|
                    0 <= k < later.len() && later[k] == Effect::DropAllWindows;
                assert(step.effects[effects.len() + k] == Effect::DropAllWindows);
                let l = choose|l: int| 0 <= l < later.len() && later[l] == Effect::ExitLoop;
                assert(step.effects[effects.len() + l] == Effect::ExitLoop);
            } else {
                assert(step.effects[0] == Effect::DropAllWindows);
                assert(step.effects[1] == Effect::ExitLoop);
                assert(after.windows.dom() == Set::<WindowId>::empty());
            }
        } else {
            assert(state.main_window != Some(state.commands[0]->CloseWindow_0));
            assert forall|i: int| 0 <= i < closes - 1 implies closed.main_window != Some(
                #[trigger] closed.commands[i]->CloseWindow_0,
            ) by {
                assert(closed.commands[i] == state.commands[i + 1]);
            }
            assert forall|other: WindowId|
                {
                    &&& #[trigger] state.windows.contains_key(other)
                    &&& forall|i: int|
                        0 <= i < closes ==> #[trigger] state.commands[i]->CloseWindow_0 != other
                } implies after.windows.contains_key(other) by {
                assert(state.commands[0]->CloseWindow_0 != other);
                assert(closed.windows.contains_key(other));
                assert forall|i: int| 0 <= i < closes - 1 implies #[trigger]
                    closed.commands[i]->CloseWindow_0 != other by {
                    assert(closed.commands[i] == state.commands[i + 1]);
                }
            }
        }
    }
}

/// Once a handler returns, its window has the record that the handler left, and
/// what it asked for is queued behind what is queued already. If it asked for the
/// end the program ends; otherwise what is queued is done.
pub proof fn law_outcome_of_a_call<H, F, V, U>(
    state: AppState<H, V, U>,
    window: WindowId,
    helper: WindowHelperGlutin,
    queued: Seq<AppCommand<H, V>>,
)
    requires
        state.windows.contains_key(window),
    ensures
        ({
            let updated = AppState {
                windows: state.windows.insert(window, helper),
                commands: state.commands + queued,
                ..state
            };
            let ended = (
                AppState { windows: Map::empty(), modal_stack: Seq::empty(), ..updated },
                StepView::<H, F, V, U> {
                    effects: seq![Effect::DropAllWindows, Effect::ExitLoop],
                    next: NextView::Return,
                },
            );
            let finished = called::<H, F, V, U>(
                state,
                window,
                helper,
                queued,
                AfterCallView::Finish,
            );
            let resized = called::<H, F, V, U>(
                state,
                window,
                helper,
                queued,
                AfterCallView::DrawIfRequested,
            );
            &&& helper.terminate_requested ==> finished == ended
            &&& !helper.terminate_requested ==> finished == process_commands::<H, F, V, U>(
                updated,
                AfterCommands::Return,
            )
            &&& !helper.redraw_requested ==> resized == finished
            &&& helper.redraw_requested ==> resized == (
                AppState {
                    windows: state.windows.insert(
                        window,
                        WindowHelperGlutin { redraw_requested: false, ..helper },
                    ),
                    ..updated
                },
                StepView::<H, F, V, U> {
                    effects: seq![],
                    next: NextView::Call {
                        window,
                        callbacks: seq![Callback::Draw],
                        then: AfterCallView::Finish,
                    },
                },
            )
        }),
{
    let updated = state.with_helper(window, helper).with_queued(queued);
    assert(updated.windows.insert(
        window,
        WindowHelperGlutin { redraw_requested: false, ..helper },
    ) == state.windows.insert(
        window,
        WindowHelperGlutin { redraw_requested: false, ..helper },
    ));
}

/// What the handler of a window asks for is queued and done though the window is no
/// longer open. Its record is not kept.
pub proof fn law_outcome_of_a_call_of_a_closed_window<H, F, V, U>(
    state: AppState<H, V, U>,
    window: WindowId,
    helper: WindowHelperGlutin,
    queued: Seq<AppCommand<H, V>>,
)
    requires
        !state.windows.contains_key(window),
    ensures
        ({
            let queueing = AppState { commands: state.commands + queued, ..state };
            let done = process_commands::<H, F, V, U>(queueing, AfterCommands::Return);
            &&& called::<H, F, V, U>(state, window, helper, queued, AfterCallView::Finish) == done
            &&& called::<H, F, V, U>(
                state,
                window,
                helper,
                queued,
                AfterCallView::DrawIfRequested,
            ) == done
        }),
{
}

/// An event of the program goes to the window that it is for, if that is open: to
/// the one that it names, or to the main window where it names none. The handler is
/// told what it is, unchanged. Nothing else happens.
pub proof fn law_user_events_are_told<H, F, V, U>(
    state: AppState<H, V, U>,
    main: WindowId,
    id: WindowId,
    flag: bool,
    event: U,
)
    requires
        state.main_window == Some(main),
    ensures
        ({
            let ignored = (
                state,
                StepView::<H, F, V, U> { effects: seq![], next: NextView::Return },
            );
            let grab = user_event::<H, F, V, U>(
                state,
                UserEventGlutin::MouseGrabStatusChanged(id, flag),
            );
            let fullscreen = user_event::<H, F, V, U>(
                state,
                UserEventGlutin::FullscreenStatusChanged(id, flag),
            );
            let addressed = user_event::<H, F, V, U>(
                state,
                UserEventGlutin::UserEvent(Some(id), event),
            );
            let unaddressed = user_event::<H, F, V, U>(
                state,
                UserEventGlutin::UserEvent(None, event),
            );
            &&& state.windows.contains_key(id) ==> {
                &&& grab == (
                    state,
                    StepView::<H, F, V, U> {
                        effects: seq![],
                        next: NextView::Call {
                            window: id,
                            callbacks: seq![Callback::MouseGrabStatusChanged(flag)],
                            then: AfterCallView::Finish,
                        },
                    },
                )
                &&& fullscreen == (
                    state,
                    StepView::<H, F, V, U> {
                        effects: seq![],
                        next: NextView::Call {
                            window: id,
                            callbacks: seq![Callback::FullscreenStatusChanged(flag)],
                            then: AfterCallView::Finish,
                        },
                    },
                )
                &&& addressed == (
                    state,
                    StepView::<H, F, V, U> {
                        effects: seq![],
                        next: NextView::Call {
                            window: id,
                            callbacks: seq![Callback::UserEvent(event)],
                            then: AfterCallView::Finish,
                        },
                    },
                )
            }
            &&& !state.windows.contains_key(id) ==> grab == ignored && fullscreen == ignored
                && addressed == ignored
            &&& state.windows.contains_key(main) ==> unaddressed == (
                state,
                StepView::<H, F, V, U> {
                    effects: seq![],
                    next: NextView::Call {
                        window: main,
                        callbacks: seq![Callback::UserEvent(event)],
                        then: AfterCallView::Finish,
                    },
                },
            )
            &&& !state.windows.contains_key(main) ==> unaddressed == ignored
        }),
{
}

/// An event that was kept is delivered as one that has just been sent would be. The
/// next is delivered once the handler returns, and at once where there is none to
/// call: whatever the handler does, nothing it asks for is done before that.
pub proof fn law_kept_events_are_told<H, F, V, U>(
    state: AppState<H, V, U>,
    first: UserEventGlutin<U>,
    rest: Seq<UserEventGlutin<U>>,
    window: WindowId,
    helper: WindowHelperGlutin,
    queued: Seq<AppCommand<H, V>>,
)
    requires
        state.main_window is Some,
    ensures
        ({
            let now = user_event::<H, F, V, U>(state, first);
            let kept = replay::<H, F, V, U>(state, seq![first] + rest);
            &&& now.1.next is Return ==> kept == replay::<H, F, V, U>(state, rest)
            &&& now.1.next is Call ==> kept == (
                state,
                StepView::<H, F, V, U> {
                    effects: seq![],
                    next: NextView::Call {
                        window: now.1.next->Call_window,
                        callbacks: now.1.next->callbacks,
                        then: AfterCallView::Replay(rest),
                    },
                },
            )
            &&& state.windows.contains_key(window) ==> called::<H, F, V, U>(
                state,
                window,
                helper,
                queued,
                AfterCallView::Replay(rest),
            ) == replay::<H, F, V, U>(
                AppState {
                    windows: state.windows.insert(window, helper),
                    commands: state.commands + queued,
                    ..state
                },
                rest,
            )
        }),
{
    assert((seq![first] + rest).drop_first() == rest);
}

/// Once there are no kept events left, the program ends if the main window has
/// asked for that, and otherwise what handlers have asked for is done.
pub proof fn law_end_of_kept_events<H, F, V, U>(state: AppState<H, V, U>, main: WindowId)
    requires
        state.main_window == Some(main),
    ensures
        ({
            let end = replay::<H, F, V, U>(state, seq![]);
            &&& state.windows.contains_key(main) && state.windows[main].terminate_requested
                ==> end == (
                AppState { windows: Map::empty(), modal_stack: Seq::empty(), ..state },
                StepView::<H, F, V, U> {
                    effects: seq![Effect::DropAllWindows, Effect::ExitLoop],
                    next: NextView::Return,
                },
            )
            &&& !(state.windows.contains_key(main) && state.windows[main].terminate_requested)
                ==> end == process_commands::<H, F, V, U>(state, AfterCommands::Return)
        }),
{
}

/// An event that comes before there is a window is put behind those that are kept
/// already. Nothing else happens.
pub proof fn law_events_wait_for_a_window<H, F, V, U>(
    state: AppState<H, V, U>,
    event: UserEventGlutin<U>,
)
    requires
        state.main_window is None,
    ensures
        user_event::<H, F, V, U>(state, event) == (
            AppState {
                pending_user_events: state.pending_user_events + seq![event],
                ..state
            },
            StepView::<H, F, V, U> { effects: seq![], next: NextView::Return },
        ),
{
    assert(state.pending_user_events.push(event) == state.pending_user_events + seq![event]);
}

/// The program starts by creating the window that it was given, and does so once.
pub proof fn law_start<H, F, V, U>(state: AppState<H, V, U>)
    ensures
        state.initial is Some ==> resumed::<H, F, V, U>(state) == (
            AppState { initial: None, ..state },
            StepView::<H, F, V, U> {
                effects: seq![],
                next: NextView::Create {
                    pending: state.initial->0,
                    then: AfterCreation::Startup,
                },
            },
        ),
        state.initial is None ==> resumed::<H, F, V, U>(state) == (
            state,
            StepView::<H, F, V, U> { effects: seq![], next: NextView::Return },
        ),
{
}

/// A window that has been created is open from then on, with the record that its
/// handler left and a first frame wanted. It comes to the front. If it is modal it
/// is the topmost modal window, and if it is the first it is the main window. What
/// its handler asked for is queued behind what is queued already. The program goes
/// on with the kept events where it has just started, and with the queue otherwise.
pub proof fn law_window_is_taken_up<H, F, V, U>(
    state: AppState<H, V, U>,
    helper: WindowHelperGlutin,
    modal: bool,
    queued: Seq<AppCommand<H, V>>,
    then: AfterCommands,
)
    ensures
        ({
            let open = AppState {
                windows: state.windows.insert(
                    helper.id,
                    WindowHelperGlutin { redraw_requested: true, ..helper },
                ),
                main_window: match state.main_window {
                    Some(main) => Some(main),
                    None => Some(helper.id),
                },
                modal_stack: if modal {
                    state.modal_stack + seq![helper.id]
                } else {
                    state.modal_stack
                },
                commands: state.commands + queued,
                ..state
            };
            let later = process_commands::<H, F, V, U>(open, then);
            let kept = replay::<H, F, V, U>(
                AppState { pending_user_events: seq![], ..open },
                state.pending_user_events,
            );
            &&& window_created::<H, F, V, U>(
                state,
                helper,
                modal,
                queued,
                AfterCreation::Commands(then),
            ) == (
                later.0,
                StepView::<H, F, V, U> {
                    effects: seq![Effect::Focus(helper.id)] + later.1.effects,
                    next: later.1.next,
                },
            )
            &&& window_created::<H, F, V, U>(
                state,
                helper,
                modal,
                queued,
                AfterCreation::Startup,
            ) == (
                kept.0,
                StepView::<H, F, V, U> {
                    effects: seq![Effect::Focus(helper.id)] + kept.1.effects,
                    next: kept.1.next,
                },
            )
        }),
{
    assert(state.modal_stack.push(helper.id) == state.modal_stack + seq![helper.id]);
}

/// Where a window cannot be created the program goes on with what is queued, or
/// with the kept events where it has just started. Without a main window the
/// process ends, with status 1.
pub proof fn law_window_is_missing<H, F, V, U>(state: AppState<H, V, U>, then: AfterCommands)
    ensures
        state.main_window is None ==> {
            let ended = (
                state,
                StepView::<H, F, V, U> {
                    effects: seq![Effect::ExitProcess(1)],
                    next: NextView::Return,
                },
            );
            &&& creation_failed::<H, F, V, U>(state, AfterCreation::Commands(then)) == ended
            &&& creation_failed::<H, F, V, U>(state, AfterCreation::Startup) == ended
        },
        state.main_window is Some ==> {
            &&& creation_failed::<H, F, V, U>(state, AfterCreation::Commands(then))
                == process_commands::<H, F, V, U>(state, then)
            &&& creation_failed::<H, F, V, U>(state, AfterCreation::Startup) == replay::<
                H,
                F,
                V,
                U,
            >(
                AppState { pending_user_events: seq![], ..state },
                state.pending_user_events,
            )
        },
{
}

/// A round of drawing sees to one window after the other. One that wants a frame is
/// drawn, and its wish is cleared first. One that does not is only asked whether
/// the event loop is to end. One that is no longer open is passed over.
pub proof fn law_turn_in_a_round<H, F, V, U>(
    state: AppState<H, V, U>,
    id: WindowId,
    rest: Seq<WindowId>,
    terminate: bool,
)
    ensures
        ({
            let turn = draw_windows::<H, F, V, U>(state, seq![id] + rest, terminate);
            &&& !state.windows.contains_key(id) ==> turn == draw_windows::<H, F, V, U>(
                state,
                rest,
                terminate,
            )
            &&& state.windows.contains_key(id) && state.windows[id].redraw_requested ==> turn == (
                AppState {
                    windows: state.windows.insert(
                        id,
                        WindowHelperGlutin { redraw_requested: false, ..state.windows[id] },
                    ),
                    ..state
                },
                StepView::<H, F, V, U> {
                    effects: seq![],
                    next: NextView::DrawFrame { window: id, rest, terminate },
                },
            )
            &&& state.windows.contains_key(id) && !state.windows[id].redraw_requested
                ==> turn == draw_windows::<H, F, V, U>(
                state,
                rest,
                terminate || state.windows[id].terminate_requested,
            )
        }),
{
    assert((seq![id] + rest).drop_first() == rest);
}

/// After the last window of a round the program ends if one of them asked for that.
/// Otherwise what handlers have asked for is done, and the event loop goes on.
pub proof fn law_last_turn_in_a_round<H, F, V, U>(state: AppState<H, V, U>)
    ensures
        draw_windows::<H, F, V, U>(state, seq![], true) == (
            AppState { windows: Map::empty(), modal_stack: Seq::empty(), ..state },
            StepView::<H, F, V, U> {
                effects: seq![Effect::DropAllWindows, Effect::ExitLoop],
                next: NextView::Return,
            },
        ),
        draw_windows::<H, F, V, U>(state, seq![], false) == process_commands::<H, F, V, U>(
            state,
            AfterCommands::ChooseControlFlow,
        ),
{
}

/// Once a frame has been drawn its window has the record that the handler left, what
/// the handler asked for is queued, and the round goes on. A wish to end counts.
pub proof fn law_outcome_of_a_frame<H, F, V, U>(
    state: AppState<H, V, U>,
    window: WindowId,
    helper: WindowHelperGlutin,
    queued: Seq<AppCommand<H, V>>,
    rest: Seq<WindowId>,
    terminate: bool,
)
    requires
        state.windows.contains_key(window),
    ensures
        frame_drawn::<H, F, V, U>(state, window, helper, queued, rest, terminate) == draw_windows::<
            H,
            F,
            V,
            U,
        >(
            AppState {
                windows: state.windows.insert(window, helper),
                commands: state.commands + queued,
                ..state
            },
            rest,
            terminate || helper.terminate_requested,
        ),
{
}

/// A round of drawing sees to each open window, to none twice, and to no other.
pub proof fn law_round_sees_to_each_window<H, V, U>(
    state: AppState<H, V, U>,
    order: Seq<WindowId>,
    id: WindowId,
)
    requires
        lists_windows(state, order),
    ensures
        state.windows.contains_key(id) <==> exists|i: int|
            0 <= i < order.len() && #[trigger] order[i] == id,
        forall|i: int, j: int|
            0 <= i < order.len() && 0 <= j < order.len() && #[trigger] order[i] == #[trigger] order[j]
                ==> i == j,
{
    assert(order.contains(id) <==> state.windows.contains_key(id));
}

/// When the event loop has ended, every window is dropped, and what else there was
/// is left alone.
pub proof fn law_end<H, F, V, U>(state: AppState<H, V, U>)
    ensures
        exiting::<H, F, V, U>(state) == (
            AppState { windows: Map::empty(), ..state },
            StepView::<H, F, V, U> {
                effects: seq![Effect::DropAllWindows],
                next: NextView::Return,
            },
        ),
{
}

/// An event is dispatched to the window that it names, or to the main window where
/// it names none and there is one, and only while that window is open; with the
/// call that tells of it.
pub proof fn law_dispatch<H, F, V, U>(
    state: AppState<H, V, U>,
    id: WindowId,
    flag: bool,
    event: U,
    target: Option<WindowId>,
)
    ensures
        ({
            let open = if state.windows.contains_key(id) {
                Some(id)
            } else {
                None
            };
            let grab = UserEventGlutin::<U>::MouseGrabStatusChanged(id, flag);
            let fullscreen = UserEventGlutin::<U>::FullscreenStatusChanged(id, flag);
            let sent = UserEventGlutin::UserEvent(target, event);
            &&& recipient(state, grab) == open
            &&& recipient(state, fullscreen) == open
            &&& target == Some(id) ==> recipient(state, sent) == open
            &&& target is None && state.main_window == Some(id) ==> recipient(state, sent) == open
            &&& target is None && state.main_window is None ==> recipient(state, sent) is None
            &&& user_event_call::<F, V, U>(grab) == Callback::<F, V, U>::MouseGrabStatusChanged(flag)
            &&& user_event_call::<F, V, U>(fullscreen) == Callback::<
                F,
                V,
                U,
            >::FullscreenStatusChanged(flag)
            &&& user_event_call::<F, V, U>(sent) == Callback::<F, V, U>::UserEvent(event)
        }),
{
}

/// Where a window is no longer open when its handler returns, the rest goes on as it
/// would, without its record: the kept events, and the round of drawing.
pub proof fn law_going_on_without_a_closed_window<H, F, V, U>(
    state: AppState<H, V, U>,
    window: WindowId,
    helper: WindowHelperGlutin,
    queued: Seq<AppCommand<H, V>>,
    events: Seq<UserEventGlutin<U>>,
    rest: Seq<WindowId>,
    terminate: bool,
)
    requires
        !state.windows.contains_key(window),
    ensures
        ({
            let queueing = AppState { commands: state.commands + queued, ..state };
            &&& called::<H, F, V, U>(
                state,
                window,
                helper,
                queued,
                AfterCallView::Replay(events),
            ) == replay::<H, F, V, U>(queueing, events)
            &&& frame_drawn::<H, F, V, U>(state, window, helper, queued, rest, terminate)
                == draw_windows::<H, F, V, U>(
                queueing,
                rest,
                terminate || helper.terminate_requested,
            )
        }),
{
}

} // verus!
