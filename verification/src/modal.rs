//! The modal windows among the open ones.

use crate::events::WindowId;
use crate::laws::lemma_without_window;
use crate::model::{close_window, without_window, AppState};
use crate::steps::Effect;
use vstd::prelude::*;

verus! {

/// A window that is taken off the modal stack leaves those below and above it.
pub proof fn lemma_without(below: Seq<WindowId>, id: WindowId, above: Seq<WindowId>)
    requires
        !below.contains(id),
        !above.contains(id),
    ensures
        without_window(below + seq![id] + above, id) == below + above,
{
    lemma_without_window(below, id);
    lemma_without_window(above, id);
    assert(without_window(seq![id], id) == Seq::<WindowId>::empty()) by {
        reveal(Seq::filter);
        assert(seq![id].drop_last() == Seq::<WindowId>::empty());
        assert(without_window(Seq::empty(), id) == Seq::<WindowId>::empty());
    }
    lemma_without_sum(below, seq![id], id);
    lemma_without_sum(below + seq![id], above, id);
    assert(below + Seq::<WindowId>::empty() == below);
}

proof fn lemma_without_sum(first: Seq<WindowId>, second: Seq<WindowId>, id: WindowId)
    ensures
        without_window(first + second, id) == without_window(first, id) + without_window(
            second,
            id,
        ),
{
    Seq::filter_distributes_over_add(first, second, |window: WindowId| window != id);
}

proof fn lemma_absent(modal_stack: Seq<WindowId>, id: WindowId)
    requires
        !modal_stack.contains(id),
    ensures
        without_window(modal_stack, id) == modal_stack,
{
    lemma_without_window(modal_stack, id);
}

proof fn lemma_rest(
    modal_stack: Seq<WindowId>,
    id: WindowId,
    below: Seq<WindowId>,
    above: Seq<WindowId>,
)
    requires
        !below.contains(id),
        !above.contains(id),
        modal_stack == below + above || modal_stack == below + seq![id] + above,
    ensures
        without_window(modal_stack, id) == below + above,
        (below + above).len() > 0 ==> (below + above)[(below + above).len() - 1] != id,
{
    let rest = below + above;
    assert forall|i: int| 0 <= i < rest.len() implies rest[i] != id by {
        if i < below.len() {
            assert(below.contains(below[i]));
        } else {
            assert(above.contains(above[i - below.len()]));
        }
    }
    lemma_absent(rest, id);
    lemma_without(below, id, above);
}

/// Closing a window other than the main one takes it off the map and off the modal
/// stack, drops it if it was open, and brings the modal window that is on top then
/// to the front.
pub proof fn lemma_close_other<H, V, U>(
    state: AppState<H, V, U>,
    id: WindowId,
    below: Seq<WindowId>,
    above: Seq<WindowId>,
)
    requires
        state.main_window != Some(id),
        !below.contains(id),
        !above.contains(id),
        state.modal_stack == below + above || state.modal_stack == below + seq![id] + above,
    ensures
        ({
            let rest = below + above;
            let (closed, effects) = close_window(state, id);
            &&& closed.initial == state.initial
            &&& closed.windows == state.windows.remove(id)
            &&& closed.main_window == state.main_window
            &&& closed.modal_stack == rest
            &&& closed.commands == state.commands
            &&& closed.pending_user_events == state.pending_user_events
            &&& effects == (if state.windows.contains_key(id) {
                seq![Effect::DropWindow(id)]
            } else {
                seq![]
            }) + (if rest.len() > 0 && state.windows.contains_key(rest[rest.len() - 1]) {
                seq![Effect::Focus(rest[rest.len() - 1])]
            } else {
                seq![]
            })
        }),
{
    lemma_rest(state.modal_stack, id, below, above);
}

} // verus!
