//! What each thing that happens to a broker changes, and what it leaves alone.

use std::sync::Arc;

use vstd::prelude::*;

use crate::dispatch::{DispatchState, ResponseItemId};
use crate::turn_host::CoreTurnHost;

verus! {

/// No cell is open.
pub open spec fn no_cell_is_open<S, E>(state: DispatchState<S, E>) -> bool {
    forall|cell: Seq<char>| !(#[trigger] state.gates.dom().contains(cell))
}

/// No cell but `cell` is open.
pub open spec fn no_other_cell_is_open<S, E>(state: DispatchState<S, E>, cell: Seq<char>) -> bool {
    forall|other: Seq<char>| #[trigger] state.gates.dom().contains(other) ==> other == cell
}

/// Every cell but `cell` is open in both states or in neither, and has the same gate in both.
pub open spec fn other_cells_agree<S, E>(
    before: DispatchState<S, E>,
    after: DispatchState<S, E>,
    cell: Seq<char>,
) -> bool {
    &&& forall|other: Seq<char>|
        other != cell ==> (#[trigger] after.gates.dom().contains(other)
            == before.gates.dom().contains(other))
    &&& forall|other: Seq<char>|
        other != cell && before.gates.dom().contains(other) ==> (#[trigger] after.gates[other])
            == before.gates[other]
}

/// A new broker has no open cell, no turn, no worker and no dispatcher, is not shut down, gives
/// its first worker the number zero, and records tool calls as it was told.
pub proof fn law_new_broker_knows_nothing<S, E>(records_tool_calls: bool)
    ensures
        no_cell_is_open(DispatchState::<S, E>::initial(records_tool_calls)),
        DispatchState::<S, E>::initial(records_tool_calls).host is None,
        DispatchState::<S, E>::initial(records_tool_calls).active_generation is None,
        DispatchState::<S, E>::initial(records_tool_calls).next_host_generation == 0,
        !DispatchState::<S, E>::initial(records_tool_calls).dispatcher_started,
        !DispatchState::<S, E>::initial(records_tool_calls).dispatcher_shutdown,
        DispatchState::<S, E>::initial(records_tool_calls).records_tool_calls
            == records_tool_calls,
{
}

/// A cell belongs to the turn that its gate holds and is ready where its gate is; a cell that is
/// not open belongs to no turn and is not ready.
pub proof fn law_cell_is_what_its_gate_says<S, E>(state: DispatchState<S, E>, cell: Seq<char>)
    ensures
        state.gates.dom().contains(cell) ==> state.host_of(cell) == state.gates[cell].host,
        state.gates.dom().contains(cell) ==> state.is_ready(cell) == state.gates[cell].ready,
        !state.gates.dom().contains(cell) ==> state.host_of(cell) is None,
        !state.gates.dom().contains(cell) ==> !state.is_ready(cell),
{
}

/// Opening a cell that is open changes nothing. A cell that is opened anew is not ready, has the
/// fresh signal, and has neither turn nor item; nothing else changes.
pub proof fn law_opening_a_cell<S, E>(state: DispatchState<S, E>, cell: Seq<char>, fresh: S)
    ensures
        state.gates.dom().contains(cell) ==> state.open_gate(cell, fresh) == state,
        !state.gates.dom().contains(cell) ==> {
            let opened = state.open_gate(cell, fresh);
            &&& opened.gates.dom().contains(cell)
            &&& !opened.gates[cell].ready
            &&& opened.gates[cell].signal == fresh
            &&& opened.gates[cell].host is None
            &&& opened.gates[cell].originating_item_id is None
            &&& other_cells_agree(state, opened, cell)
            &&& opened == DispatchState { gates: opened.gates, ..state }
        },
{
}

/// Making a cell ready leaves it open and ready, with the current turn, the given item and the
/// signal it had, or the fresh one where it was not open; nothing else changes.
pub proof fn law_making_a_cell_ready<S, E>(
    state: DispatchState<S, E>,
    cell: Seq<char>,
    item: Option<ResponseItemId>,
    fresh: S,
)
    ensures
        ({
            let marked = state.mark_ready(cell, item, fresh);
            &&& marked.gates.dom().contains(cell)
            &&& marked.gates[cell].ready
            &&& marked.gates[cell].host == state.host
            &&& marked.gates[cell].originating_item_id == item
            &&& state.gates.dom().contains(cell) ==> marked.gates[cell].signal
                == state.gates[cell].signal
            &&& !state.gates.dom().contains(cell) ==> marked.gates[cell].signal == fresh
            &&& other_cells_agree(state, marked, cell)
            &&& marked == DispatchState { gates: marked.gates, ..state }
        }),
{
}

/// Taking away what stands before a cell closes that cell and changes nothing else; the turn
/// stays even where no cell is left.
pub proof fn law_removing_a_cell<S, E>(state: DispatchState<S, E>, cell: Seq<char>)
    ensures
        ({
            let removed = state.remove_gate(cell);
            &&& !removed.gates.dom().contains(cell)
            &&& other_cells_agree(state, removed, cell)
            &&& removed == DispatchState { gates: removed.gates, ..state }
        }),
{
}

/// Closing a cell closes that cell. The turn goes exactly where no worker is at work and no other
/// cell is open; nothing else changes.
pub proof fn law_closing_a_cell<S, E>(state: DispatchState<S, E>, cell: Seq<char>)
    ensures
        ({
            let closed = state.close(cell);
            &&& !closed.gates.dom().contains(cell)
            &&& other_cells_agree(state, closed, cell)
            &&& state.active_generation is None && no_other_cell_is_open(state, cell)
                ==> closed.host is None
            &&& state.active_generation is Some || !no_other_cell_is_open(state, cell)
                ==> closed.host == state.host
            &&& closed == DispatchState { gates: closed.gates, host: closed.host, ..state }
        }),
{
    let gates = state.gates.remove(cell);
    if no_other_cell_is_open(state, cell) {
        assert(gates =~= Map::empty());
    } else {
        let other = choose|other: Seq<char>| #[trigger]
            state.gates.dom().contains(other) && other != cell;
        assert(gates.dom().contains(other));
        assert(gates != Map::<Seq<char>, crate::dispatch::CellDispatchGate<S, E>>::empty());
    }
}

/// A worker that starts brings its turn, is the one at work under the next number, and has the
/// dispatcher started; no cell changes. After a shutdown it only uses a number up.
pub proof fn law_starting_a_worker<S, E>(state: DispatchState<S, E>, host: CoreTurnHost<E>)
    ensures
        ({
            let started = state.start_worker(host);
            &&& started.gates == state.gates
            &&& started.dispatcher_shutdown == state.dispatcher_shutdown
            &&& started.records_tool_calls == state.records_tool_calls
            &&& state.next_host_generation < u64::MAX ==> started.next_host_generation
                == state.next_host_generation + 1
            &&& state.next_host_generation == u64::MAX ==> started.next_host_generation == 0
            &&& !state.dispatcher_shutdown ==> {
                &&& started.host == Some(Arc::new(host))
                &&& started.active_generation == Some(state.next_host_generation)
                &&& started.dispatcher_started
            }
            &&& state.dispatcher_shutdown ==> {
                &&& started.host == state.host
                &&& started.active_generation == state.active_generation
                &&& started.dispatcher_started == state.dispatcher_started
            }
        }),
{
}

/// The worker at work leaves nobody at work when it goes, and takes its turn along exactly where
/// no cell is open. Any other worker takes nothing along.
pub proof fn law_releasing_a_worker<S, E>(state: DispatchState<S, E>, generation: u64)
    ensures
        state.active_generation != Some(generation) ==> state.release_worker(generation) == state,
        state.active_generation == Some(generation) ==> {
            let released = state.release_worker(generation);
            &&& released.active_generation is None
            &&& no_cell_is_open(state) ==> released.host is None
            &&& !no_cell_is_open(state) ==> released.host == state.host
            &&& released == DispatchState {
                active_generation: released.active_generation,
                host: released.host,
                ..state
            }
        },
{
    if no_cell_is_open(state) {
        assert(state.gates =~= Map::empty());
    } else {
        let open = choose|open: Seq<char>| #[trigger] state.gates.dom().contains(open);
        assert(state.gates.dom().contains(open));
    }
}

/// A shutdown closes every cell and lets turn and worker go; what was counted, started and set up
/// before stays.
pub proof fn law_shutting_down<S, E>(state: DispatchState<S, E>)
    ensures
        ({
            let ended = state.shut_down();
            &&& no_cell_is_open(ended)
            &&& ended.host is None
            &&& ended.active_generation is None
            &&& ended.dispatcher_shutdown
            &&& ended.next_host_generation == state.next_host_generation
            &&& ended.dispatcher_started == state.dispatcher_started
            &&& ended.records_tool_calls == state.records_tool_calls
        }),
{
}

} // verus!
