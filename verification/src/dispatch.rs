//! Which turn executes what a code cell asks for.

use std::sync::Arc;

use vstd::prelude::*;

use crate::cell::{distinct_ids, lists_cell, CellId, CellMap};
use crate::turn_host::CoreTurnHost;

verus! {

/// The identity of the response item that started a cell.
#[derive(Debug)]
pub struct ResponseItemId {
    id: String,
}

impl View for ResponseItemId {
    type V = Seq<char>;

    closed spec fn view(&self) -> Seq<char> {
        self.id@
    }
}

impl ResponseItemId {
    /// The item named by `id`.
    pub fn new(id: String) -> (item_id: ResponseItemId)
        ensures
            item_id@ == id@,
    {
        ResponseItemId { id }
    }

    /// The text of the identity.
    pub fn as_str(&self) -> (text: &str)
        ensures
            text@ == self@,
    {
        self.id.as_str()
    }
}

impl Clone for ResponseItemId {
    fn clone(&self) -> (copy: ResponseItemId)
        ensures
            copy == *self,
    {
        ResponseItemId { id: self.id.clone() }
    }
}

/// Calls `std::sync::Arc::clone`.
///
/// Claims what its documentation says: the copy points to the same value.
#[verifier::external_body]
pub(crate) fn share<T>(value: &Arc<T>) -> (copy: Arc<T>)
    ensures
        copy == *value,
{
    Arc::clone(value)
}

/// What stands between a cell and its execution: whether the cell is ready, the signal that is
/// raised once it is, the turn that the cell belongs to, and the item that started the cell.
#[derive(Debug)]
pub struct CellDispatchGate<S, E> {
    pub ready: bool,
    pub signal: S,
    pub host: Option<Arc<CoreTurnHost<E>>>,
    pub originating_item_id: Option<ResponseItemId>,
}

/// What a broker knows.
#[verifier::ext_equal]
pub struct DispatchState<S, E> {
    /// Each open cell and its gate.
    pub gates: Map<Seq<char>, CellDispatchGate<S, E>>,
    /// The turn that cells belong to once they get ready.
    pub host: Option<Arc<CoreTurnHost<E>>>,
    /// The worker that is at work.
    pub active_generation: Option<u64>,
    /// The number that the next worker gets.
    pub next_host_generation: u64,
    pub dispatcher_started: bool,
    pub dispatcher_shutdown: bool,
    /// Whether executed tool calls are recorded.
    pub records_tool_calls: bool,
}

impl<S, E> DispatchState<S, E> {
    /// Nothing has happened yet.
    pub open spec fn initial(records_tool_calls: bool) -> DispatchState<S, E> {
        DispatchState {
            gates: Map::empty(),
            host: None,
            active_generation: None,
            next_host_generation: 0,
            dispatcher_started: false,
            dispatcher_shutdown: false,
            records_tool_calls,
        }
    }

    /// A worker at work has a turn, and after a shutdown there is neither.
    pub open spec fn valid(self) -> bool {
        &&& self.active_generation is Some ==> self.host is Some
        &&& self.dispatcher_shutdown ==> self.host is None && self.active_generation is None
    }

    /// `cell` has a gate; one that is made for it has the signal `fresh` and is not ready.
    pub open spec fn open_gate(self, cell: Seq<char>, fresh: S) -> DispatchState<S, E> {
        if self.gates.dom().contains(cell) {
            self
        } else {
            DispatchState {
                gates: self.gates.insert(
                    cell,
                    CellDispatchGate {
                        ready: false,
                        signal: fresh,
                        host: None,
                        originating_item_id: None,
                    },
                ),
                ..self
            }
        }
    }

    /// `cell` is ready, belongs to the current turn and was started by `item`.
    pub open spec fn mark_ready(
        self,
        cell: Seq<char>,
        item: Option<ResponseItemId>,
        fresh: S,
    ) -> DispatchState<S, E> {
        let opened = self.open_gate(cell, fresh);
        DispatchState {
            gates: opened.gates.insert(
                cell,
                CellDispatchGate {
                    ready: true,
                    signal: opened.gates[cell].signal,
                    host: self.host,
                    originating_item_id: item,
                },
            ),
            ..self
        }
    }

    /// `cell` has no gate.
    pub open spec fn remove_gate(self, cell: Seq<char>) -> DispatchState<S, E> {
        DispatchState { gates: self.gates.remove(cell), ..self }
    }

    /// `cell` has no gate, and a turn without worker and open cell is gone.
    pub open spec fn close(self, cell: Seq<char>) -> DispatchState<S, E> {
        let gates = self.gates.remove(cell);
        DispatchState {
            gates,
            host: if gates == Map::<Seq<char>, CellDispatchGate<S, E>>::empty()
                && self.active_generation is None {
                None
            } else {
                self.host
            },
            ..self
        }
    }

    /// A new worker has its number and, unless the broker is shut down, brings its turn.
    pub open spec fn start_worker(self, host: CoreTurnHost<E>) -> DispatchState<S, E> {
        let numbered = DispatchState {
            next_host_generation: next_generation(self.next_host_generation),
            ..self
        };
        if self.dispatcher_shutdown {
            numbered
        } else {
            DispatchState {
                host: Some(Arc::new(host)),
                active_generation: Some(self.next_host_generation),
                dispatcher_started: true,
                ..numbered
            }
        }
    }

    /// The worker `generation` is gone; where it was at work, its turn goes too unless a cell
    /// is open.
    pub open spec fn release_worker(self, generation: u64) -> DispatchState<S, E> {
        if self.active_generation == Some(generation) {
            DispatchState {
                active_generation: None,
                host: if self.gates == Map::<Seq<char>, CellDispatchGate<S, E>>::empty() {
                    None
                } else {
                    self.host
                },
                ..self
            }
        } else {
            self
        }
    }

    /// Nothing is dispatched any more.
    pub open spec fn shut_down(self) -> DispatchState<S, E> {
        DispatchState {
            gates: Map::empty(),
            host: None,
            active_generation: None,
            dispatcher_shutdown: true,
            ..self
        }
    }

    /// `cell` is open and ready.
    pub open spec fn is_ready(self, cell: Seq<char>) -> bool {
        self.gates.dom().contains(cell) && self.gates[cell].ready
    }

    /// The turn that `cell` belongs to.
    pub open spec fn host_of(self, cell: Seq<char>) -> Option<Arc<CoreTurnHost<E>>> {
        if self.gates.dom().contains(cell) {
            self.gates[cell].host
        } else {
            None
        }
    }
}

/// The number after `generation`.
pub open spec fn next_generation(generation: u64) -> u64 {
    if generation == u64::MAX {
        0
    } else {
        (generation + 1) as u64
    }
}

/// The worker of one turn.
#[derive(Debug, PartialEq, Eq)]
pub struct CodeModeDispatchWorker {
    pub generation: u64,
}

/// A worker that was started, and whether the dispatcher is to be started with it.
#[derive(Debug, PartialEq, Eq)]
pub struct StartedWorker {
    pub worker: CodeModeDispatchWorker,
    pub start_dispatcher: bool,
}

/// Decides which turn executes what a cell asks for. `S` signals that a cell is ready, and `E`
/// is what a turn executes tools with.
#[verifier::reject_recursive_types(S)]
#[verifier::reject_recursive_types(E)]
pub struct CodeModeDispatchBroker<S, E> {
    gates: CellMap<CellDispatchGate<S, E>>,
    host: Option<Arc<CoreTurnHost<E>>>,
    active_generation: Option<u64>,
    next_host_generation: u64,
    dispatcher_started: bool,
    dispatcher_shutdown: bool,
    records_tool_calls: bool,
}

impl<S, E> View for CodeModeDispatchBroker<S, E> {
    type V = DispatchState<S, E>;

    closed spec fn view(&self) -> DispatchState<S, E> {
        DispatchState {
            gates: self.gates@,
            host: self.host,
            active_generation: self.active_generation,
            next_host_generation: self.next_host_generation,
            dispatcher_started: self.dispatcher_started,
            dispatcher_shutdown: self.dispatcher_shutdown,
            records_tool_calls: self.records_tool_calls,
        }
    }
}

impl<S, E> CodeModeDispatchBroker<S, E> {
    /// No cell has two gates, and the state is valid.
    pub closed spec fn wf(&self) -> bool {
        self.gates.wf() && self@.valid()
    }

    /// What a well-formed broker knows is valid.
    pub proof fn lemma_valid(&self)
        requires
            self.wf(),
        ensures
            self@.valid(),
    {
    }

    /// A broker without turn and cells.
    pub fn new(records_tool_calls: bool) -> (broker: CodeModeDispatchBroker<S, E>)
        ensures
            broker.wf(),
            broker@ == DispatchState::<S, E>::initial(records_tool_calls),
    {
        CodeModeDispatchBroker {
            gates: CellMap::new(),
            host: None,
            active_generation: None,
            next_host_generation: 0,
            dispatcher_started: false,
            dispatcher_shutdown: false,
            records_tool_calls,
        }
    }

    /// Makes a cell ready, binds it to the current turn and to the item that started it, and
    /// returns the signal that the caller is to raise: that of the cell's gate, which is `fresh`
    /// where the cell had no gate before.
    pub fn mark_cell_ready_for_dispatch(
        &mut self,
        cell_id: &CellId,
        originating_item_id: Option<ResponseItemId>,
        fresh: S,
    ) -> (raised: &S)
        requires
            old(self).wf(),
        ensures
            final(self).wf(),
            final(self)@ == old(self)@.mark_ready(cell_id@, originating_item_id, fresh),
            *raised == final(self)@.gates[cell_id@].signal,
    {
        let host: Option<Arc<CoreTurnHost<E>>> = match &self.host {
            Some(host) => Some(share(host)),
            None => None,
        };
        let gate: &mut CellDispatchGate<S, E> = self.gates.entry_or_insert(
            cell_id,
            CellDispatchGate {
                ready: false,
                signal: fresh,
                host: None,
                originating_item_id: None,
            },
        );
        gate.ready = true;
        gate.host = host;
        gate.originating_item_id = originating_item_id;
        &gate.signal
    }

    /// Makes sure that a cell has a gate, one with the signal `fresh` that is not ready where it
    /// had none, and returns its signal.
    pub fn dispatch_gate(&mut self, cell_id: &CellId, fresh: S) -> (signal: &S)
        requires
            old(self).wf(),
        ensures
            final(self).wf(),
            final(self)@ == old(self)@.open_gate(cell_id@, fresh),
            *signal == final(self)@.gates[cell_id@].signal,
    {
        proof {
            let before = self@;
            if before.gates.dom().contains(cell_id@) {
                assert(before.gates.insert(cell_id@, before.gates[cell_id@]) =~= before.gates);
            }
        }
        let gate: &mut CellDispatchGate<S, E> = self.gates.entry_or_insert(
            cell_id,
            CellDispatchGate {
                ready: false,
                signal: fresh,
                host: None,
                originating_item_id: None,
            },
        );
        &gate.signal
    }

    /// The signal that is raised once a cell is ready, where the cell has a gate.
    pub fn ready_signal(&self, cell_id: &CellId) -> (signal: Option<&S>)
        requires
            self.wf(),
        ensures
            match signal {
                Some(found) => self@.gates.dom().contains(cell_id@) && *found
                    == self@.gates[cell_id@].signal,
                None => !self@.gates.dom().contains(cell_id@),
            },
    {
        match self.gates.get(cell_id) {
            Some(gate) => Some(&gate.signal),
            None => None,
        }
    }

    /// Whether a cell is open and ready.
    pub fn cell_is_ready(&self, cell_id: &CellId) -> (ready: bool)
        requires
            self.wf(),
        ensures
            ready == self@.is_ready(cell_id@),
    {
        match self.gates.get(cell_id) {
            Some(gate) => gate.ready,
            None => false,
        }
    }

    /// The item that started a cell, where the cell is open and the item is known.
    pub fn cell_originating_item_id(&self, cell_id: &CellId) -> (item: Option<ResponseItemId>)
        requires
            self.wf(),
        ensures
            item == (if self@.gates.dom().contains(cell_id@) {
                self@.gates[cell_id@].originating_item_id
            } else {
                None
            }),
    {
        match self.gates.get(cell_id) {
            Some(gate) => match &gate.originating_item_id {
                Some(item) => Some(item.clone()),
                None => None,
            },
            None => None,
        }
    }

    /// The turn that a cell belongs to, where the cell is open and got ready in a turn.
    pub fn dispatch_host(&self, cell_id: &CellId) -> (host: Option<Arc<CoreTurnHost<E>>>)
        requires
            self.wf(),
        ensures
            host == self@.host_of(cell_id@),
    {
        match self.gates.get(cell_id) {
            Some(gate) => match &gate.host {
                Some(host) => Some(share(host)),
                None => None,
            },
            None => None,
        }
    }

    /// Takes the dispatch gate of a cell away and leaves everything else alone.
    pub fn remove_dispatch_gate(&mut self, cell_id: &CellId)
        requires
            old(self).wf(),
        ensures
            final(self).wf(),
            final(self)@ == old(self)@.remove_gate(cell_id@),
    {
        self.gates.remove(cell_id);
    }

    /// Whether a cell is open.
    pub fn has_gate(&self, cell_id: &CellId) -> (open: bool)
        requires
            self.wf(),
        ensures
            open == self@.gates.dom().contains(cell_id@),
    {
        self.gates.contains_key(cell_id)
    }

    /// Closes a cell. A turn without worker and open cell is let go. Returns whether the
    /// recording of the cell's tool calls is to be finished.
    pub fn close_cell(&mut self, cell_id: &CellId) -> (finish_recording: bool)
        requires
            old(self).wf(),
        ensures
            final(self).wf(),
            final(self)@ == old(self)@.close(cell_id@),
            finish_recording == old(self)@.records_tool_calls,
    {
        self.gates.remove(cell_id);
        if self.gates.is_empty() && self.active_generation.is_none() {
            self.host = None;
        }
        assert(self@ =~= old(self)@.close(cell_id@));
        self.records_tool_calls
    }

    /// The open cells, each once, in no particular order.
    pub fn active_cell_ids(&self) -> (cells: Vec<CellId>)
        requires
            self.wf(),
        ensures
            distinct_ids(cells@),
            forall|cell: Seq<char>| #[trigger]
                self@.gates.dom().contains(cell) <==> lists_cell(cells@, cell),
    {
        self.gates.keys()
    }

    /// Starts the worker of a turn. Unless the broker is shut down, the turn becomes the one
    /// that cells belong to from now on, and the first such worker brings the dispatcher.
    pub fn start_turn_worker(
        &mut self,
        executor: E,
        track_completeness: bool,
    ) -> (started: StartedWorker)
        requires
            old(self).wf(),
        ensures
            final(self).wf(),
            final(self)@ == old(self)@.start_worker(
                (CoreTurnHost { executor, track_completeness }),
            ),
            started.worker.generation == old(self)@.next_host_generation,
            started.start_dispatcher == (!old(self)@.dispatcher_shutdown && !old(
                self,
            )@.dispatcher_started),
    {
        let host = CoreTurnHost { executor, track_completeness };
        let generation: u64 = self.next_host_generation;
        self.next_host_generation = if generation == u64::MAX {
            0
        } else {
            generation + 1
        };
        let mut start_dispatcher: bool = false;
        if !self.dispatcher_shutdown {
            self.host = Some(Arc::new(host));
            self.active_generation = Some(generation);
            start_dispatcher = !self.dispatcher_started;
            self.dispatcher_started = true;
        }
        StartedWorker { worker: CodeModeDispatchWorker { generation }, start_dispatcher }
    }

    /// Lets a worker go. Where it was the one at work, nobody is, and its turn is let go too
    /// unless a cell is open.
    pub fn release_worker(&mut self, worker: &CodeModeDispatchWorker)
        requires
            old(self).wf(),
        ensures
            final(self).wf(),
            final(self)@ == old(self)@.release_worker(worker.generation),
    {
        let at_work: bool = match self.active_generation {
            Some(generation) => generation == worker.generation,
            None => false,
        };
        if at_work {
            self.active_generation = None;
            if self.gates.is_empty() {
                self.host = None;
            }
        }
        assert(self@ =~= old(self)@.release_worker(worker.generation));
    }

    /// Shuts the broker down for good.
    pub fn shutdown(&mut self)
        requires
            old(self).wf(),
        ensures
            final(self).wf(),
            final(self)@ == old(self)@.shut_down(),
    {
        self.dispatcher_shutdown = true;
        self.gates.clear();
        self.host = None;
        self.active_generation = None;
    }
}

/// The message that the dispatcher handles next: the one it received, unless it is shut down or
/// nothing can come any more.
pub fn next_message<M>(shut_down: bool, received: Option<M>) -> (message: Option<M>)
    ensures
        message == (if shut_down {
            None
        } else {
            received
        }),
{
    if shut_down {
        None
    } else {
        received
    }
}

} // verus!
