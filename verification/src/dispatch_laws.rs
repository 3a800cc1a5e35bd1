//! What holds of turns, cells and their messages across everything that happens.

use std::sync::Arc;

use vstd::prelude::*;

use crate::dispatch::{next_generation, CellDispatchGate, DispatchState, ResponseItemId};
use crate::dispatch_request::{end_message, DispatchRequest, RequestEnd, RequestEvent};
use crate::dispatch_task::{found_ready, DispatchEvent, DispatchKind, DispatchStage};
use crate::turn_host::CoreTurnHost;

verus! {

/// Something that happens to a broker.
pub enum DispatchOperation<S, E> {
    OpenGate { cell: Seq<char>, fresh: S },
    MarkReady { cell: Seq<char>, item: Option<ResponseItemId>, fresh: S },
    RemoveGate { cell: Seq<char> },
    Close { cell: Seq<char> },
    StartWorker { host: CoreTurnHost<E> },
    ReleaseWorker { generation: u64 },
    ShutDown,
}

/// The state after an operation.
pub open spec fn apply<S, E>(
    state: DispatchState<S, E>,
    operation: DispatchOperation<S, E>,
) -> DispatchState<S, E> {
    match operation {
        DispatchOperation::OpenGate { cell, fresh } => state.open_gate(cell, fresh),
        DispatchOperation::MarkReady { cell, item, fresh } => state.mark_ready(cell, item, fresh),
        DispatchOperation::RemoveGate { cell } => state.remove_gate(cell),
        DispatchOperation::Close { cell } => state.close(cell),
        DispatchOperation::StartWorker { host } => state.start_worker(host),
        DispatchOperation::ReleaseWorker { generation } => state.release_worker(generation),
        DispatchOperation::ShutDown => state.shut_down(),
    }
}

/// The state after a run of operations.
pub open spec fn apply_all<S, E>(
    state: DispatchState<S, E>,
    operations: Seq<DispatchOperation<S, E>>,
) -> DispatchState<S, E>
    decreases operations.len(),
{
    if operations.len() == 0 {
        state
    } else {
        apply(apply_all(state, operations.drop_last()), operations.last())
    }
}

/// The operation neither rebinds `cell` nor takes its gate away.
pub open spec fn spares<S, E>(operation: DispatchOperation<S, E>, cell: Seq<char>) -> bool {
    match operation {
        DispatchOperation::MarkReady { cell: marked, .. } => marked != cell,
        DispatchOperation::RemoveGate { cell: removed } => removed != cell,
        DispatchOperation::Close { cell: closed } => closed != cell,
        DispatchOperation::ShutDown => false,
        _ => true,
    }
}

/// Every state that a new broker can come to is valid: a worker at work has a turn, and after a
/// shutdown there is neither.
pub proof fn law_reachable_states_are_valid<S, E>(
    records_tool_calls: bool,
    operations: Seq<DispatchOperation<S, E>>,
)
    ensures
        apply_all(DispatchState::<S, E>::initial(records_tool_calls), operations).valid(),
    decreases operations.len(),
{
    if operations.len() > 0 {
        law_reachable_states_are_valid(records_tool_calls, operations.drop_last());
    }
}

/// A cell that gets ready is ready, and belongs to the turn that is current then and to the item
/// it was started by, whatever it belonged to before.
pub proof fn law_ready_cell_belongs_to_the_current_turn<S, E>(
    state: DispatchState<S, E>,
    cell: Seq<char>,
    item: Option<ResponseItemId>,
    fresh: S,
)
    ensures
        state.mark_ready(cell, item, fresh).is_ready(cell),
        state.mark_ready(cell, item, fresh).host_of(cell) == state.host,
        state.mark_ready(cell, item, fresh).gates[cell].originating_item_id == item,
{
}

/// An open cell keeps its turn, its item, its signal and whether it is ready through anything
/// that neither rebinds nor closes it: other turns coming and going, other cells, and waits for
/// the cell itself.
pub proof fn law_open_cell_keeps_its_turn<S, E>(
    state: DispatchState<S, E>,
    cell: Seq<char>,
    operations: Seq<DispatchOperation<S, E>>,
)
    requires
        state.gates.dom().contains(cell),
        forall|i: int| 0 <= i < operations.len() ==> spares(#[trigger] operations[i], cell),
    ensures
        apply_all(state, operations).gates.dom().contains(cell),
        apply_all(state, operations).gates[cell] == state.gates[cell],
        apply_all(state, operations).host_of(cell) == state.host_of(cell),
        apply_all(state, operations).is_ready(cell) == state.is_ready(cell),
    decreases operations.len(),
{
    if operations.len() > 0 {
        let before = operations.drop_last();
        assert forall|i: int| 0 <= i < before.len() implies spares(
            #[trigger] before[i],
            cell,
        ) by {
            assert(before[i] == operations[i]);
        }
        law_open_cell_keeps_its_turn(state, cell, before);
        assert(spares(operations[operations.len() - 1], cell));
    }
}

/// A cell that got ready in one turn is dispatched to that turn even after the turn's worker is
/// gone and the worker of another turn has taken over.
pub proof fn law_yielded_cell_outlives_its_worker<S, E>(
    state: DispatchState<S, E>,
    first: CoreTurnHost<E>,
    second: CoreTurnHost<E>,
    cell: Seq<char>,
    item: Option<ResponseItemId>,
    fresh: S,
)
    requires
        !state.dispatcher_shutdown,
    ensures
        state.start_worker(first).mark_ready(cell, item, fresh).release_worker(
            state.next_host_generation,
        ).start_worker(second).host_of(cell) == Some(Arc::new(first)),
        state.start_worker(first).mark_ready(cell, item, fresh).release_worker(
            state.next_host_generation,
        ).start_worker(second).host == Some(Arc::new(second)),
{
}

/// A closed cell is gone, and no other cell is touched.
pub proof fn law_closed_cell_is_gone<S, E>(
    state: DispatchState<S, E>,
    cell: Seq<char>,
    other: Seq<char>,
)
    requires
        other != cell,
    ensures
        !state.close(cell).gates.dom().contains(cell),
        state.close(cell).host_of(cell) is None,
        state.close(cell).gates.dom().contains(other) == state.gates.dom().contains(other),
        state.close(cell).host_of(other) == state.host_of(other),
{
}

/// Closing undoes getting ready: the open cells are those from before.
pub proof fn law_close_undoes_ready<S, E>(
    state: DispatchState<S, E>,
    cell: Seq<char>,
    item: Option<ResponseItemId>,
    fresh: S,
)
    requires
        !state.gates.dom().contains(cell),
    ensures
        state.mark_ready(cell, item, fresh).close(cell).gates == state.gates,
{
    assert(state.mark_ready(cell, item, fresh).close(cell).gates =~= state.gates);
}

/// Without a worker, the last cell that closes lets the turn go.
pub proof fn law_last_closed_cell_releases_the_turn<S, E>(
    state: DispatchState<S, E>,
    cell: Seq<char>,
)
    requires
        state.active_generation is None,
        forall|open: Seq<char>| #[trigger] state.gates.dom().contains(open) ==> open == cell,
    ensures
        state.close(cell).host is None,
{
    assert(state.gates.remove(cell) =~= Map::<Seq<char>, CellDispatchGate<S, E>>::empty());
}

/// How many of the operations start a worker.
pub open spec fn workers_started<S, E>(operations: Seq<DispatchOperation<S, E>>) -> nat
    decreases operations.len(),
{
    if operations.len() == 0 {
        0
    } else {
        workers_started(operations.drop_last()) + if operations.last() is StartWorker {
            1nat
        } else {
            0nat
        }
    }
}

/// Workers are numbered in the order in which they start, from zero on; the number starts over
/// once it has reached its maximum.
pub proof fn law_workers_are_numbered_in_order<S, E>(
    records_tool_calls: bool,
    operations: Seq<DispatchOperation<S, E>>,
)
    ensures
        ({
            let state = apply_all(DispatchState::<S, E>::initial(records_tool_calls), operations);
            &&& state.next_host_generation == workers_started(operations)
                % 0x1_0000_0000_0000_0000nat
            &&& workers_started(operations) <= u64::MAX ==> state.next_host_generation
                == workers_started(operations)
        }),
    decreases operations.len(),
{
    if operations.len() > 0 {
        law_workers_are_numbered_in_order(records_tool_calls, operations.drop_last());
    }
}

/// How many workers start from one operation up to another.
proof fn lemma_workers_between<S, E>(
    operations: Seq<DispatchOperation<S, E>>,
    i: int,
    j: int,
)
    requires
        0 <= i < j <= operations.len(),
        operations[i] is StartWorker,
    ensures
        workers_started(operations.take(i)) < workers_started(operations.take(j)),
    decreases j,
{
    assert(operations.take(j).drop_last() =~= operations.take(j - 1));
    assert(operations.take(j).last() == operations[j - 1]);
    if i < j - 1 {
        lemma_workers_between(operations, i, j - 1);
    }
}

/// No two workers share a number until the number has started over.
pub proof fn law_workers_have_their_own_numbers<S, E>(
    records_tool_calls: bool,
    operations: Seq<DispatchOperation<S, E>>,
    i: int,
    j: int,
)
    requires
        0 <= i < j < operations.len(),
        operations[i] is StartWorker,
        operations[j] is StartWorker,
    ensures
        ({
            let initial = DispatchState::<S, E>::initial(records_tool_calls);
            let one = apply_all(initial, operations.take(i)).next_host_generation;
            let other = apply_all(initial, operations.take(j)).next_host_generation;
            let started = workers_started(operations.take(j)) - workers_started(
                operations.take(i),
            );
            &&& started > 0
            &&& one == other <==> started % 0x1_0000_0000_0000_0000int == 0
            &&& started <= u64::MAX ==> one != other
        }),
{
    law_workers_are_numbered_in_order(records_tool_calls, operations.take(i));
    law_workers_are_numbered_in_order(records_tool_calls, operations.take(j));
    lemma_workers_between(operations, i, j);
}

/// A worker that is replaced takes nothing with it when it goes.
pub proof fn law_replaced_worker_takes_nothing<S, E>(
    state: DispatchState<S, E>,
    first: CoreTurnHost<E>,
    second: CoreTurnHost<E>,
)
    requires
        state.valid(),
    ensures
        state.start_worker(first).start_worker(second).release_worker(state.next_host_generation)
            == state.start_worker(first).start_worker(second),
{
    assert(next_generation(state.next_host_generation) != state.next_host_generation);
}

/// A shutdown is final: whatever happens after it, there is no turn and no worker, every cell
/// that opens belongs to no turn, and no dispatcher starts.
pub proof fn law_shutdown_is_final<S, E>(
    state: DispatchState<S, E>,
    operations: Seq<DispatchOperation<S, E>>,
)
    ensures
        apply_all(state.shut_down(), operations).dispatcher_shutdown,
        apply_all(state.shut_down(), operations).host is None,
        apply_all(state.shut_down(), operations).active_generation is None,
        apply_all(state.shut_down(), operations).dispatcher_started == state.dispatcher_started,
        forall|cell: Seq<char>|
            (#[trigger] apply_all(state.shut_down(), operations).host_of(cell)) is None,
    decreases operations.len(),
{
    if operations.len() > 0 {
        law_shutdown_is_final(state, operations.drop_last());
        let before = apply_all(state.shut_down(), operations.drop_last());
        let after = apply_all(state.shut_down(), operations);
        assert forall|cell: Seq<char>| (#[trigger] after.host_of(cell)) is None by {
            assert(before.host_of(cell) is None);
        }
    }
}

/// The dispatcher starts once: once started it stays so.
pub proof fn law_dispatcher_stays_started<S, E>(
    state: DispatchState<S, E>,
    operations: Seq<DispatchOperation<S, E>>,
)
    requires
        state.dispatcher_started,
    ensures
        apply_all(state, operations).dispatcher_started,
    decreases operations.len(),
{
    if operations.len() > 0 {
        law_dispatcher_stays_started(state, operations.drop_last());
    }
}

/// A message touches no other gate than that of its cell, and nothing of the turns.
pub proof fn law_message_touches_its_own_gate<S, E, R>(
    stage: DispatchStage<E, R>,
    kind: DispatchKind,
    cell: Seq<char>,
    state: DispatchState<S, E>,
    event: DispatchEvent<S, R>,
    other: Seq<char>,
)
    requires
        other != cell,
    ensures
        ({
            let after = stage.next(kind, cell, state, event).1;
            &&& after.gates.dom().contains(other) == state.gates.dom().contains(other)
            &&& after.host_of(other) == state.host_of(other)
            &&& after == DispatchState { gates: after.gates, ..state }
        }),
{
}

/// Where a message of `kind` from `cell` stands after a run of events, each with the state that
/// the broker was in by then.
pub open spec fn message_run<S, E, R>(
    kind: DispatchKind,
    cell: Seq<char>,
    steps: Seq<(DispatchState<S, E>, DispatchEvent<S, R>)>,
) -> DispatchStage<E, R>
    decreases steps.len(),
{
    if steps.len() == 0 {
        DispatchStage::Begin
    } else {
        message_run(kind, cell, steps.drop_last()).next(
            kind,
            cell,
            steps.last().0,
            steps.last().1,
        ).0
    }
}

/// A notification is never dropped: it ends only with an answer. It is submitted to nobody as a
/// tool call either.
pub proof fn law_notification_is_never_dropped<S, E, R>(
    cell: Seq<char>,
    steps: Seq<(DispatchState<S, E>, DispatchEvent<S, R>)>,
)
    ensures
        ({
            let stage = message_run(DispatchKind::Notify, cell, steps);
            !(stage is Dropped) && !(stage is Admit) && !(stage is Submit)
        }),
    decreases steps.len(),
{
    if steps.len() > 0 {
        law_notification_is_never_dropped(cell, steps.drop_last());
    }
}

/// How far a message has come.
pub open spec fn progress<E, R>(stage: DispatchStage<E, R>) -> int {
    match stage {
        DispatchStage::Begin => 0,
        DispatchStage::ReadSignal => 1,
        DispatchStage::AwaitSignal => 1,
        DispatchStage::Notify(_) => 2,
        DispatchStage::Admit(_) => 2,
        DispatchStage::Submit(_) => 3,
        DispatchStage::Reply(_) => 4,
        DispatchStage::Answered => 5,
        DispatchStage::Dropped => 5,
    }
}

/// A message never goes back. From the submission on no later stage leads to another
/// submission, a turn that a message was given to stays the same as long as the message is
/// with it, and a message that was answered or dropped stays so.
pub proof fn law_message_never_goes_back<S, E, R>(
    kind: DispatchKind,
    cell: Seq<char>,
    steps: Seq<(DispatchState<S, E>, DispatchEvent<S, R>)>,
    i: int,
    j: int,
)
    requires
        0 <= i <= j <= steps.len(),
    ensures
        ({
            let earlier = message_run(kind, cell, steps.take(i));
            let later = message_run(kind, cell, steps.take(j));
            &&& progress(earlier) <= progress(later)
            &&& progress(earlier) >= 2 && progress(earlier) == progress(later) ==> earlier == later
            &&& earlier is Submit || earlier is Reply || earlier is Answered || earlier is Dropped
                ==> !(later is Admit)
            &&& earlier is Reply || earlier is Answered || earlier is Dropped ==> !(
            later is Submit)
        }),
    decreases j,
{
    if i < j {
        law_message_never_goes_back(kind, cell, steps, i, j - 1);
        assert(steps.take(j).drop_last() =~= steps.take(j - 1));
    }
}

/// At step `i` the message is submitted to a turn.
pub open spec fn submitted_at<S, E, R>(
    kind: DispatchKind,
    cell: Seq<char>,
    steps: Seq<(DispatchState<S, E>, DispatchEvent<S, R>)>,
    i: int,
) -> bool {
    &&& 0 <= i < steps.len()
    &&& !(message_run(kind, cell, steps.take(i)) is Submit)
    &&& message_run(kind, cell, steps.take(i + 1)) is Submit
}

/// A message is submitted at most once: a tool call is never replayed.
pub proof fn law_tool_call_is_submitted_once<S, E, R>(
    kind: DispatchKind,
    cell: Seq<char>,
    steps: Seq<(DispatchState<S, E>, DispatchEvent<S, R>)>,
    i: int,
    j: int,
)
    requires
        submitted_at(kind, cell, steps, i),
        submitted_at(kind, cell, steps, j),
    ensures
        i == j,
{
    if i < j {
        law_message_never_goes_back(kind, cell, steps, i + 1, j);
        law_message_never_goes_back(kind, cell, steps, j, j + 1);
    } else if j < i {
        law_message_never_goes_back(kind, cell, steps, j + 1, i);
        law_message_never_goes_back(kind, cell, steps, i, i + 1);
    }
}

/// At step `i` the message found its cell ready while `cell` belonged to `turn`.
pub open spec fn ready_in_turn<S, E, R>(
    steps: Seq<(DispatchState<S, E>, DispatchEvent<S, R>)>,
    cell: Seq<char>,
    turn: Arc<CoreTurnHost<E>>,
    i: int,
) -> bool {
    &&& 0 <= i < steps.len()
    &&& steps[i].1 matches DispatchEvent::SignalRead { lost } && found_ready(
        steps[i].0,
        cell,
        lost,
    )
    &&& steps[i].0.host_of(cell) == Some(turn)
}

/// The turn that a message is given to, where it is given to one.
pub open spec fn turn_of_stage<E, R>(stage: DispatchStage<E, R>) -> Option<Arc<CoreTurnHost<E>>> {
    match stage {
        DispatchStage::Notify(turn) => Some(turn),
        DispatchStage::Admit(turn) => Some(turn),
        DispatchStage::Submit(turn) => Some(turn),
        _ => None,
    }
}

/// A message reaches a turn only once its cell is ready, and reaches the turn that the cell
/// belonged to then, whatever turn is current.
pub proof fn law_message_reaches_the_turn_of_its_cell<S, E, R>(
    kind: DispatchKind,
    cell: Seq<char>,
    steps: Seq<(DispatchState<S, E>, DispatchEvent<S, R>)>,
)
    ensures
        turn_of_stage(message_run(kind, cell, steps)) matches Some(turn) ==> exists|i: int|
            ready_in_turn(steps, cell, turn, i),
    decreases steps.len(),
{
    if steps.len() > 0 {
        let before = steps.drop_last();
        law_message_reaches_the_turn_of_its_cell(kind, cell, before);
        if let Some(turn) = turn_of_stage(message_run(kind, cell, steps)) {
            let last = steps.len() - 1;
            assert(steps[last] == steps.last());
            if turn_of_stage(message_run(kind, cell, before)) == Some(turn) {
                let i = choose|i: int| ready_in_turn(before, cell, turn, i);
                assert(ready_in_turn(before, cell, turn, i));
                assert(before[i] == steps[i]);
                assert(ready_in_turn(steps, cell, turn, i));
            } else {
                assert(ready_in_turn(steps, cell, turn, last));
            }
        }
    }
}

/// Whatever happens between, as long as the cell is neither rebound nor closed, a message from a
/// cell that got ready in a turn is given to that turn without waiting.
pub proof fn law_yielded_cell_is_dispatched_to_its_turn<S, E, R>(
    state: DispatchState<S, E>,
    turn: Arc<CoreTurnHost<E>>,
    cell: Seq<char>,
    item: Option<ResponseItemId>,
    fresh: S,
    operations: Seq<DispatchOperation<S, E>>,
    kind: DispatchKind,
    spare: S,
)
    requires
        state.host == Some(turn),
        forall|i: int| 0 <= i < operations.len() ==> spares(#[trigger] operations[i], cell),
    ensures
        ({
            let (stage, begun) = DispatchStage::<E, R>::Begin.next(
                kind,
                cell,
                apply_all(state.mark_ready(cell, item, fresh), operations),
                DispatchEvent::Checked { cancelled: false, fresh: spare },
            );
            stage.next(kind, cell, begun, DispatchEvent::SignalRead { lost: None }).0
        }) == (match kind {
            DispatchKind::Notify => DispatchStage::<E, R>::Notify(turn),
            DispatchKind::InvokeTool => DispatchStage::<E, R>::Admit(turn),
        }),
{
    law_open_cell_keeps_its_turn(state.mark_ready(cell, item, fresh), cell, operations);
}

/// A message from a cell that has no gate yet makes one that is not ready and belongs to no turn,
/// and waits, through anything that neither makes the cell ready nor closes it.
pub proof fn law_message_waits_for_an_unready_cell<S, E, R>(
    state: DispatchState<S, E>,
    cell: Seq<char>,
    fresh: S,
    operations: Seq<DispatchOperation<S, E>>,
    kind: DispatchKind,
)
    requires
        !state.gates.dom().contains(cell),
        forall|i: int| 0 <= i < operations.len() ==> spares(#[trigger] operations[i], cell),
    ensures
        ({
            let (stage, begun) = DispatchStage::<E, R>::Begin.next(
                kind,
                cell,
                state,
                DispatchEvent::Checked { cancelled: false, fresh },
            );
            let later = apply_all(begun, operations);
            &&& begun.gates.dom().contains(cell)
            &&& !begun.is_ready(cell)
            &&& begun.host_of(cell) is None
            &&& stage.next(kind, cell, later, DispatchEvent::SignalRead { lost: None })
                == (DispatchStage::<E, R>::AwaitSignal, later)
        }),
{
    law_open_cell_keeps_its_turn(state.open_gate(cell, fresh), cell, operations);
}

/// A turn that tracks completeness takes no tool call from a closed cell and none that was
/// cancelled; such a call gets no answer.
pub proof fn law_late_tool_call_is_dropped<S, E, R>(
    turn: Arc<CoreTurnHost<E>>,
    cell: Seq<char>,
    state: DispatchState<S, E>,
    cancelled: bool,
)
    requires
        turn.track_completeness,
        cancelled || !state.gates.dom().contains(cell),
    ensures
        DispatchStage::<E, R>::Admit(turn).next(
            DispatchKind::InvokeTool,
            cell,
            state,
            DispatchEvent::AdmissionChecked { cancelled },
        ).0 == DispatchStage::<E, R>::Dropped,
{
}

/// Where a request stands after a run of events.
pub open spec fn request_run<R>(
    request: DispatchRequest<R>,
    events: Seq<RequestEvent<R>>,
) -> DispatchRequest<R>
    decreases events.len(),
{
    if events.len() == 0 {
        request
    } else {
        request_run(request, events.drop_last()).next(events.last())
    }
}

/// A request that was cancelled before it was sent is never sent, and is told that it was
/// cancelled.
pub proof fn law_cancelled_request_is_never_sent<R>(events: Seq<RequestEvent<R>>)
    ensures
        request_run(
            DispatchRequest::<R>::Begin.next(RequestEvent::Checked { cancelled: true }),
            events,
        ) == DispatchRequest::<R>::Done(RequestEnd::Cancelled),
    decreases events.len(),
{
    if events.len() > 0 {
        law_cancelled_request_is_never_sent(events.drop_last());
    }
}

/// A request that is not answered can tell a cancellation, a dispatcher that takes no message
/// and a dispatcher that stopped apart by what it is told.
pub proof fn law_unanswered_ends_are_told_apart<R>(
    kind: DispatchKind,
    one: RequestEnd<R>,
    other: RequestEnd<R>,
)
    requires
        !(one is Reply),
        !(other is Reply),
    ensures
        end_message(kind, one) == end_message(kind, other) <==> one == other,
{
    reveal_strlit("code mode nested tool call cancelled");
    reveal_strlit("code mode nested tool dispatcher is unavailable");
    reveal_strlit("code mode nested tool dispatcher stopped");
    reveal_strlit("code mode notification cancelled");
    reveal_strlit("code mode notification dispatcher is unavailable");
    reveal_strlit("code mode notification dispatcher stopped");
    if one != other {
        assert(end_message(kind, one).len() != end_message(kind, other).len());
    }
}

/// A request that ends with an answer got it from the dispatcher, which had taken its message.
pub proof fn law_answer_comes_from_the_dispatcher<R>(
    events: Seq<RequestEvent<R>>,
    reply: Result<R, String>,
)
    requires
        request_run(DispatchRequest::<R>::Begin, events) == DispatchRequest::<R>::Done(
            RequestEnd::Reply(reply),
        ),
    ensures
        events.contains(RequestEvent::Sent(true)),
        events.contains(RequestEvent::Replied(reply)),
    decreases events.len(),
{
    let before = events.drop_last();
    let last = events.len() - 1;
    assert(events[last] == events.last());
    if request_run(DispatchRequest::<R>::Begin, before) == DispatchRequest::<R>::Done(
        RequestEnd::Reply(reply),
    ) {
        law_answer_comes_from_the_dispatcher(before, reply);
        lemma_contains_front(events, RequestEvent::Sent(true));
        lemma_contains_front(events, RequestEvent::Replied(reply));
    } else {
        lemma_awaiting_request_was_taken(before);
        lemma_contains_front(events, RequestEvent::Sent(true));
        assert(events[last] == RequestEvent::Replied(reply));
    }
}

/// What the events before the last contain, all of them contain.
proof fn lemma_contains_front<A>(events: Seq<A>, event: A)
    requires
        events.len() > 0,
    ensures
        events.drop_last().contains(event) ==> events.contains(event),
{
    let before = events.drop_last();
    if before.contains(event) {
        let i = choose|i: int| 0 <= i < before.len() && before[i] == event;
        assert(events[i] == event);
    }
}

/// A request that waits for an answer was taken by the dispatcher.
proof fn lemma_awaiting_request_was_taken<R>(events: Seq<RequestEvent<R>>)
    ensures
        request_run(DispatchRequest::<R>::Begin, events) is AwaitReply ==> events.contains(
            RequestEvent::Sent(true),
        ),
    decreases events.len(),
{
    if events.len() > 0 {
        lemma_awaiting_request_was_taken(events.drop_last());
        lemma_contains_front(events, RequestEvent::Sent(true));
        assert(events[events.len() - 1] == events.last());
    }
}

} // verus!
