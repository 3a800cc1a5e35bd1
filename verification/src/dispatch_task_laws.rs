//! What becomes of a message from a code cell: who gets it, what it is answered, and when it is
//! not answered at all.

use std::sync::Arc;

use vstd::prelude::*;

use crate::dispatch::DispatchState;
use crate::dispatch_laws::{law_notification_is_never_dropped, message_run};
use crate::dispatch_state_laws::other_cells_agree;
use crate::dispatch_task::{DispatchEvent, DispatchKind, DispatchReply, DispatchStage};
use crate::turn_host::CoreTurnHost;

verus! {

/// What a turn replies to a tool call or a notification is what the cell is answered, word for
/// word, success or failure.
pub proof fn law_reply_of_the_turn_is_the_answer<S, E, R>(
    kind: DispatchKind,
    cell: Seq<char>,
    state: DispatchState<S, E>,
    turn: Arc<CoreTurnHost<E>>,
    reply: Result<R, String>,
)
    ensures
        DispatchStage::<E, R>::Submit(turn).next(
            kind,
            cell,
            state,
            DispatchEvent::<S, R>::HostReplied(reply),
        ) == (DispatchStage::<E, R>::Reply(DispatchReply::Host(reply)), state),
        DispatchStage::<E, R>::Notify(turn).next(
            kind,
            cell,
            state,
            DispatchEvent::<S, R>::HostReplied(reply),
        ) == (DispatchStage::<E, R>::Reply(DispatchReply::Host(reply)), state),
{
}

/// Sending an answer, whatever it says, is the end of the message.
pub proof fn law_sent_answer_ends_the_message<S, E, R>(
    kind: DispatchKind,
    cell: Seq<char>,
    state: DispatchState<S, E>,
    reply: DispatchReply<R>,
)
    ensures
        DispatchStage::<E, R>::Reply(reply).next(kind, cell, state, DispatchEvent::<S, R>::Sent)
            == (DispatchStage::<E, R>::Answered, state),
{
}

/// A message that was not cancelled looks whether its cell is ready; the cell is open then.
pub proof fn law_message_begins_by_looking_at_its_cell<S, E, R>(
    kind: DispatchKind,
    cell: Seq<char>,
    state: DispatchState<S, E>,
    fresh: S,
)
    ensures
        ({
            let (stage, begun) = DispatchStage::<E, R>::Begin.next(
                kind,
                cell,
                state,
                DispatchEvent::Checked { cancelled: false, fresh },
            );
            &&& stage == DispatchStage::<E, R>::ReadSignal
            &&& begun.gates.dom().contains(cell)
            &&& state.gates.dom().contains(cell) ==> begun == state
            &&& !state.gates.dom().contains(cell) ==> begun.gates[cell].signal == fresh
                && !begun.gates[cell].ready && begun.gates[cell].host is None
                && begun.gates[cell].originating_item_id is None
            &&& other_cells_agree(state, begun, cell)
            &&& begun == DispatchState { gates: begun.gates, ..state }
        }),
{
}

/// A look at the cell shows it ready: its gate is, or the signal that the message listens to was
/// raised before the cell lost it.
pub open spec fn look_shows_ready<S, E>(
    state: DispatchState<S, E>,
    cell: Seq<char>,
    lost: Option<bool>,
) -> bool {
    ||| lost == Some(true)
    ||| lost is None && state.gates.dom().contains(cell) && state.gates[cell].ready
}

/// The stage in which a turn has a message of `kind`.
pub open spec fn given_to<E, R>(
    kind: DispatchKind,
    turn: Arc<CoreTurnHost<E>>,
    stage: DispatchStage<E, R>,
) -> bool {
    match kind {
        DispatchKind::Notify => stage == DispatchStage::<E, R>::Notify(turn),
        DispatchKind::InvokeTool => stage == DispatchStage::<E, R>::Admit(turn),
    }
}

/// A look at the cell gives the message to the turn of the cell where the cell is ready and has
/// one, is answered at once where the cell is ready and has none, and has the message wait where
/// the cell is not ready. It changes nothing of the broker.
pub proof fn law_look_decides_by_the_cell<S, E, R>(
    kind: DispatchKind,
    cell: Seq<char>,
    state: DispatchState<S, E>,
    lost: Option<bool>,
)
    ensures
        ({
            let (stage, after) = DispatchStage::<E, R>::ReadSignal.next(
                kind,
                cell,
                state,
                DispatchEvent::<S, R>::SignalRead { lost },
            );
            let bound = state.gates.dom().contains(cell) && state.gates[cell].host is Some;
            &&& after == state
            &&& look_shows_ready(state, cell, lost) && bound ==> given_to(
                kind,
                state.gates[cell].host->0,
                stage,
            )
            &&& look_shows_ready(state, cell, lost) && !bound ==> stage == DispatchStage::<
                E,
                R,
            >::Reply(DispatchReply::NoOriginatingHost)
            &&& !look_shows_ready(state, cell, lost) ==> stage == DispatchStage::<
                E,
                R,
            >::AwaitSignal
        }),
{
}

/// A message of either kind that waits for its cell is given to the turn of the cell by the first
/// look that shows the cell ready after the signal changed.
pub proof fn law_waiting_message_is_given_to_the_turn_once_ready<S, E, R>(
    kind: DispatchKind,
    cell: Seq<char>,
    waiting: DispatchState<S, E>,
    later: DispatchState<S, E>,
    lost: Option<bool>,
    turn: Arc<CoreTurnHost<E>>,
)
    requires
        look_shows_ready(later, cell, lost),
        later.gates.dom().contains(cell),
        later.gates[cell].host == Some(turn),
    ensures
        ({
            let (woken, unchanged) = DispatchStage::<E, R>::AwaitSignal.next(
                kind,
                cell,
                waiting,
                DispatchEvent::<S, R>::SignalChanged,
            );
            let (stage, after) = woken.next(
                kind,
                cell,
                later,
                DispatchEvent::<S, R>::SignalRead { lost },
            );
            &&& unchanged == waiting
            &&& after == later
            &&& given_to(kind, turn, stage)
        }),
{
}

/// A message that waits for its cell looks again whenever the signal changes, and waits on where
/// the cell is still not ready.
pub proof fn law_waiting_message_looks_again<S, E, R>(
    kind: DispatchKind,
    cell: Seq<char>,
    state: DispatchState<S, E>,
    later: DispatchState<S, E>,
)
    ensures
        DispatchStage::<E, R>::AwaitSignal.next(
            kind,
            cell,
            state,
            DispatchEvent::<S, R>::SignalChanged,
        ) == (DispatchStage::<E, R>::ReadSignal, state),
        !look_shows_ready(later, cell, None) ==> DispatchStage::<E, R>::AwaitSignal.next(
            kind,
            cell,
            state,
            DispatchEvent::<S, R>::SignalChanged,
        ).0.next(kind, cell, later, DispatchEvent::<S, R>::SignalRead { lost: None }).0
            == DispatchStage::<E, R>::AwaitSignal,
{
}

/// A message whose cell will not get ready for it is over: a notification is answered that it was
/// cancelled, and a tool call is not answered.
pub open spec fn given_up<E, R>(kind: DispatchKind, stage: DispatchStage<E, R>) -> bool {
    match kind {
        DispatchKind::Notify => stage == DispatchStage::<E, R>::Reply(
            DispatchReply::NotificationCancelled,
        ),
        DispatchKind::InvokeTool => stage == DispatchStage::<E, R>::Dropped,
    }
}

/// A message is given up, and its cell closed, where it was cancelled before it began, where it
/// is cancelled while it waits, and where its cell is closed while it waits. Nothing else
/// changes.
pub proof fn law_cancelled_message_is_given_up<S, E, R>(
    kind: DispatchKind,
    cell: Seq<char>,
    state: DispatchState<S, E>,
    fresh: S,
)
    ensures
        ({
            let begun = DispatchStage::<E, R>::Begin.next(
                kind,
                cell,
                state,
                DispatchEvent::Checked { cancelled: true, fresh },
            );
            let closed = DispatchStage::<E, R>::AwaitSignal.next(
                kind,
                cell,
                state,
                DispatchEvent::<S, R>::SignalClosed,
            );
            let cancelled = DispatchStage::<E, R>::AwaitSignal.next(
                kind,
                cell,
                state,
                DispatchEvent::<S, R>::Cancelled,
            );
            &&& given_up(kind, begun.0)
            &&& begun == closed
            &&& begun == cancelled
            &&& !begun.1.gates.dom().contains(cell)
            &&& other_cells_agree(state, begun.1, cell)
            &&& begun.1 == DispatchState { gates: begun.1.gates, ..state }
        }),
{
}

/// A turn that does not track completeness takes every tool call. One that does takes a tool call
/// exactly where it is not cancelled and its cell is open. A call that is not taken is dropped.
pub proof fn law_turn_takes_tool_calls_of_open_cells<S, E, R>(
    kind: DispatchKind,
    cell: Seq<char>,
    state: DispatchState<S, E>,
    turn: Arc<CoreTurnHost<E>>,
    cancelled: bool,
)
    ensures
        ({
            let (stage, after) = DispatchStage::<E, R>::Admit(turn).next(
                kind,
                cell,
                state,
                DispatchEvent::<S, R>::AdmissionChecked { cancelled },
            );
            &&& after == state
            &&& !turn.track_completeness ==> stage == DispatchStage::<E, R>::Submit(turn)
            &&& !cancelled && state.gates.dom().contains(cell) ==> stage == DispatchStage::<
                E,
                R,
            >::Submit(turn)
            &&& turn.track_completeness && cancelled ==> stage == DispatchStage::<E, R>::Dropped
            &&& turn.track_completeness && !state.gates.dom().contains(cell) ==> stage
                == DispatchStage::<E, R>::Dropped
        }),
{
}

/// The stage is one that the event can take on.
pub open spec fn concerns<S, E, R>(
    stage: DispatchStage<E, R>,
    event: DispatchEvent<S, R>,
) -> bool {
    ||| stage is Begin && event is Checked
    ||| stage is ReadSignal && event is SignalRead
    ||| stage is AwaitSignal && (event is SignalChanged || event is SignalClosed
        || event is Cancelled)
    ||| stage is Admit && event is AdmissionChecked
    ||| (stage is Notify || stage is Submit) && event is HostReplied
    ||| stage is Reply && event is Sent
}

/// Any other event changes neither the message nor the broker.
pub proof fn law_other_events_leave_a_message_alone<S, E, R>(
    stage: DispatchStage<E, R>,
    kind: DispatchKind,
    cell: Seq<char>,
    state: DispatchState<S, E>,
    event: DispatchEvent<S, R>,
)
    requires
        !concerns(stage, event),
    ensures
        stage.next(kind, cell, state, event) == (stage, state),
{
}

/// Some event from the step `from` on is the reply `reply` of a turn.
pub open spec fn turn_replied<S, E, R>(
    steps: Seq<(DispatchState<S, E>, DispatchEvent<S, R>)>,
    from: int,
    reply: Result<R, String>,
) -> bool {
    exists|k: int|
        from <= k < steps.len() && (#[trigger] steps[k]).1 == DispatchEvent::<S, R>::HostReplied(
            reply,
        )
}

/// A message that was given to a turn is answered with nothing but what the turn replied after
/// that. In particular it is never told that its cell has no turn, nor that it was cancelled.
pub proof fn law_message_of_a_turn_is_answered_by_the_turn<S, E, R>(
    kind: DispatchKind,
    cell: Seq<char>,
    steps: Seq<(DispatchState<S, E>, DispatchEvent<S, R>)>,
    i: int,
)
    requires
        0 <= i <= steps.len(),
        ({
            let given = message_run(kind, cell, steps.take(i));
            given is Notify || given is Admit || given is Submit
        }),
    ensures
        ({
            let last = message_run(kind, cell, steps);
            &&& last is Notify || last is Admit || last is Submit || last is Reply
                || last is Answered || last is Dropped
            &&& last matches DispatchStage::Reply(answer) ==> (answer matches DispatchReply::Host(
                reply,
            ) && turn_replied(steps, i, reply))
        }),
    decreases steps.len(),
{
    if i < steps.len() {
        let before = steps.drop_last();
        assert(before.take(i) =~= steps.take(i));
        law_message_of_a_turn_is_answered_by_the_turn(kind, cell, before, i);
        assert(steps[steps.len() - 1] == steps.last());
        if let DispatchStage::Reply(answer) = message_run(kind, cell, before) {
            let reply = answer->Host_0;
            let k = choose|k: int|
                i <= k < before.len() && (#[trigger] before[k]).1 == DispatchEvent::<
                    S,
                    R,
                >::HostReplied(reply);
            assert(before[k] == steps[k]);
            assert(steps[k].1 == DispatchEvent::<S, R>::HostReplied(reply));
        }
    } else {
        assert(steps.take(i) =~= steps);
    }
}

/// At step `k` a look showed `cell` ready and without a turn.
pub open spec fn looked_without_turn<S, E, R>(
    steps: Seq<(DispatchState<S, E>, DispatchEvent<S, R>)>,
    cell: Seq<char>,
    k: int,
) -> bool {
    &&& 0 <= k < steps.len()
    &&& steps[k].1 matches DispatchEvent::SignalRead { lost } && look_shows_ready(
        steps[k].0,
        cell,
        lost,
    )
    &&& !(steps[k].0.gates.dom().contains(cell) && steps[k].0.gates[cell].host is Some)
}

/// At step `k` the message was cancelled, or its cell closed while it waited.
pub open spec fn cancelled_at<S, E, R>(
    steps: Seq<(DispatchState<S, E>, DispatchEvent<S, R>)>,
    k: int,
) -> bool {
    &&& 0 <= k < steps.len()
    &&& match steps[k].1 {
        DispatchEvent::Checked { cancelled, .. } => cancelled,
        DispatchEvent::SignalClosed => true,
        DispatchEvent::Cancelled => true,
        _ => false,
    }
}

/// At step `k` a tool call was cancelled, or its cell was not open, when its turn was to take it.
pub open spec fn refused_at<S, E, R>(
    steps: Seq<(DispatchState<S, E>, DispatchEvent<S, R>)>,
    cell: Seq<char>,
    k: int,
) -> bool {
    &&& 0 <= k < steps.len()
    &&& steps[k].1 matches DispatchEvent::AdmissionChecked { cancelled } && (cancelled
        || !steps[k].0.gates.dom().contains(cell))
}

/// The run gives cause for the end that a message of `kind` has come to.
pub open spec fn end_has_cause<S, E, R>(
    kind: DispatchKind,
    cell: Seq<char>,
    steps: Seq<(DispatchState<S, E>, DispatchEvent<S, R>)>,
    stage: DispatchStage<E, R>,
) -> bool {
    match stage {
        DispatchStage::Reply(DispatchReply::Host(reply)) => turn_replied(steps, 0, reply),
        DispatchStage::Reply(DispatchReply::NoOriginatingHost) => exists|k: int|
            looked_without_turn(steps, cell, k),
        DispatchStage::Reply(DispatchReply::NotificationCancelled) => kind == DispatchKind::Notify
            && exists|k: int| #[trigger] cancelled_at(steps, k),
        DispatchStage::Dropped => kind == DispatchKind::InvokeTool && ((exists|k: int| #[trigger]
            cancelled_at(steps, k)) || (exists|k: int| refused_at(steps, cell, k))),
        _ => true,
    }
}

/// No message comes to an end without cause: an answer of the turn was replied by the turn, "no
/// turn" is told only where a look showed the cell ready without one, only a notification is told
/// that it was cancelled, and only where it was cancelled or its cell closed, and only a tool
/// call is dropped, and only for the same causes or because its turn did not take it.
pub proof fn law_message_ends_only_for_cause<S, E, R>(
    kind: DispatchKind,
    cell: Seq<char>,
    steps: Seq<(DispatchState<S, E>, DispatchEvent<S, R>)>,
)
    ensures
        end_has_cause(kind, cell, steps, message_run(kind, cell, steps)),
    decreases steps.len(),
{
    if steps.len() > 0 {
        let before = steps.drop_last();
        let n = steps.len() - 1;
        law_message_ends_only_for_cause(kind, cell, before);
        assert(steps[n] == steps.last());
        let earlier = message_run(kind, cell, before);
        let stage = message_run(kind, cell, steps);
        assert forall|k: int| #[trigger] cancelled_at(before, k) implies cancelled_at(steps, k) by {
            assert(before[k] == steps[k]);
        }
        assert forall|k: int| #[trigger] refused_at(before, cell, k) implies refused_at(
            steps,
            cell,
            k,
        ) by {
            assert(before[k] == steps[k]);
        }
        assert forall|k: int| #[trigger] looked_without_turn(
            before,
            cell,
            k,
        ) implies looked_without_turn(steps, cell, k) by {
            assert(before[k] == steps[k]);
        }
        match stage {
            DispatchStage::Reply(DispatchReply::Host(reply)) => {
                if earlier == stage {
                    let k = choose|k: int|
                        0 <= k < before.len() && (#[trigger] before[k]).1 == DispatchEvent::<
                            S,
                            R,
                        >::HostReplied(reply);
                    assert(before[k] == steps[k]);
                    assert(steps[k].1 == DispatchEvent::<S, R>::HostReplied(reply));
                } else {
                    assert(steps[n].1 == DispatchEvent::<S, R>::HostReplied(reply));
                }
            },
            DispatchStage::Reply(DispatchReply::NoOriginatingHost) => {
                if !(earlier is Reply) {
                    assert(looked_without_turn(steps, cell, n));
                }
            },
            DispatchStage::Reply(DispatchReply::NotificationCancelled) => {
                if !(earlier is Reply) {
                    assert(cancelled_at(steps, n));
                }
            },
            DispatchStage::Dropped => {
                if earlier is Admit {
                    assert(refused_at(steps, cell, n));
                } else if !(earlier is Dropped) {
                    assert(cancelled_at(steps, n));
                }
                if kind == DispatchKind::Notify {
                    law_notification_is_never_dropped(cell, steps);
                }
            },
            _ => {},
        }
    }
}

} // verus!
