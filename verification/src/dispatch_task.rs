//! What becomes of one message that a code cell sends.

use std::sync::Arc;

use vstd::prelude::*;

use crate::cell::CellId;
use crate::dispatch::{CodeModeDispatchBroker, DispatchState};
use crate::text::join_three;
use crate::turn_host::CoreTurnHost;

verus! {

/// What a cell asks for.
#[derive(Clone, Copy, Debug, PartialEq, Eq, Structural)]
pub enum DispatchKind {
    /// A nested tool call.
    InvokeTool,
    /// A notification to the turn.
    Notify,
}

/// What the cell is answered.
#[derive(Debug, PartialEq, Eq)]
pub enum DispatchReply<R> {
    /// What the turn answered.
    Host(Result<R, String>),
    /// The cell belongs to no turn.
    NoOriginatingHost,
    /// The notification was cancelled before the cell was ready.
    NotificationCancelled,
}

impl<R> DispatchReply<R> {
    /// The answer as `cell_id` gets it.
    pub fn into_result(self, cell_id: &CellId) -> (result: Result<R, String>)
        ensures
            match self {
                DispatchReply::Host(reply) => result == reply,
                DispatchReply::NoOriginatingHost => result matches Err(message) && message@
                    == "code-mode cell "@ + cell_id@ + " has no originating dispatch host"@,
                DispatchReply::NotificationCancelled => result matches Err(message) && message@
                    == "code mode notification cancelled"@,
            },
    {
        match self {
            DispatchReply::Host(reply) => reply,
            DispatchReply::NoOriginatingHost => Err(
                join_three(
                    "code-mode cell ",
                    cell_id.as_str(),
                    " has no originating dispatch host",
                ),
            ),
            DispatchReply::NotificationCancelled => Err(
                "code mode notification cancelled".to_owned(),
            ),
        }
    }
}

/// What the dispatcher is about to do for a message.
#[derive(Debug)]
pub enum DispatchStage<E, R> {
    /// See whether the message was cancelled.
    Begin,
    /// See whether the cell is ready.
    ReadSignal,
    /// Wait until the signal changes or the message is cancelled.
    AwaitSignal,
    /// Let the turn notify.
    Notify(Arc<CoreTurnHost<E>>),
    /// In a task of its own, see whether the tool call may still be submitted.
    Admit(Arc<CoreTurnHost<E>>),
    /// Submit the tool call to the turn and await its answer.
    Submit(Arc<CoreTurnHost<E>>),
    /// Answer the cell.
    Reply(DispatchReply<R>),
    /// Nothing more: the cell was answered.
    Answered,
    /// Nothing more: the cell gets no answer.
    Dropped,
}

/// What the dispatcher has just seen of a message.
#[derive(Debug)]
pub enum DispatchEvent<S, R> {
    /// Whether the message was cancelled, and a signal in case its cell has none yet.
    Checked { cancelled: bool, fresh: S },
    /// The cell was looked at. Where the signal that the message listens to is no longer that of
    /// the cell, because the cell lost its gate meanwhile, `lost` says whether it was raised.
    SignalRead { lost: Option<bool> },
    /// The signal changed.
    SignalChanged,
    /// The cell has lost its gate, so the signal changes no more.
    SignalClosed,
    /// The message was cancelled.
    Cancelled,
    /// Whether the message was cancelled by the time the tool call would be submitted.
    AdmissionChecked { cancelled: bool },
    /// What the turn answered.
    HostReplied(Result<R, String>),
    /// The answer was sent.
    Sent,
}

/// Whether a message from `cell` finds it ready: as the cell's gate says, or, where the message
/// listens to a signal that is no longer the cell's, as that signal said.
pub open spec fn found_ready<S, E>(
    state: DispatchState<S, E>,
    cell: Seq<char>,
    lost: Option<bool>,
) -> bool {
    match lost {
        Some(raised) => raised,
        None => state.is_ready(cell),
    }
}

/// What follows when the wait for a ready cell ends without one: its gate is taken away, and a
/// notification is answered while a tool call is not.
pub open spec fn stage_unready<E, R>(kind: DispatchKind) -> DispatchStage<E, R> {
    match kind {
        DispatchKind::Notify => DispatchStage::Reply(DispatchReply::NotificationCancelled),
        DispatchKind::InvokeTool => DispatchStage::Dropped,
    }
}

/// What follows once the cell is ready: its turn takes the message, where it has one.
pub open spec fn stage_ready<E, R>(
    kind: DispatchKind,
    host: Option<Arc<CoreTurnHost<E>>>,
) -> DispatchStage<E, R> {
    match (kind, host) {
        (_, None) => DispatchStage::Reply(DispatchReply::NoOriginatingHost),
        (DispatchKind::Notify, Some(turn)) => DispatchStage::Notify(turn),
        (DispatchKind::InvokeTool, Some(turn)) => DispatchStage::Admit(turn),
    }
}

/// Whether a turn takes a tool call from `cell`: a turn that tracks completeness takes none that
/// was cancelled, and none from a cell that is closed.
pub open spec fn admitted<S, E>(
    host: CoreTurnHost<E>,
    state: DispatchState<S, E>,
    cell: Seq<char>,
    cancelled: bool,
) -> bool {
    !host.track_completeness || (!cancelled && state.gates.dom().contains(cell))
}

impl<E, R> DispatchStage<E, R> {
    /// The stage and the broker's state that follow on `event` for a message of `kind` from
    /// `cell`. An event that the stage does not wait for changes nothing.
    pub open spec fn next<S>(
        self,
        kind: DispatchKind,
        cell: Seq<char>,
        state: DispatchState<S, E>,
        event: DispatchEvent<S, R>,
    ) -> (DispatchStage<E, R>, DispatchState<S, E>) {
        match (self, event) {
            (DispatchStage::Begin, DispatchEvent::Checked { cancelled, fresh }) => if cancelled {
                (stage_unready(kind), state.remove_gate(cell))
            } else {
                (DispatchStage::ReadSignal, state.open_gate(cell, fresh))
            },
            (DispatchStage::ReadSignal, DispatchEvent::SignalRead { lost }) => if found_ready(
                state,
                cell,
                lost,
            ) {
                (stage_ready(kind, state.host_of(cell)), state)
            } else {
                (DispatchStage::AwaitSignal, state)
            },
            (DispatchStage::AwaitSignal, DispatchEvent::SignalChanged) => (
                DispatchStage::ReadSignal,
                state,
            ),
            (DispatchStage::AwaitSignal, DispatchEvent::SignalClosed) => (
                stage_unready(kind),
                state.remove_gate(cell),
            ),
            (DispatchStage::AwaitSignal, DispatchEvent::Cancelled) => (
                stage_unready(kind),
                state.remove_gate(cell),
            ),
            (DispatchStage::Admit(turn), DispatchEvent::AdmissionChecked { cancelled }) => {
                if admitted(*turn, state, cell, cancelled) {
                    (DispatchStage::Submit(turn), state)
                } else {
                    (DispatchStage::Dropped, state)
                }
            },
            (DispatchStage::Notify(_), DispatchEvent::HostReplied(reply)) => (
                DispatchStage::Reply(DispatchReply::Host(reply)),
                state,
            ),
            (DispatchStage::Submit(_), DispatchEvent::HostReplied(reply)) => (
                DispatchStage::Reply(DispatchReply::Host(reply)),
                state,
            ),
            (DispatchStage::Reply(_), DispatchEvent::Sent) => (DispatchStage::Answered, state),
            _ => (self, state),
        }
    }
}

/// A message from a cell and how far it has come.
#[derive(Debug)]
pub struct DispatchTask<E, R> {
    pub kind: DispatchKind,
    pub cell_id: CellId,
    pub stage: DispatchStage<E, R>,
}

impl<E, R> DispatchTask<E, R> {
    /// A message that was just received.
    pub fn new(kind: DispatchKind, cell_id: CellId) -> (task: DispatchTask<E, R>)
        ensures
            task.kind == kind,
            task.cell_id == cell_id,
            task.stage == DispatchStage::<E, R>::Begin,
    {
        DispatchTask { kind, cell_id, stage: DispatchStage::Begin }
    }

    /// Takes the message on by what the dispatcher has seen.
    pub fn advance<S>(
        self,
        broker: &mut CodeModeDispatchBroker<S, E>,
        event: DispatchEvent<S, R>,
    ) -> (next: DispatchTask<E, R>)
        requires
            old(broker).wf(),
        ensures
            final(broker).wf(),
            next.kind == self.kind,
            next.cell_id == self.cell_id,
            (next.stage, final(broker)@) == self.stage.next(
                self.kind,
                self.cell_id@,
                old(broker)@,
                event,
            ),
    {
        let stage: DispatchStage<E, R> = match (self.stage, event) {
            (DispatchStage::Begin, DispatchEvent::Checked { cancelled, fresh }) => if cancelled {
                broker.remove_dispatch_gate(&self.cell_id);
                unready(self.kind)
            } else {
                let _signal: &S = broker.dispatch_gate(&self.cell_id, fresh);
                DispatchStage::ReadSignal
            },
            (DispatchStage::ReadSignal, DispatchEvent::SignalRead { lost }) => if (match lost {
                Some(raised) => raised,
                None => broker.cell_is_ready(&self.cell_id),
            }) {
                match (self.kind, broker.dispatch_host(&self.cell_id)) {
                    (_, None) => DispatchStage::Reply(DispatchReply::NoOriginatingHost),
                    (DispatchKind::Notify, Some(turn)) => DispatchStage::Notify(turn),
                    (DispatchKind::InvokeTool, Some(turn)) => DispatchStage::Admit(turn),
                }
            } else {
                DispatchStage::AwaitSignal
            },
            (DispatchStage::AwaitSignal, DispatchEvent::SignalChanged) => DispatchStage::ReadSignal,
            (DispatchStage::AwaitSignal, DispatchEvent::SignalClosed) => {
                broker.remove_dispatch_gate(&self.cell_id);
                unready(self.kind)
            },
            (DispatchStage::AwaitSignal, DispatchEvent::Cancelled) => {
                broker.remove_dispatch_gate(&self.cell_id);
                unready(self.kind)
            },
            (DispatchStage::Admit(turn), DispatchEvent::AdmissionChecked { cancelled }) => {
                if turn.track_completeness && (cancelled || !broker.has_gate(&self.cell_id)) {
                    DispatchStage::Dropped
                } else {
                    DispatchStage::Submit(turn)
                }
            },
            (DispatchStage::Notify(_), DispatchEvent::HostReplied(reply)) => DispatchStage::Reply(
                DispatchReply::Host(reply),
            ),
            (DispatchStage::Submit(_), DispatchEvent::HostReplied(reply)) => DispatchStage::Reply(
                DispatchReply::Host(reply),
            ),
            (DispatchStage::Reply(_), DispatchEvent::Sent) => DispatchStage::Answered,
            (stage, _) => stage,
        };
        DispatchTask { kind: self.kind, cell_id: self.cell_id, stage }
    }
}

/// What follows when the wait for a ready cell ends without one.
fn unready<E, R>(kind: DispatchKind) -> (stage: DispatchStage<E, R>)
    ensures
        stage == stage_unready::<E, R>(kind),
{
    match kind {
        DispatchKind::Notify => DispatchStage::Reply(DispatchReply::NotificationCancelled),
        DispatchKind::InvokeTool => DispatchStage::Dropped,
    }
}

} // verus!
