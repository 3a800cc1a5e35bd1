//! What holds of every wait for a process, whatever it sees.

use vstd::prelude::*;

use crate::process_wait::{
    capped_count, reason_not_to_wait, reason_to_stop, CollectedOutput, ExecCommandToolOutput,
    FailureTarget, PreparedProcess, ProcessSnapshot, ProcessWait, ProcessWaitEvent,
    ProcessWaitReason, RefreshedStatus, WaitFailure, WaitProcessRequest, WakeEvent,
};
use crate::tool::InputQueueActivity;

verus! {

/// The wait that a run of events leads to.
pub open spec fn process_run<P, D, X>(
    wait: ProcessWait<P, D, X>,
    events: Seq<ProcessWaitEvent<D, X>>,
) -> ProcessWait<P, D, X>
    decreases events.len(),
{
    if events.len() == 0 {
        wait
    } else {
        process_run(wait, events.drop_last()).next(events.last())
    }
}

/// A wait that is over stays as it ended.
pub proof fn law_finished_wait_stays_finished<P, D, X>(
    wait: ProcessWait<P, D, X>,
    events: Seq<ProcessWaitEvent<D, X>>,
)
    requires
        wait is Completed || wait is Failed,
    ensures
        process_run(wait, events) == wait,
    decreases events.len(),
{
    if events.len() > 0 {
        law_finished_wait_stays_finished(wait, events.drop_last());
    }
}

/// A process that has ended ends the wait as completed, whatever else there is.
pub proof fn law_end_comes_first(
    tty: bool,
    pending_activity: Option<InputQueueActivity>,
    snapshot: ProcessSnapshot,
)
    requires
        snapshot.has_exited || snapshot.has_failed,
    ensures
        reason_to_stop(tty, snapshot) == Some(ProcessWaitReason::Completed),
        reason_not_to_wait(tty, pending_activity, snapshot) == Some(ProcessWaitReason::Completed),
{
}

/// A sleeping wait has no deadline: without a wake it sleeps on.
pub proof fn law_only_a_wake_ends_a_sleep<P, D, X>(
    request: WaitProcessRequest<P>,
    prepared: PreparedProcess,
    events: Seq<ProcessWaitEvent<D, X>>,
)
    requires
        forall|i: int| 0 <= i < events.len() ==> !((#[trigger] events[i]) is Woken),
    ensures
        process_run(ProcessWait::<P, D, X>::Sleep(request, prepared), events) == ProcessWait::<
            P,
            D,
            X,
        >::Sleep(request, prepared),
    decreases events.len(),
{
    if events.len() > 0 {
        let before = events.drop_last();
        assert forall|i: int| 0 <= i < before.len() implies !((#[trigger] before[i]) is Woken) by {
            assert(before[i] == events[i]);
        }
        law_only_a_wake_ends_a_sleep(request, prepared, before);
        assert(!(events[events.len() - 1] is Woken));
    }
}

/// The wait is for a process without a terminal, and has not ended because of output.
pub open spec fn ignores_output<P, D, X>(wait: ProcessWait<P, D, X>) -> bool {
    match wait {
        ProcessWait::Inspect(_, prepared) => !prepared.tty,
        ProcessWait::Announce(_, prepared) => !prepared.tty,
        ProcessWait::Watch(_, prepared) => !prepared.tty,
        ProcessWait::Sleep(_, prepared) => !prepared.tty,
        ProcessWait::Collect(_, prepared, reason) => !prepared.tty && reason
            != ProcessWaitReason::Output,
        ProcessWait::Judge(_, prepared, reason, _) => !prepared.tty && reason
            != ProcessWaitReason::Output,
        ProcessWait::Refresh(_, prepared, reason, _) => !prepared.tty && reason
            != ProcessWaitReason::Output,
        ProcessWait::Completed(output) => output.wait_reason != Some(ProcessWaitReason::Output),
        ProcessWait::Locate(_) => false,
        ProcessWait::Prepare(_) => false,
        ProcessWait::ReadDenial(_) => true,
        ProcessWait::FinishApproval(_, _) => true,
        ProcessWait::Release(_, _) => true,
        ProcessWait::Failed(_) => true,
    }
}

/// A wait for a process without a terminal never ends because of output.
pub proof fn law_output_needs_a_terminal<P, D, X>(
    request: WaitProcessRequest<P>,
    prepared: PreparedProcess,
    events: Seq<ProcessWaitEvent<D, X>>,
)
    requires
        !prepared.tty,
    ensures
        ignores_output(
            process_run(ProcessWait::<P, D, X>::Inspect(request, prepared), events),
        ),
    decreases events.len(),
{
    if events.len() > 0 {
        law_output_needs_a_terminal(request, prepared, events.drop_last());
    }
}

/// The wait still serves `request`: it carries it on, and returns its limits unchanged.
pub open spec fn serves<P, D, X>(
    wait: ProcessWait<P, D, X>,
    request: WaitProcessRequest<P>,
) -> bool {
    match wait {
        ProcessWait::Locate(carried) => carried == request,
        ProcessWait::Prepare(carried) => carried == request,
        ProcessWait::Inspect(carried, _) => carried == request,
        ProcessWait::Announce(carried, _) => carried == request && request.announces_interaction,
        ProcessWait::Watch(carried, _) => carried == request && request.pending_activity is None,
        ProcessWait::Sleep(carried, _) => carried == request && request.pending_activity is None,
        ProcessWait::Collect(carried, _, _) => carried == request,
        ProcessWait::Judge(carried, _, _, _) => carried == request,
        ProcessWait::Refresh(carried, _, _, _) => carried == request,
        ProcessWait::Completed(output) => {
            &&& output.truncation_policy == request.truncation_policy
            &&& output.max_output_tokens == request.max_output_tokens
            &&& output.wait_reason is Some
            &&& output.process_id is None ==> output.wait_reason == Some(
                ProcessWaitReason::Completed,
            )
        },
        ProcessWait::ReadDenial(_) => true,
        ProcessWait::FinishApproval(_, _) => true,
        ProcessWait::Release(_, _) => true,
        ProcessWait::Failed(_) => true,
    }
}

/// Every wait serves what it was asked for: with pending input it neither watches nor sleeps,
/// it is announced only where that was asked for, its output has the limits of the request, and
/// an output without a running process says that the process completed.
pub proof fn law_wait_serves_its_request<P, D, X>(
    request: WaitProcessRequest<P>,
    events: Seq<ProcessWaitEvent<D, X>>,
)
    ensures
        serves(process_run(ProcessWait::<P, D, X>::Locate(request), events), request),
        process_run(
            ProcessWait::<P, D, X>::Locate(request),
            events,
        ) matches ProcessWait::Announce(_, _) ==> request.pending_activity is None,
    decreases events.len(),
{
    if events.len() > 0 {
        law_wait_serves_its_request(request, events.drop_last());
    }
}

/// The identity of the process was released somewhere in the run.
pub open spec fn was_released<D, X>(events: Seq<ProcessWaitEvent<D, X>>) -> bool {
    exists|i: int| 0 <= i < events.len() && (#[trigger] events[i]) is Released
}

/// A wait that finds the process failed or denied the network only ever fails, and releases the
/// identity of the process first.
pub proof fn law_failed_process_is_released<P, D, X>(
    wait: ProcessWait<P, D, X>,
    events: Seq<ProcessWaitEvent<D, X>>,
)
    requires
        wait is ReadDenial || wait is FinishApproval || wait is Release,
    ensures
        ({
            let end = process_run(wait, events);
            ||| end is ReadDenial
            ||| end is FinishApproval
            ||| end is Release
            ||| (end is Failed && was_released(events))
        }),
    decreases events.len(),
{
    if events.len() > 0 {
        let before = events.drop_last();
        law_failed_process_is_released(wait, before);
        if was_released(before) {
            let i = choose|i: int| 0 <= i < before.len() && (#[trigger] before[i]) is Released;
            assert(events[i] == before[i]);
        }
        assert(events[events.len() - 1] == events.last());
    }
}

/// Something that a wait may see.
pub enum Sight<D> {
    /// The process had exited or failed.
    End,
    /// The process had output that was not collected.
    Output,
    /// The input queue reported activity.
    Input,
    /// The process turned out to have ended while its output was collected.
    LateEnd,
    /// This output was collected.
    Collected(CollectedOutput<D>),
}

/// The event shows `sight`.
pub open spec fn shows<D, X>(event: ProcessWaitEvent<D, X>, sight: Sight<D>) -> bool {
    match sight {
        Sight::End => event matches ProcessWaitEvent::Observed(snapshot) && (snapshot.has_exited
            || snapshot.has_failed),
        Sight::Output => event matches ProcessWaitEvent::Observed(snapshot)
            && snapshot.buffered_bytes > 0,
        Sight::Input => event == ProcessWaitEvent::<D, X>::Woken(WakeEvent::ActivityChanged),
        Sight::LateEnd => match event {
            ProcessWaitEvent::Refreshed(RefreshedStatus::Exited { .. }) => true,
            ProcessWaitEvent::Refreshed(RefreshedStatus::Unknown { has_exited, .. }) => has_exited,
            _ => false,
        },
        Sight::Collected(collected) => event == ProcessWaitEvent::<D, X>::Collected(collected),
    }
}

/// Some event of the run shows `sight`.
pub open spec fn saw<D, X>(events: Seq<ProcessWaitEvent<D, X>>, sight: Sight<D>) -> bool {
    exists|i: int| 0 <= i < events.len() && shows(#[trigger] events[i], sight)
}

/// What the events before the last show, or the last one shows, the run shows.
proof fn lemma_saw<D, X>(events: Seq<ProcessWaitEvent<D, X>>, sight: Sight<D>)
    requires
        events.len() > 0,
        saw(events.drop_last(), sight) || shows(events.last(), sight),
    ensures
        saw(events, sight),
{
    let before = events.drop_last();
    if saw(before, sight) {
        let i = choose|i: int| 0 <= i < before.len() && shows(#[trigger] before[i], sight);
        assert(shows(events[i], sight));
    } else {
        assert(shows(events[events.len() - 1], sight));
    }
}

/// The run gives cause to stop a wait for `request` with `reason`.
pub open spec fn has_cause<P, D, X>(
    request: WaitProcessRequest<P>,
    events: Seq<ProcessWaitEvent<D, X>>,
    reason: ProcessWaitReason,
) -> bool {
    match reason {
        ProcessWaitReason::Completed => saw(events, Sight::End),
        ProcessWaitReason::Input => request.pending_activity is Some || saw(events, Sight::Input),
        ProcessWaitReason::Output => saw(events, Sight::Output),
    }
}

/// The run gives cause for the reason that the wait has by now, and the output that it carries
/// was collected in the run.
pub open spec fn accounted_for<P, D, X>(
    wait: ProcessWait<P, D, X>,
    request: WaitProcessRequest<P>,
    events: Seq<ProcessWaitEvent<D, X>>,
) -> bool {
    match wait {
        ProcessWait::Collect(_, _, reason) => has_cause(request, events, reason),
        ProcessWait::Judge(_, _, reason, collected) => {
            has_cause(request, events, reason) && saw(events, Sight::Collected(collected))
        },
        ProcessWait::Refresh(_, _, reason, collected) => {
            has_cause(request, events, reason) && saw(events, Sight::Collected(collected))
        },
        ProcessWait::Completed(output) => {
            &&& output.wait_reason matches Some(reason) && (has_cause(request, events, reason) || (
            reason == ProcessWaitReason::Completed && saw(events, Sight::LateEnd)))
            &&& exists|collected: CollectedOutput<D>| #[trigger]
                saw(events, Sight::Collected(collected)) && output.raw_output
                    == collected.raw_output && output.chunk_id == collected.chunk_id
                    && output.wall_time == collected.wall_time
        },
        _ => true,
    }
}

/// Every wait accounts for how it ends: it says that the process completed only where an end was
/// seen, that input came only where input was pending or woke it, that there is output only
/// where output was seen, and it returns the very output that was collected.
pub proof fn law_wait_accounts_for_its_end<P, D, X>(
    request: WaitProcessRequest<P>,
    events: Seq<ProcessWaitEvent<D, X>>,
)
    ensures
        accounted_for(
            process_run(ProcessWait::<P, D, X>::Locate(request), events),
            request,
            events,
        ),
    decreases events.len(),
{
    if events.len() > 0 {
        let before = events.drop_last();
        let wait = process_run(ProcessWait::<P, D, X>::Locate(request), before);
        law_wait_accounts_for_its_end(request, before);
        law_wait_serves_its_request(request, before);
        assert forall|sight: Sight<D>|
            saw(before, sight) || shows(events.last(), sight) implies #[trigger] saw(
            events,
            sight,
        ) by {
            lemma_saw(events, sight);
        }
        match wait {
            ProcessWait::Refresh(_, _, _, collected) => {
                assert(saw(events, Sight::Collected(collected)));
            },
            ProcessWait::Completed(output) => {
                let collected = choose|collected: CollectedOutput<D>| #[trigger]
                    saw(before, Sight::Collected(collected)) && output.raw_output
                        == collected.raw_output && output.chunk_id == collected.chunk_id
                        && output.wall_time == collected.wall_time;
                assert(saw(events, Sight::Collected(collected)));
            },
            _ => {},
        }
    }
}

/// The process is over: it has exited or failed.
pub open spec fn is_over(snapshot: ProcessSnapshot) -> bool {
    snapshot.has_exited || snapshot.has_failed
}

/// A look stops a wait as completed exactly where the process is over, and because of output
/// exactly where it is not over and printed on a terminal; it never reports input.
pub proof fn law_look_stops_for_an_end_or_for_terminal_output(
    tty: bool,
    snapshot: ProcessSnapshot,
)
    ensures
        reason_to_stop(tty, snapshot) == Some(ProcessWaitReason::Completed) <==> is_over(snapshot),
        reason_to_stop(tty, snapshot) == Some(ProcessWaitReason::Output) <==> !is_over(snapshot)
            && tty && snapshot.buffered_bytes > 0,
        reason_to_stop(tty, snapshot) != Some(ProcessWaitReason::Input),
{
}

/// A wait does not begin where the process is over, where input is pending, or where there is
/// output on a terminal, and the first of these that holds is its reason.
pub proof fn law_wait_begins_unless_there_is_a_reason(
    tty: bool,
    pending_activity: Option<InputQueueActivity>,
    snapshot: ProcessSnapshot,
)
    ensures
        ({
            let reason = reason_not_to_wait(tty, pending_activity, snapshot);
            &&& reason == Some(ProcessWaitReason::Completed) <==> is_over(snapshot)
            &&& reason == Some(ProcessWaitReason::Input) <==> !is_over(snapshot)
                && pending_activity is Some
            &&& reason == Some(ProcessWaitReason::Output) <==> !is_over(snapshot)
                && pending_activity is None && tty && snapshot.buffered_bytes > 0
        }),
{
}

/// A count is kept where it fits, and is the largest count otherwise.
pub proof fn law_counts_are_kept_or_capped(tokens: u64)
    ensures
        tokens <= usize::MAX ==> capped_count(tokens) == tokens,
        tokens > usize::MAX ==> capped_count(tokens) == usize::MAX,
{
}

/// A wait for a process that is not known fails with the identity that was asked for; one for a
/// known process prepares it, and fails with the very error that preparing it gives.
pub proof fn law_wait_needs_a_known_and_prepared_process<P, D, X>(
    request: WaitProcessRequest<P>,
    prepared: PreparedProcess,
    error: X,
)
    ensures
        ProcessWait::<P, D, X>::Locate(request).next(ProcessWaitEvent::Located(false))
            == ProcessWait::<P, D, X>::Failed(
            WaitFailure::UnknownProcessId { process_id: request.process_id },
        ),
        ProcessWait::<P, D, X>::Locate(request).next(ProcessWaitEvent::Located(true))
            == ProcessWait::<P, D, X>::Prepare(request),
        ProcessWait::<P, D, X>::Prepare(request).next(ProcessWaitEvent::Prepared(Ok(prepared)))
            == ProcessWait::<P, D, X>::Inspect(request, prepared),
        ProcessWait::<P, D, X>::Prepare(request).next(ProcessWaitEvent::Prepared(Err(error)))
            == ProcessWait::<P, D, X>::Failed(WaitFailure::Prepare(error)),
{
}

/// The first look collects the output at once where the process is over, where input is pending,
/// or where a terminal has output, in this order. Otherwise the wait begins, and the turn is told
/// first exactly where that was asked for.
pub proof fn law_first_look_collects_or_begins_to_wait<P, D, X>(
    request: WaitProcessRequest<P>,
    prepared: PreparedProcess,
    snapshot: ProcessSnapshot,
)
    ensures
        ({
            let next = ProcessWait::<P, D, X>::Inspect(request, prepared).next(
                ProcessWaitEvent::Observed(snapshot),
            );
            let printed = prepared.tty && snapshot.buffered_bytes > 0;
            &&& is_over(snapshot) ==> next == ProcessWait::<P, D, X>::Collect(
                request,
                prepared,
                ProcessWaitReason::Completed,
            )
            &&& !is_over(snapshot) && request.pending_activity is Some ==> next == ProcessWait::<
                P,
                D,
                X,
            >::Collect(request, prepared, ProcessWaitReason::Input)
            &&& !is_over(snapshot) && request.pending_activity is None && printed ==> next
                == ProcessWait::<P, D, X>::Collect(request, prepared, ProcessWaitReason::Output)
            &&& !is_over(snapshot) && request.pending_activity is None && !printed
                && request.announces_interaction ==> next == ProcessWait::<P, D, X>::Announce(
                request,
                prepared,
            )
            &&& !is_over(snapshot) && request.pending_activity is None && !printed
                && !request.announces_interaction ==> next == ProcessWait::<P, D, X>::Watch(
                request,
                prepared,
            )
        }),
        ProcessWait::<P, D, X>::Announce(request, prepared).next(ProcessWaitEvent::Announced)
            == ProcessWait::<P, D, X>::Watch(request, prepared),
{
}

/// Every later look collects the output where the process is over or a terminal has output, in
/// this order, and lets the wait sleep otherwise.
pub proof fn law_later_look_collects_or_sleeps<P, D, X>(
    request: WaitProcessRequest<P>,
    prepared: PreparedProcess,
    snapshot: ProcessSnapshot,
)
    ensures
        ({
            let next = ProcessWait::<P, D, X>::Watch(request, prepared).next(
                ProcessWaitEvent::Observed(snapshot),
            );
            let printed = prepared.tty && snapshot.buffered_bytes > 0;
            &&& is_over(snapshot) ==> next == ProcessWait::<P, D, X>::Collect(
                request,
                prepared,
                ProcessWaitReason::Completed,
            )
            &&& !is_over(snapshot) && printed ==> next == ProcessWait::<P, D, X>::Collect(
                request,
                prepared,
                ProcessWaitReason::Output,
            )
            &&& !is_over(snapshot) && !printed ==> next == ProcessWait::<P, D, X>::Sleep(
                request,
                prepared,
            )
        }),
{
}

/// A sleeping wait looks again when the state of the process changes, with or without a terminal,
/// and when a terminal prints. Input ends it. Output without a terminal does not wake it.
pub proof fn law_sleeping_wait_is_woken<P, D, X>(
    request: WaitProcessRequest<P>,
    prepared: PreparedProcess,
)
    ensures
        ProcessWait::<P, D, X>::Sleep(request, prepared).next(
            ProcessWaitEvent::Woken(WakeEvent::StateChanged),
        ) == ProcessWait::<P, D, X>::Watch(request, prepared),
        ProcessWait::<P, D, X>::Sleep(request, prepared).next(
            ProcessWaitEvent::Woken(WakeEvent::ActivityChanged),
        ) == ProcessWait::<P, D, X>::Collect(request, prepared, ProcessWaitReason::Input),
        prepared.tty ==> ProcessWait::<P, D, X>::Sleep(request, prepared).next(
            ProcessWaitEvent::Woken(WakeEvent::OutputNotified),
        ) == ProcessWait::<P, D, X>::Watch(request, prepared),
        !prepared.tty ==> ProcessWait::<P, D, X>::Sleep(request, prepared).next(
            ProcessWaitEvent::Woken(WakeEvent::OutputNotified),
        ) == ProcessWait::<P, D, X>::Sleep(request, prepared),
{
}

/// The end of a process ends every wait that sleeps on it: woken by the change of state, the wait
/// sees that the process is over and has completed, with or without a terminal.
pub proof fn law_end_of_the_process_ends_a_sleep<P, D, X>(
    request: WaitProcessRequest<P>,
    prepared: PreparedProcess,
    snapshot: ProcessSnapshot,
)
    requires
        is_over(snapshot),
    ensures
        ProcessWait::<P, D, X>::Sleep(request, prepared).next(
            ProcessWaitEvent::Woken(WakeEvent::StateChanged),
        ).next(ProcessWaitEvent::Observed(snapshot)) == ProcessWait::<P, D, X>::Collect(
            request,
            prepared,
            ProcessWaitReason::Completed,
        ),
{
}

/// Collected output is judged with nothing lost: a denied network comes before a failure of the
/// process, and a process with neither is looked up once more.
pub proof fn law_collected_output_is_judged<P, D, X>(
    request: WaitProcessRequest<P>,
    prepared: PreparedProcess,
    reason: ProcessWaitReason,
    collected: CollectedOutput<D>,
    message: String,
    failure_message: Option<String>,
)
    ensures
        ({
            let judged = ProcessWait::<P, D, X>::Collect(request, prepared, reason).next(
                ProcessWaitEvent::Collected(collected),
            );
            &&& judged == ProcessWait::<P, D, X>::Judge(request, prepared, reason, collected)
            &&& judged.next(
                ProcessWaitEvent::Judged { approval_cancelled: true, failure_message },
            ) == ProcessWait::<P, D, X>::ReadDenial(prepared)
            &&& judged.next(
                ProcessWaitEvent::Judged {
                    approval_cancelled: false,
                    failure_message: Some(message),
                },
            ) == ProcessWait::<P, D, X>::FinishApproval(prepared, message)
            &&& judged.next(
                ProcessWaitEvent::Judged { approval_cancelled: false, failure_message: None },
            ) == ProcessWait::<P, D, X>::Refresh(request, prepared, reason, collected)
        }),
{
}

/// A denied process is released and then fails with the message of the denial. A failed process
/// has its approval finished, is released, and then fails with its own message, or with that of
/// the approval where it could not be finished.
pub proof fn law_failed_wait_tells_the_message<P, D, X>(
    prepared: PreparedProcess,
    failure: String,
    message: String,
)
    ensures
        ({
            let denied = ProcessWait::<P, D, X>::ReadDenial(prepared).next(
                ProcessWaitEvent::Denied(message),
            );
            let finished = ProcessWait::<P, D, X>::FinishApproval(prepared, failure).next(
                ProcessWaitEvent::ApprovalFinished(Ok(())),
            );
            let unfinished = ProcessWait::<P, D, X>::FinishApproval(prepared, failure).next(
                ProcessWaitEvent::ApprovalFinished(Err(message)),
            );
            let waited = WaitFailure::<X>::FailProcess { target: FailureTarget::Waited, message };
            let failed = WaitFailure::<X>::ProcessFailed { message: failure };
            &&& denied == ProcessWait::<P, D, X>::Release(prepared.process_id, waited)
            &&& denied.next(ProcessWaitEvent::Released) == ProcessWait::<P, D, X>::Failed(waited)
            &&& finished == ProcessWait::<P, D, X>::Release(prepared.process_id, failed)
            &&& finished.next(ProcessWaitEvent::Released) == ProcessWait::<P, D, X>::Failed(failed)
            &&& unfinished == ProcessWait::<P, D, X>::Release(prepared.process_id, waited)
            &&& unfinished.next(ProcessWaitEvent::Released) == ProcessWait::<P, D, X>::Failed(
                waited,
            )
        }),
{
}

/// Releasing a process fails the wait with the failure that it carries, whatever that is.
pub proof fn law_release_fails_with_what_it_carries<P, D, X>(
    process_id: i32,
    failure: WaitFailure<X>,
)
    ensures
        ProcessWait::<P, D, X>::Release(process_id, failure).next(ProcessWaitEvent::Released)
            == ProcessWait::<P, D, X>::Failed(failure),
{
}

/// The output tells what was collected, under the limits of the request and the command of the
/// process.
pub open spec fn tells_collected<P, D>(
    output: ExecCommandToolOutput<P, D>,
    request: WaitProcessRequest<P>,
    prepared: PreparedProcess,
    collected: CollectedOutput<D>,
) -> bool {
    &&& output.chunk_id == collected.chunk_id
    &&& output.wall_time == collected.wall_time
    &&& output.raw_output == collected.raw_output
    &&& output.truncation_policy == request.truncation_policy
    &&& output.max_output_tokens == request.max_output_tokens
    &&& output.original_token_count matches Some(tokens) && (tokens == collected.approx_tokens || (
    collected.approx_tokens > usize::MAX && tokens == usize::MAX))
    &&& collected.omitted_bytes == 0 ==> output.output_omitted_bytes is None
    &&& collected.omitted_bytes > 0 ==> output.output_omitted_bytes == Some(
        collected.omitted_bytes,
    )
    &&& output.hook_command == Some(prepared.hook_command)
}

/// The output tells what became of the process: its exit code as the status has it, its identity
/// exactly where it still runs, and the call that the status names or, where there is none, the
/// call of the prepared process.
pub open spec fn tells_status<P, D>(
    output: ExecCommandToolOutput<P, D>,
    prepared: PreparedProcess,
    reason: ProcessWaitReason,
    status: RefreshedStatus,
) -> bool {
    match status {
        RefreshedStatus::Alive { exit_code, call_id, process_id } => {
            &&& output.exit_code == exit_code
            &&& output.process_id == Some(process_id)
            &&& output.event_call_id == call_id
            &&& output.wait_reason == Some(reason)
        },
        RefreshedStatus::Exited { exit_code, call_id, approval } => {
            &&& approval is Ok
            &&& output.exit_code == exit_code
            &&& output.process_id is None
            &&& output.event_call_id == call_id
            &&& output.wait_reason == Some(ProcessWaitReason::Completed)
        },
        RefreshedStatus::Unknown { has_exited, exit_code } => {
            &&& has_exited
            &&& output.exit_code == exit_code
            &&& output.process_id is None
            &&& output.event_call_id == prepared.call_id
            &&& output.wait_reason == Some(ProcessWaitReason::Completed)
        },
    }
}

/// Looking a process up once more ends the wait. It fails exactly where the approval of a process
/// that exited could not be finished, with that message, and where the process is not known and
/// has not exited. Otherwise the output tells what was collected and what became of the process.
pub proof fn law_wait_reports_how_the_process_stands<P, D, X>(
    request: WaitProcessRequest<P>,
    prepared: PreparedProcess,
    reason: ProcessWaitReason,
    collected: CollectedOutput<D>,
    status: RefreshedStatus,
)
    ensures
        ({
            let end = ProcessWait::<P, D, X>::Refresh(request, prepared, reason, collected).next(
                ProcessWaitEvent::Refreshed(status),
            );
            let unfinished = status matches RefreshedStatus::Exited { approval, .. }
                && approval is Err;
            let unknown = status matches RefreshedStatus::Unknown { has_exited, .. }
                && !has_exited;
            &&& unfinished ==> end == ProcessWait::<P, D, X>::Failed(
                WaitFailure::FailProcess {
                    target: FailureTarget::Entry,
                    message: status->Exited_approval->Err_0,
                },
            )
            &&& unknown ==> end == ProcessWait::<P, D, X>::Failed(
                WaitFailure::UnknownProcessId { process_id: prepared.process_id },
            )
            &&& !unfinished && !unknown ==> (end matches ProcessWait::Completed(output)
                && tells_collected(output, request, prepared, collected) && tells_status(
                output,
                prepared,
                reason,
                status,
            ))
        }),
{
}

/// The wait can take the event on.
pub open spec fn expects<P, D, X>(
    wait: ProcessWait<P, D, X>,
    event: ProcessWaitEvent<D, X>,
) -> bool {
    ||| wait is Locate && event is Located
    ||| wait is Prepare && event is Prepared
    ||| (wait is Inspect || wait is Watch) && event is Observed
    ||| wait is Announce && event is Announced
    ||| wait is Sleep && event is Woken
    ||| wait is Collect && event is Collected
    ||| wait is Judge && event is Judged
    ||| wait is ReadDenial && event is Denied
    ||| wait is FinishApproval && event is ApprovalFinished
    ||| wait is Release && event is Released
    ||| wait is Refresh && event is Refreshed
}

/// An event that a wait cannot take on changes nothing.
pub proof fn law_other_events_leave_a_wait_alone<P, D, X>(
    wait: ProcessWait<P, D, X>,
    event: ProcessWaitEvent<D, X>,
)
    requires
        !expects(wait, event),
    ensures
        wait.next(event) == wait,
{
}

/// The process that the wait is for, once it is prepared.
pub open spec fn prepared_of<P, D, X>(wait: ProcessWait<P, D, X>) -> Option<PreparedProcess> {
    match wait {
        ProcessWait::Inspect(_, prepared) => Some(prepared),
        ProcessWait::Announce(_, prepared) => Some(prepared),
        ProcessWait::Watch(_, prepared) => Some(prepared),
        ProcessWait::Sleep(_, prepared) => Some(prepared),
        ProcessWait::Collect(_, prepared, _) => Some(prepared),
        ProcessWait::Judge(_, prepared, _, _) => Some(prepared),
        ProcessWait::Refresh(_, prepared, _, _) => Some(prepared),
        ProcessWait::ReadDenial(prepared) => Some(prepared),
        ProcessWait::FinishApproval(prepared, _) => Some(prepared),
        _ => None,
    }
}

/// The output is made of what the run showed: some process that was prepared, some output that
/// was collected and some status that was found, none of them changed.
pub open spec fn made_of<P, D, X>(
    output: ExecCommandToolOutput<P, D>,
    request: WaitProcessRequest<P>,
    events: Seq<ProcessWaitEvent<D, X>>,
    prepared: PreparedProcess,
    reason: ProcessWaitReason,
    collected: CollectedOutput<D>,
    status: RefreshedStatus,
) -> bool {
    &&& events.contains(ProcessWaitEvent::Prepared(Ok(prepared)))
    &&& events.contains(ProcessWaitEvent::Collected(collected))
    &&& events.contains(ProcessWaitEvent::Refreshed(status))
    &&& tells_collected(output, request, prepared, collected)
    &&& tells_status(output, prepared, reason, status)
}

/// The run shows why a wait fails as it does.
pub open spec fn failure_has_cause<P, D, X>(
    failure: WaitFailure<X>,
    request: WaitProcessRequest<P>,
    events: Seq<ProcessWaitEvent<D, X>>,
) -> bool {
    match failure {
        WaitFailure::UnknownProcessId { process_id } => {
            ||| process_id == request.process_id && events.contains(
                ProcessWaitEvent::Located(false),
            )
            ||| exists|prepared: PreparedProcess, exit_code: Option<i32>|
                #![trigger
                    events.contains(ProcessWaitEvent::Prepared(Ok(prepared))),
                    events.contains(
                        ProcessWaitEvent::Refreshed(
                            RefreshedStatus::Unknown { has_exited: false, exit_code },
                        ),
                    )]
                process_id == prepared.process_id && events.contains(
                    ProcessWaitEvent::Prepared(Ok(prepared)),
                ) && events.contains(
                    ProcessWaitEvent::Refreshed(
                        RefreshedStatus::Unknown { has_exited: false, exit_code },
                    ),
                )
        },
        WaitFailure::Prepare(error) => events.contains(ProcessWaitEvent::Prepared(Err(error))),
        WaitFailure::ProcessFailed { message } => events.contains(
            ProcessWaitEvent::Judged { approval_cancelled: false, failure_message: Some(message) },
        ) && events.contains(ProcessWaitEvent::ApprovalFinished(Ok(()))),
        WaitFailure::FailProcess { target: FailureTarget::Waited, message } => events.contains(
            ProcessWaitEvent::Denied(message),
        ) || events.contains(ProcessWaitEvent::ApprovalFinished(Err(message))),
        WaitFailure::FailProcess { target: FailureTarget::Entry, message } => exists|
            exit_code: Option<i32>,
            call_id: String,
        | #[trigger]
            events.contains(
                ProcessWaitEvent::Refreshed(
                    RefreshedStatus::Exited { exit_code, call_id, approval: Err(message) },
                ),
            ),
    }
}

/// What a wait carries and how it ends come from the run.
pub open spec fn comes_from<P, D, X>(
    wait: ProcessWait<P, D, X>,
    request: WaitProcessRequest<P>,
    events: Seq<ProcessWaitEvent<D, X>>,
) -> bool {
    &&& prepared_of(wait) matches Some(prepared) ==> events.contains(
        ProcessWaitEvent::Prepared(Ok(prepared)),
    )
    &&& match wait {
        ProcessWait::Judge(carried, _, _, collected) => carried == request && events.contains(
            ProcessWaitEvent::Collected(collected),
        ),
        ProcessWait::Refresh(carried, _, _, collected) => carried == request && events.contains(
            ProcessWaitEvent::Collected(collected),
        ),
        ProcessWait::FinishApproval(_, message) => events.contains(
            ProcessWaitEvent::Judged { approval_cancelled: false, failure_message: Some(message) },
        ),
        ProcessWait::Release(_, failure) => failure_has_cause(failure, request, events),
        ProcessWait::Failed(failure) => failure_has_cause(failure, request, events),
        ProcessWait::Completed(output) => exists|
            prepared: PreparedProcess,
            reason: ProcessWaitReason,
            collected: CollectedOutput<D>,
            status: RefreshedStatus,
        |
            made_of(output, request, events, prepared, reason, collected, status),
        _ => true,
    }
}

/// Whatever a run shows more keeps the cause of a failure.
proof fn lemma_cause_stays<P, D, X>(
    failure: WaitFailure<X>,
    request: WaitProcessRequest<P>,
    before: Seq<ProcessWaitEvent<D, X>>,
    events: Seq<ProcessWaitEvent<D, X>>,
)
    requires
        failure_has_cause(failure, request, before),
        forall|event: ProcessWaitEvent<D, X>| #[trigger]
            before.contains(event) ==> events.contains(event),
    ensures
        failure_has_cause(failure, request, events),
{
}

/// Every output tells the exit code, the identity and the call of a status that was found, and
/// the text of an output that was collected; every failure tells what was seen to fail.
pub proof fn law_end_of_a_wait_comes_from_the_run<P, D, X>(
    request: WaitProcessRequest<P>,
    events: Seq<ProcessWaitEvent<D, X>>,
)
    ensures
        comes_from(
            process_run(ProcessWait::<P, D, X>::Locate(request), events),
            request,
            events,
        ),
    decreases events.len(),
{
    if events.len() > 0 {
        let before = events.drop_last();
        let wait = process_run(ProcessWait::<P, D, X>::Locate(request), before);
        let next = process_run(ProcessWait::<P, D, X>::Locate(request), events);
        law_end_of_a_wait_comes_from_the_run(request, before);
        law_wait_serves_its_request(request, before);
        assert(events[events.len() - 1] == events.last());
        assert(events.contains(events.last()));
        assert forall|event: ProcessWaitEvent<D, X>| #[trigger]
            before.contains(event) implies events.contains(event) by {
            let i = choose|i: int| 0 <= i < before.len() && before[i] == event;
            assert(events[i] == event);
        }
        match wait {
            ProcessWait::Release(_, failure) => {
                lemma_cause_stays(failure, request, before, events);
            },
            ProcessWait::Failed(failure) => {
                lemma_cause_stays(failure, request, before, events);
            },
            ProcessWait::Completed(output) => {
                let (prepared, reason, collected, status) = choose|
                    prepared: PreparedProcess,
                    reason: ProcessWaitReason,
                    collected: CollectedOutput<D>,
                    status: RefreshedStatus,
                |
                    made_of(output, request, before, prepared, reason, collected, status);
                assert(made_of(output, request, events, prepared, reason, collected, status));
            },
            ProcessWait::Refresh(_, prepared, reason, collected) => {
                if let ProcessWaitEvent::Refreshed(status) = events.last() {
                    law_wait_reports_how_the_process_stands::<P, D, X>(
                        request,
                        prepared,
                        reason,
                        collected,
                        status,
                    );
                    match status {
                        RefreshedStatus::Unknown { has_exited, exit_code } => {
                            if !has_exited {
                                assert(before.contains(ProcessWaitEvent::Prepared(Ok(prepared))));
                                assert(events.contains(
                                    ProcessWaitEvent::Refreshed(
                                        RefreshedStatus::Unknown { has_exited: false, exit_code },
                                    ),
                                ));
                            }
                        },
                        RefreshedStatus::Exited { exit_code, call_id, approval } => {
                            if let Err(message) = approval {
                                assert(events.contains(
                                    ProcessWaitEvent::Refreshed(
                                        RefreshedStatus::Exited {
                                            exit_code,
                                            call_id,
                                            approval: Err(message),
                                        },
                                    ),
                                ));
                            }
                        },
                        _ => {},
                    }
                    if let ProcessWait::Completed(output) = next {
                        assert(made_of(
                            output,
                            request,
                            events,
                            prepared,
                            reason,
                            collected,
                            status,
                        ));
                    }
                }
            },
            ProcessWait::FinishApproval(_, _) => {
                if let ProcessWaitEvent::ApprovalFinished(Ok(done)) = events.last() {
                    assert(done == ());
                }
            },
            _ => {},
        }
    }
}

} // verus!
