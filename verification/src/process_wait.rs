//! Waiting for a running process until it ends, prints or is interrupted.

use vstd::prelude::*;

use crate::tool::InputQueueActivity;

verus! {

/// Why a wait for a process ended.
#[derive(Clone, Copy, Debug, PartialEq, Eq, Structural)]
pub enum ProcessWaitReason {
    /// The process ended.
    Completed,
    /// Input arrived for the turn.
    Input,
    /// The terminal has output.
    Output,
}

/// What a wait is asked for.
#[derive(Debug, PartialEq, Eq)]
pub struct WaitProcessRequest<P> {
    pub process_id: i32,
    pub max_output_tokens: Option<usize>,
    pub truncation_policy: P,
    /// Whether the turn is told that a wait goes on.
    pub announces_interaction: bool,
    pub pending_activity: Option<InputQueueActivity>,
}

/// The process that is waited for.
#[derive(Debug, PartialEq, Eq)]
pub struct PreparedProcess {
    pub process_id: i32,
    pub call_id: String,
    pub hook_command: String,
    /// Whether the process has a terminal.
    pub tty: bool,
}

/// The process as it stands at one moment.
#[derive(Clone, Copy, Debug, PartialEq, Eq, Structural)]
pub struct ProcessSnapshot {
    pub has_exited: bool,
    pub has_failed: bool,
    /// How many bytes of output were seen and not collected.
    pub buffered_bytes: usize,
}

/// What wakes a wait.
#[derive(Clone, Copy, Debug, PartialEq, Eq, Structural)]
pub enum WakeEvent {
    /// The state of the process changed, or will change no more.
    StateChanged,
    /// The input queue reported activity, or will report no more.
    ActivityChanged,
    /// The process printed something.
    OutputNotified,
}

/// The output that a wait leaves with.
#[derive(Debug, PartialEq, Eq)]
pub struct CollectedOutput<D> {
    pub raw_output: Vec<u8>,
    /// About how many tokens the whole output takes.
    pub approx_tokens: u64,
    /// How many bytes of the output were left out.
    pub omitted_bytes: usize,
    pub chunk_id: String,
    pub wall_time: D,
}

/// What became of the process after its output was collected.
#[derive(Debug, PartialEq, Eq)]
pub enum RefreshedStatus {
    /// It still runs.
    Alive { exit_code: Option<i32>, call_id: String, process_id: i32 },
    /// It ended just now, and its network approval was finished or could not be.
    Exited { exit_code: Option<i32>, call_id: String, approval: Result<(), String> },
    /// It is no longer known.
    Unknown { has_exited: bool, exit_code: Option<i32> },
}

/// The process that a failure is reported to.
#[derive(Clone, Copy, Debug, PartialEq, Eq, Structural)]
pub enum FailureTarget {
    /// The process that was waited for.
    Waited,
    /// The process of the entry that was found to have ended.
    Entry,
}

/// Why a wait fails.
#[derive(Debug, PartialEq, Eq)]
pub enum WaitFailure<X> {
    /// No process has that identity.
    UnknownProcessId { process_id: i32 },
    /// The process could not be prepared.
    Prepare(X),
    /// The process has failed.
    ProcessFailed { message: String },
    /// The process is to fail with the message.
    FailProcess { target: FailureTarget, message: String },
}

/// What a wait tells of the process.
#[derive(Debug, PartialEq, Eq)]
pub struct ExecCommandToolOutput<P, D> {
    pub event_call_id: String,
    pub chunk_id: String,
    pub wall_time: D,
    pub raw_output: Vec<u8>,
    pub truncation_policy: P,
    pub max_output_tokens: Option<usize>,
    /// The process, where it still runs.
    pub process_id: Option<i32>,
    pub exit_code: Option<i32>,
    pub wait_reason: Option<ProcessWaitReason>,
    pub original_token_count: Option<usize>,
    /// How many bytes were left out, where any were.
    pub output_omitted_bytes: Option<usize>,
    pub hook_command: Option<String>,
}

/// The event that tells the turn that a wait goes on.
#[derive(Debug, PartialEq, Eq)]
pub struct TerminalInteraction {
    pub call_id: String,
    pub process_id: i32,
    pub stdin: String,
}

/// What a wait is about to do.
#[derive(Debug, PartialEq, Eq)]
pub enum ProcessWait<P, D, X> {
    /// Look the process up.
    Locate(WaitProcessRequest<P>),
    /// Lock the process against other interactions and prepare its handles.
    Prepare(WaitProcessRequest<P>),
    /// Look at the process before any waiting.
    Inspect(WaitProcessRequest<P>, PreparedProcess),
    /// Tell the turn that a wait goes on.
    Announce(WaitProcessRequest<P>, PreparedProcess),
    /// Listen for every wake and look at the process again.
    Watch(WaitProcessRequest<P>, PreparedProcess),
    /// Sleep until something wakes the wait.
    Sleep(WaitProcessRequest<P>, PreparedProcess),
    /// Collect the output.
    Collect(WaitProcessRequest<P>, PreparedProcess, ProcessWaitReason),
    /// See whether the process failed or was denied the network.
    Judge(WaitProcessRequest<P>, PreparedProcess, ProcessWaitReason, CollectedOutput<D>),
    /// Fetch the message that tells of the denial.
    ReadDenial(PreparedProcess),
    /// Finish the network approval of the process, which failed with the message.
    FinishApproval(PreparedProcess, String),
    /// Release the identity of the process, then fail.
    Release(i32, WaitFailure<X>),
    /// See what became of the process.
    Refresh(WaitProcessRequest<P>, PreparedProcess, ProcessWaitReason, CollectedOutput<D>),
    /// Return the output.
    Completed(ExecCommandToolOutput<P, D>),
    /// Return the failure.
    Failed(WaitFailure<X>),
}

/// What a wait has just seen.
#[derive(Debug, PartialEq, Eq)]
pub enum ProcessWaitEvent<D, X> {
    /// Whether the process is known.
    Located(bool),
    /// The process is prepared, or could not be.
    Prepared(Result<PreparedProcess, X>),
    /// The process as it stands.
    Observed(ProcessSnapshot),
    /// The turn was told.
    Announced,
    /// Something woke the wait.
    Woken(WakeEvent),
    /// The output was collected.
    Collected(CollectedOutput<D>),
    /// Whether the network approval was cancelled, and with what message the process failed.
    Judged { approval_cancelled: bool, failure_message: Option<String> },
    /// The message that tells of the denial.
    Denied(String),
    /// The network approval was finished, or could not be.
    ApprovalFinished(Result<(), String>),
    /// The identity was released.
    Released,
    /// What became of the process.
    Refreshed(RefreshedStatus),
}

/// Why a look at a process with or without a terminal ends the wait, where it does: an end
/// comes before output, and output counts on a terminal alone.
pub open spec fn reason_to_stop(tty: bool, snapshot: ProcessSnapshot) -> Option<ProcessWaitReason> {
    if snapshot.has_exited || snapshot.has_failed {
        Some(ProcessWaitReason::Completed)
    } else if tty && snapshot.buffered_bytes > 0 {
        Some(ProcessWaitReason::Output)
    } else {
        None
    }
}

/// Why a wait is over before it began, where it is: an end comes before pending input, and
/// pending input before output.
pub open spec fn reason_not_to_wait(
    tty: bool,
    pending_activity: Option<InputQueueActivity>,
    snapshot: ProcessSnapshot,
) -> Option<ProcessWaitReason> {
    match reason_to_stop(tty, snapshot) {
        Some(ProcessWaitReason::Completed) => Some(ProcessWaitReason::Completed),
        reason => if pending_activity is Some {
            Some(ProcessWaitReason::Input)
        } else {
            reason
        },
    }
}

/// `tokens` as a count, capped where it does not fit.
pub open spec fn capped_count(tokens: u64) -> usize {
    if tokens <= usize::MAX {
        tokens as usize
    } else {
        usize::MAX
    }
}

/// What is told of the output and of the process.
pub open spec fn wait_output<P, D>(
    request: WaitProcessRequest<P>,
    prepared: PreparedProcess,
    collected: CollectedOutput<D>,
    event_call_id: String,
    process_id: Option<i32>,
    exit_code: Option<i32>,
    reason: ProcessWaitReason,
) -> ExecCommandToolOutput<P, D> {
    ExecCommandToolOutput {
        event_call_id,
        chunk_id: collected.chunk_id,
        wall_time: collected.wall_time,
        raw_output: collected.raw_output,
        truncation_policy: request.truncation_policy,
        max_output_tokens: request.max_output_tokens,
        process_id,
        exit_code,
        wait_reason: Some(reason),
        original_token_count: Some(capped_count(collected.approx_tokens)),
        output_omitted_bytes: if collected.omitted_bytes == 0 {
            None
        } else {
            Some(collected.omitted_bytes)
        },
        hook_command: Some(prepared.hook_command),
    }
}

/// How a wait ends once it is known what became of the process.
pub open spec fn wait_end<P, D, X>(
    request: WaitProcessRequest<P>,
    prepared: PreparedProcess,
    reason: ProcessWaitReason,
    collected: CollectedOutput<D>,
    status: RefreshedStatus,
) -> ProcessWait<P, D, X> {
    match status {
        RefreshedStatus::Alive { exit_code, call_id, process_id } => ProcessWait::Completed(
            wait_output(
                request,
                prepared,
                collected,
                call_id,
                Some(process_id),
                exit_code,
                reason,
            ),
        ),
        RefreshedStatus::Exited { exit_code, call_id, approval: Ok(_) } => ProcessWait::Completed(
            wait_output(
                request,
                prepared,
                collected,
                call_id,
                None,
                exit_code,
                ProcessWaitReason::Completed,
            ),
        ),
        RefreshedStatus::Exited { exit_code, call_id, approval: Err(message) } => {
            ProcessWait::Failed(
                WaitFailure::FailProcess { target: FailureTarget::Entry, message },
            )
        },
        RefreshedStatus::Unknown { has_exited, exit_code } => if has_exited {
            ProcessWait::Completed(
                wait_output(
                    request,
                    prepared,
                    collected,
                    prepared.call_id,
                    None,
                    exit_code,
                    ProcessWaitReason::Completed,
                ),
            )
        } else {
            ProcessWait::Failed(
                WaitFailure::UnknownProcessId { process_id: prepared.process_id },
            )
        },
    }
}

impl<P, D, X> ProcessWait<P, D, X> {
    /// What follows on `event`. An event that the wait is not about to see changes nothing.
    pub open spec fn next(self, event: ProcessWaitEvent<D, X>) -> ProcessWait<P, D, X> {
        match (self, event) {
            (ProcessWait::Locate(request), ProcessWaitEvent::Located(known)) => if known {
                ProcessWait::Prepare(request)
            } else {
                ProcessWait::Failed(
                    WaitFailure::UnknownProcessId { process_id: request.process_id },
                )
            },
            (ProcessWait::Prepare(request), ProcessWaitEvent::Prepared(Ok(prepared))) => {
                ProcessWait::Inspect(request, prepared)
            },
            (ProcessWait::Prepare(request), ProcessWaitEvent::Prepared(Err(error))) => {
                ProcessWait::Failed(WaitFailure::Prepare(error))
            },
            (ProcessWait::Inspect(request, prepared), ProcessWaitEvent::Observed(snapshot)) => {
                match reason_not_to_wait(prepared.tty, request.pending_activity, snapshot) {
                    Some(reason) => ProcessWait::Collect(request, prepared, reason),
                    None => if request.announces_interaction {
                        ProcessWait::Announce(request, prepared)
                    } else {
                        ProcessWait::Watch(request, prepared)
                    },
                }
            },
            (ProcessWait::Announce(request, prepared), ProcessWaitEvent::Announced) => {
                ProcessWait::Watch(request, prepared)
            },
            (ProcessWait::Watch(request, prepared), ProcessWaitEvent::Observed(snapshot)) => {
                match reason_to_stop(prepared.tty, snapshot) {
                    Some(reason) => ProcessWait::Collect(request, prepared, reason),
                    None => ProcessWait::Sleep(request, prepared),
                }
            },
            (ProcessWait::Sleep(request, prepared), ProcessWaitEvent::Woken(wake)) => match wake {
                WakeEvent::StateChanged => ProcessWait::Watch(request, prepared),
                WakeEvent::ActivityChanged => ProcessWait::Collect(
                    request,
                    prepared,
                    ProcessWaitReason::Input,
                ),
                WakeEvent::OutputNotified => if prepared.tty {
                    ProcessWait::Watch(request, prepared)
                } else {
                    ProcessWait::Sleep(request, prepared)
                },
            },
            (
                ProcessWait::Collect(request, prepared, reason),
                ProcessWaitEvent::Collected(collected),
            ) => ProcessWait::Judge(request, prepared, reason, collected),
            (
                ProcessWait::Judge(request, prepared, reason, collected),
                ProcessWaitEvent::Judged { approval_cancelled, failure_message },
            ) => if approval_cancelled {
                ProcessWait::ReadDenial(prepared)
            } else {
                match failure_message {
                    Some(message) => ProcessWait::FinishApproval(prepared, message),
                    None => ProcessWait::Refresh(request, prepared, reason, collected),
                }
            },
            (ProcessWait::ReadDenial(prepared), ProcessWaitEvent::Denied(message)) => {
                ProcessWait::Release(
                    prepared.process_id,
                    WaitFailure::FailProcess { target: FailureTarget::Waited, message },
                )
            },
            (
                ProcessWait::FinishApproval(prepared, failure),
                ProcessWaitEvent::ApprovalFinished(finished),
            ) => ProcessWait::Release(
                prepared.process_id,
                match finished {
                    Ok(_) => WaitFailure::ProcessFailed { message: failure },
                    Err(message) => WaitFailure::FailProcess {
                        target: FailureTarget::Waited,
                        message,
                    },
                },
            ),
            (ProcessWait::Release(_, failure), ProcessWaitEvent::Released) => ProcessWait::Failed(
                failure,
            ),
            (
                ProcessWait::Refresh(request, prepared, reason, collected),
                ProcessWaitEvent::Refreshed(status),
            ) => wait_end(request, prepared, reason, collected, status),
            _ => self,
        }
    }

    /// A wait that has just been asked for.
    pub fn new(request: WaitProcessRequest<P>) -> (wait: ProcessWait<P, D, X>)
        ensures
            wait == ProcessWait::<P, D, X>::Locate(request),
    {
        ProcessWait::Locate(request)
    }

    /// Takes the wait on by what it has seen.
    pub fn advance(self, event: ProcessWaitEvent<D, X>) -> (next: ProcessWait<P, D, X>)
        ensures
            next == self.next(event),
    {
        match (self, event) {
            (ProcessWait::Locate(request), ProcessWaitEvent::Located(known)) => if known {
                ProcessWait::Prepare(request)
            } else {
                ProcessWait::Failed(
                    WaitFailure::UnknownProcessId { process_id: request.process_id },
                )
            },
            (ProcessWait::Prepare(request), ProcessWaitEvent::Prepared(Ok(prepared))) => {
                ProcessWait::Inspect(request, prepared)
            },
            (ProcessWait::Prepare(_), ProcessWaitEvent::Prepared(Err(error))) => {
                ProcessWait::Failed(WaitFailure::Prepare(error))
            },
            (ProcessWait::Inspect(request, prepared), ProcessWaitEvent::Observed(snapshot)) => {
                match stop_before_waiting(prepared.tty, request.pending_activity, snapshot) {
                    Some(reason) => ProcessWait::Collect(request, prepared, reason),
                    None => if request.announces_interaction {
                        ProcessWait::Announce(request, prepared)
                    } else {
                        ProcessWait::Watch(request, prepared)
                    },
                }
            },
            (ProcessWait::Announce(request, prepared), ProcessWaitEvent::Announced) => {
                ProcessWait::Watch(request, prepared)
            },
            (ProcessWait::Watch(request, prepared), ProcessWaitEvent::Observed(snapshot)) => {
                match stop_while_waiting(prepared.tty, snapshot) {
                    Some(reason) => ProcessWait::Collect(request, prepared, reason),
                    None => ProcessWait::Sleep(request, prepared),
                }
            },
            (ProcessWait::Sleep(request, prepared), ProcessWaitEvent::Woken(wake)) => match wake {
                WakeEvent::StateChanged => ProcessWait::Watch(request, prepared),
                WakeEvent::ActivityChanged => ProcessWait::Collect(
                    request,
                    prepared,
                    ProcessWaitReason::Input,
                ),
                WakeEvent::OutputNotified => if prepared.tty {
                    ProcessWait::Watch(request, prepared)
                } else {
                    ProcessWait::Sleep(request, prepared)
                },
            },
            (
                ProcessWait::Collect(request, prepared, reason),
                ProcessWaitEvent::Collected(collected),
            ) => ProcessWait::Judge(request, prepared, reason, collected),
            (
                ProcessWait::Judge(request, prepared, reason, collected),
                ProcessWaitEvent::Judged { approval_cancelled, failure_message },
            ) => if approval_cancelled {
                ProcessWait::ReadDenial(prepared)
            } else {
                match failure_message {
                    Some(message) => ProcessWait::FinishApproval(prepared, message),
                    None => ProcessWait::Refresh(request, prepared, reason, collected),
                }
            },
            (ProcessWait::ReadDenial(prepared), ProcessWaitEvent::Denied(message)) => {
                ProcessWait::Release(
                    prepared.process_id,
                    WaitFailure::FailProcess { target: FailureTarget::Waited, message },
                )
            },
            (
                ProcessWait::FinishApproval(prepared, failure),
                ProcessWaitEvent::ApprovalFinished(finished),
            ) => {
                let reported: WaitFailure<X> = match finished {
                    Ok(_) => WaitFailure::ProcessFailed { message: failure },
                    Err(message) => WaitFailure::FailProcess {
                        target: FailureTarget::Waited,
                        message,
                    },
                };
                ProcessWait::Release(prepared.process_id, reported)
            },
            (ProcessWait::Release(_, failure), ProcessWaitEvent::Released) => ProcessWait::Failed(
                failure,
            ),
            (
                ProcessWait::Refresh(request, prepared, reason, collected),
                ProcessWaitEvent::Refreshed(status),
            ) => end_wait(request, prepared, reason, collected, status),
            (wait, _) => wait,
        }
    }

    /// The event for the turn that the wait is about to send, where it is about to send one: an
    /// interaction with the process that writes nothing.
    pub fn interaction_to_send(&self) -> (interaction: Option<TerminalInteraction>)
        ensures
            match *self {
                ProcessWait::Announce(_, prepared) => interaction matches Some(sent)
                    && sent.call_id@ == prepared.call_id@ && sent.process_id == prepared.process_id
                    && sent.stdin@.len() == 0,
                _ => interaction is None,
            },
    {
        match self {
            ProcessWait::Announce(_, prepared) => Some(
                TerminalInteraction {
                    call_id: prepared.call_id.clone(),
                    process_id: prepared.process_id,
                    stdin: String::new(),
                },
            ),
            _ => None,
        }
    }
}

/// Why a look at the process ends the wait, where it does.
pub fn stop_while_waiting(tty: bool, snapshot: ProcessSnapshot) -> (reason: Option<
    ProcessWaitReason,
>)
    ensures
        reason == reason_to_stop(tty, snapshot),
{
    if snapshot.has_exited || snapshot.has_failed {
        Some(ProcessWaitReason::Completed)
    } else if tty && snapshot.buffered_bytes > 0 {
        Some(ProcessWaitReason::Output)
    } else {
        None
    }
}

/// Why a wait is over before it began, where it is.
pub fn stop_before_waiting(
    tty: bool,
    pending_activity: Option<InputQueueActivity>,
    snapshot: ProcessSnapshot,
) -> (reason: Option<ProcessWaitReason>)
    ensures
        reason == reason_not_to_wait(tty, pending_activity, snapshot),
{
    if snapshot.has_exited || snapshot.has_failed {
        Some(ProcessWaitReason::Completed)
    } else if pending_activity.is_some() {
        Some(ProcessWaitReason::Input)
    } else if tty && snapshot.buffered_bytes > 0 {
        Some(ProcessWaitReason::Output)
    } else {
        None
    }
}

/// How long output may still trickle in, in milliseconds: `trailing_grace_ms` after an end, and
/// not at all otherwise.
pub fn collection_grace(reason: ProcessWaitReason, trailing_grace_ms: u64) -> (grace_ms: u64)
    ensures
        grace_ms == (if reason == ProcessWaitReason::Completed {
            trailing_grace_ms
        } else {
            0
        }),
{
    match reason {
        ProcessWaitReason::Completed => trailing_grace_ms,
        ProcessWaitReason::Input => 0,
        ProcessWaitReason::Output => 0,
    }
}

/// What is told of the output and of the process.
fn output_of_wait<P, D>(
    request: WaitProcessRequest<P>,
    hook_command: String,
    collected: CollectedOutput<D>,
    event_call_id: String,
    process_id: Option<i32>,
    exit_code: Option<i32>,
    reason: ProcessWaitReason,
) -> (output: ExecCommandToolOutput<P, D>)
    ensures
        forall|prepared: PreparedProcess|
            prepared.hook_command == hook_command ==> output == #[trigger] wait_output(
                request,
                prepared,
                collected,
                event_call_id,
                process_id,
                exit_code,
                reason,
            ),
{
    let original_token_count: usize = if collected.approx_tokens > usize::MAX as u64 {
        usize::MAX
    } else {
        collected.approx_tokens as usize
    };
    let output_omitted_bytes: Option<usize> = if collected.omitted_bytes == 0 {
        None
    } else {
        Some(collected.omitted_bytes)
    };
    ExecCommandToolOutput {
        event_call_id,
        chunk_id: collected.chunk_id,
        wall_time: collected.wall_time,
        raw_output: collected.raw_output,
        truncation_policy: request.truncation_policy,
        max_output_tokens: request.max_output_tokens,
        process_id,
        exit_code,
        wait_reason: Some(reason),
        original_token_count: Some(original_token_count),
        output_omitted_bytes,
        hook_command: Some(hook_command),
    }
}

/// How a wait ends once it is known what became of the process.
fn end_wait<P, D, X>(
    request: WaitProcessRequest<P>,
    prepared: PreparedProcess,
    reason: ProcessWaitReason,
    collected: CollectedOutput<D>,
    status: RefreshedStatus,
) -> (end: ProcessWait<P, D, X>)
    ensures
        end == wait_end::<P, D, X>(request, prepared, reason, collected, status),
{
    match status {
        RefreshedStatus::Alive { exit_code, call_id, process_id } => ProcessWait::Completed(
            output_of_wait(
                request,
                prepared.hook_command,
                collected,
                call_id,
                Some(process_id),
                exit_code,
                reason,
            ),
        ),
        RefreshedStatus::Exited { exit_code, call_id, approval } => match approval {
            Ok(_) => ProcessWait::Completed(
                output_of_wait(
                    request,
                    prepared.hook_command,
                    collected,
                    call_id,
                    None,
                    exit_code,
                    ProcessWaitReason::Completed,
                ),
            ),
            Err(message) => ProcessWait::Failed(
                WaitFailure::FailProcess { target: FailureTarget::Entry, message },
            ),
        },
        RefreshedStatus::Unknown { has_exited, exit_code } => if has_exited {
            ProcessWait::Completed(
                output_of_wait(
                    request,
                    prepared.hook_command,
                    collected,
                    prepared.call_id,
                    None,
                    exit_code,
                    ProcessWaitReason::Completed,
                ),
            )
        } else {
            ProcessWait::Failed(
                WaitFailure::UnknownProcessId { process_id: prepared.process_id },
            )
        },
    }
}

} // verus!
