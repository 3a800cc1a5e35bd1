use codex_lifecycle::process_wait::collection_grace;
use codex_lifecycle::process_wait::stop_before_waiting;
use codex_lifecycle::process_wait::stop_while_waiting;
use codex_lifecycle::process_wait::CollectedOutput;
use codex_lifecycle::process_wait::ExecCommandToolOutput;
use codex_lifecycle::process_wait::FailureTarget;
use codex_lifecycle::process_wait::PreparedProcess;
use codex_lifecycle::process_wait::ProcessSnapshot;
use codex_lifecycle::process_wait::ProcessWait;
use codex_lifecycle::process_wait::ProcessWaitEvent;
use codex_lifecycle::process_wait::ProcessWaitReason;
use codex_lifecycle::process_wait::RefreshedStatus;
use codex_lifecycle::process_wait::WaitFailure;
use codex_lifecycle::process_wait::WaitProcessRequest;
use codex_lifecycle::process_wait::WakeEvent;
use codex_lifecycle::tool::InputQueueActivity;

type Wait = ProcessWait<&'static str, u64, &'static str>;

const RUNNING: ProcessSnapshot = ProcessSnapshot {
    has_exited: false,
    has_failed: false,
    buffered_bytes: 0,
};

const PRINTING: ProcessSnapshot = ProcessSnapshot {
    has_exited: false,
    has_failed: false,
    buffered_bytes: 5,
};

const EXITED: ProcessSnapshot = ProcessSnapshot {
    has_exited: true,
    has_failed: false,
    buffered_bytes: 5,
};

const FAILED: ProcessSnapshot = ProcessSnapshot {
    has_exited: false,
    has_failed: true,
    buffered_bytes: 0,
};

fn request(pending_activity: Option<InputQueueActivity>) -> WaitProcessRequest<&'static str> {
    WaitProcessRequest {
        process_id: 1,
        max_output_tokens: Some(10),
        truncation_policy: "policy",
        announces_interaction: true,
        pending_activity,
    }
}

fn prepared(tty: bool) -> PreparedProcess {
    PreparedProcess {
        process_id: 1,
        call_id: "call".to_string(),
        hook_command: "sleep 1".to_string(),
        tty,
    }
}

fn located(tty: bool, pending_activity: Option<InputQueueActivity>) -> Wait {
    Wait::new(request(pending_activity))
        .advance(ProcessWaitEvent::Located(true))
        .advance(ProcessWaitEvent::Prepared(Ok(prepared(tty))))
}

fn watching(tty: bool) -> Wait {
    located(tty, None)
        .advance(ProcessWaitEvent::Observed(RUNNING))
        .advance(ProcessWaitEvent::Announced)
}

fn collected(approx_tokens: u64, omitted_bytes: usize) -> CollectedOutput<u64> {
    CollectedOutput {
        raw_output: vec![104, 105],
        approx_tokens,
        omitted_bytes,
        chunk_id: "chunk".to_string(),
        wall_time: 42,
    }
}

fn refreshing(wait: Wait, output: CollectedOutput<u64>) -> Wait {
    wait.advance(ProcessWaitEvent::Collected(output))
        .advance(ProcessWaitEvent::Judged {
            approval_cancelled: false,
            failure_message: None,
        })
}

fn reason(wait: &Wait) -> Option<ProcessWaitReason> {
    match wait {
        ProcessWait::Collect(_, _, reason) => Some(*reason),
        _ => None,
    }
}

fn output(wait: Wait) -> ExecCommandToolOutput<&'static str, u64> {
    match wait {
        ProcessWait::Completed(output) => output,
        other => panic!("unfinished wait: {other:?}"),
    }
}

fn failure(wait: Wait) -> WaitFailure<&'static str> {
    match wait {
        ProcessWait::Failed(failure) => failure,
        other => panic!("wait did not fail: {other:?}"),
    }
}

#[test]
fn unknown_process_fails_the_wait() {
    let wait = Wait::new(request(None)).advance(ProcessWaitEvent::Located(false));
    assert_eq!(failure(wait), WaitFailure::UnknownProcessId { process_id: 1 });
}

#[test]
fn process_that_cannot_be_prepared_fails_the_wait() {
    let wait = Wait::new(request(None))
        .advance(ProcessWaitEvent::Located(true))
        .advance(ProcessWaitEvent::Prepared(Err("busy")));
    assert_eq!(failure(wait), WaitFailure::Prepare("busy"));
}

#[test]
fn end_comes_before_input_and_input_before_output() {
    let steer = Some(InputQueueActivity::Steer);
    for ended in [EXITED, FAILED] {
        assert_eq!(
            reason(&located(true, steer).advance(ProcessWaitEvent::Observed(ended))),
            Some(ProcessWaitReason::Completed)
        );
    }
    assert_eq!(
        reason(&located(true, steer).advance(ProcessWaitEvent::Observed(PRINTING))),
        Some(ProcessWaitReason::Input)
    );
    assert_eq!(
        reason(&located(true, None).advance(ProcessWaitEvent::Observed(PRINTING))),
        Some(ProcessWaitReason::Output)
    );
    assert_eq!(stop_before_waiting(true, None, RUNNING), None);
    assert_eq!(stop_before_waiting(false, None, PRINTING), None);
    assert_eq!(
        stop_before_waiting(false, steer, PRINTING),
        Some(ProcessWaitReason::Input)
    );
    assert_eq!(stop_while_waiting(false, PRINTING), None);
    assert_eq!(
        stop_while_waiting(true, PRINTING),
        Some(ProcessWaitReason::Output)
    );
    assert_eq!(
        stop_while_waiting(true, EXITED),
        Some(ProcessWaitReason::Completed)
    );
}

#[test]
fn wait_is_announced_once_it_has_to_wait() {
    let wait = located(false, None).advance(ProcessWaitEvent::Observed(PRINTING));
    let interaction = wait.interaction_to_send().expect("interaction");
    assert_eq!(interaction.call_id, "call");
    assert_eq!(interaction.process_id, 1);
    assert_eq!(interaction.stdin, "");
    let wait = wait.advance(ProcessWaitEvent::Announced);
    assert!(wait.interaction_to_send().is_none());
    assert!(matches!(wait, ProcessWait::Watch(_, _)));
}

#[test]
fn wait_that_need_not_be_announced_watches_at_once() {
    let mut quiet = request(None);
    quiet.announces_interaction = false;
    let wait = Wait::new(quiet)
        .advance(ProcessWaitEvent::Located(true))
        .advance(ProcessWaitEvent::Prepared(Ok(prepared(false))))
        .advance(ProcessWaitEvent::Observed(RUNNING));
    assert!(matches!(wait, ProcessWait::Watch(_, _)));
}

#[test]
fn sleeping_wait_is_woken_by_state_input_and_terminal_output() {
    let asleep = |tty: bool| watching(tty).advance(ProcessWaitEvent::Observed(RUNNING));
    assert!(matches!(asleep(true), ProcessWait::Sleep(_, _)));
    assert!(matches!(
        asleep(true).advance(ProcessWaitEvent::Woken(WakeEvent::StateChanged)),
        ProcessWait::Watch(_, _)
    ));
    assert!(matches!(
        asleep(true).advance(ProcessWaitEvent::Woken(WakeEvent::OutputNotified)),
        ProcessWait::Watch(_, _)
    ));
    assert!(matches!(
        asleep(false).advance(ProcessWaitEvent::Woken(WakeEvent::OutputNotified)),
        ProcessWait::Sleep(_, _)
    ));
    assert_eq!(
        reason(&asleep(false).advance(ProcessWaitEvent::Woken(WakeEvent::ActivityChanged))),
        Some(ProcessWaitReason::Input)
    );
    assert!(matches!(
        asleep(false).advance(ProcessWaitEvent::Observed(EXITED)),
        ProcessWait::Sleep(_, _)
    ));
}

#[test]
fn process_without_terminal_is_not_stopped_by_output() {
    let wait = watching(false).advance(ProcessWaitEvent::Observed(PRINTING));
    assert!(matches!(wait, ProcessWait::Sleep(_, _)));
    assert_eq!(
        reason(&watching(true).advance(ProcessWaitEvent::Observed(PRINTING))),
        Some(ProcessWaitReason::Output)
    );
}

#[test]
fn only_an_end_leaves_time_for_trailing_output() {
    assert_eq!(collection_grace(ProcessWaitReason::Completed, 100), 100);
    assert_eq!(collection_grace(ProcessWaitReason::Input, 100), 0);
    assert_eq!(collection_grace(ProcessWaitReason::Output, 100), 0);
}

#[test]
fn live_process_keeps_its_identity_and_the_reason() {
    let wait = watching(true).advance(ProcessWaitEvent::Observed(PRINTING));
    let wait = refreshing(wait, collected(3, 0)).advance(ProcessWaitEvent::Refreshed(
        RefreshedStatus::Alive {
            exit_code: None,
            call_id: "live".to_string(),
            process_id: 1,
        },
    ));
    assert_eq!(
        output(wait),
        ExecCommandToolOutput {
            event_call_id: "live".to_string(),
            chunk_id: "chunk".to_string(),
            wall_time: 42,
            raw_output: vec![104, 105],
            truncation_policy: "policy",
            max_output_tokens: Some(10),
            process_id: Some(1),
            exit_code: None,
            wait_reason: Some(ProcessWaitReason::Output),
            original_token_count: Some(3),
            output_omitted_bytes: None,
            hook_command: Some("sleep 1".to_string()),
        }
    );
}

#[test]
fn process_that_ends_while_output_is_collected_has_completed() {
    let steer = Some(InputQueueActivity::Steer);
    let wait = located(false, steer).advance(ProcessWaitEvent::Observed(RUNNING));
    let told = output(
        refreshing(wait, collected(9, 7)).advance(ProcessWaitEvent::Refreshed(
            RefreshedStatus::Exited {
                exit_code: Some(0),
                call_id: "entry".to_string(),
                approval: Ok(()),
            },
        )),
    );
    assert_eq!(told.process_id, None);
    assert_eq!(told.exit_code, Some(0));
    assert_eq!(told.event_call_id, "entry");
    assert_eq!(told.wait_reason, Some(ProcessWaitReason::Completed));
    assert_eq!(told.output_omitted_bytes, Some(7));
}

#[test]
fn unknown_process_that_ended_has_completed() {
    let wait = located(false, None).advance(ProcessWaitEvent::Observed(EXITED));
    let told = output(
        refreshing(wait, collected(1, 0)).advance(ProcessWaitEvent::Refreshed(
            RefreshedStatus::Unknown {
                has_exited: true,
                exit_code: Some(2),
            },
        )),
    );
    assert_eq!(told.event_call_id, "call");
    assert_eq!(told.exit_code, Some(2));
    assert_eq!(told.process_id, None);
    assert_eq!(told.wait_reason, Some(ProcessWaitReason::Completed));
}

#[test]
fn unknown_process_that_did_not_end_fails_the_wait() {
    let wait = located(false, None).advance(ProcessWaitEvent::Observed(FAILED));
    let wait = refreshing(wait, collected(1, 0)).advance(ProcessWaitEvent::Refreshed(
        RefreshedStatus::Unknown {
            has_exited: false,
            exit_code: None,
        },
    ));
    assert_eq!(failure(wait), WaitFailure::UnknownProcessId { process_id: 1 });
}

#[test]
fn approval_that_cannot_be_finished_fails_the_ended_process() {
    let wait = located(false, None).advance(ProcessWaitEvent::Observed(EXITED));
    let wait = refreshing(wait, collected(1, 0)).advance(ProcessWaitEvent::Refreshed(
        RefreshedStatus::Exited {
            exit_code: Some(0),
            call_id: "entry".to_string(),
            approval: Err("denied".to_string()),
        },
    ));
    assert_eq!(
        failure(wait),
        WaitFailure::FailProcess {
            target: FailureTarget::Entry,
            message: "denied".to_string(),
        }
    );
}

fn judged(approval_cancelled: bool, failure_message: Option<&str>) -> Wait {
    located(false, None)
        .advance(ProcessWaitEvent::Observed(EXITED))
        .advance(ProcessWaitEvent::Collected(collected(1, 0)))
        .advance(ProcessWaitEvent::Judged {
            approval_cancelled,
            failure_message: failure_message.map(str::to_string),
        })
}

#[test]
fn denied_network_releases_the_process_and_fails_it() {
    let wait = judged(true, Some("crashed"));
    assert!(matches!(wait, ProcessWait::ReadDenial(_)));
    let wait = wait.advance(ProcessWaitEvent::Denied("no network".to_string()));
    assert!(matches!(wait, ProcessWait::Release(1, _)));
    assert_eq!(
        failure(wait.advance(ProcessWaitEvent::Released)),
        WaitFailure::FailProcess {
            target: FailureTarget::Waited,
            message: "no network".to_string(),
        }
    );
}

#[test]
fn failed_process_is_released_and_reported() {
    let wait = judged(false, Some("crashed")).advance(ProcessWaitEvent::ApprovalFinished(Ok(())));
    assert!(matches!(wait, ProcessWait::Release(1, _)));
    assert_eq!(
        failure(wait.advance(ProcessWaitEvent::Released)),
        WaitFailure::ProcessFailed {
            message: "crashed".to_string(),
        }
    );
}

#[test]
fn failed_process_whose_approval_cannot_be_finished_fails_with_that() {
    let wait = judged(false, Some("crashed"))
        .advance(ProcessWaitEvent::ApprovalFinished(Err("denied".to_string())))
        .advance(ProcessWaitEvent::Released);
    assert_eq!(
        failure(wait),
        WaitFailure::FailProcess {
            target: FailureTarget::Waited,
            message: "denied".to_string(),
        }
    );
}

#[test]
fn finished_wait_ignores_every_event() {
    let wait = Wait::new(request(None))
        .advance(ProcessWaitEvent::Located(false))
        .advance(ProcessWaitEvent::Located(true))
        .advance(ProcessWaitEvent::Released);
    assert_eq!(failure(wait), WaitFailure::UnknownProcessId { process_id: 1 });
}

#[test]
fn token_counts_are_capped_at_the_largest_count() {
    let wait = located(false, None).advance(ProcessWaitEvent::Observed(EXITED));
    let told = output(
        refreshing(wait, collected(u64::MAX, 0)).advance(ProcessWaitEvent::Refreshed(
            RefreshedStatus::Unknown {
                has_exited: true,
                exit_code: None,
            },
        )),
    );
    assert_eq!(told.original_token_count, Some(usize::MAX));
}
