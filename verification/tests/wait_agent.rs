use codex_lifecycle::tool::FunctionCallError;
use codex_lifecycle::tool::InputQueueActivity;
use codex_lifecycle::tool::ToolPayload;
use codex_lifecycle::wait_agent::has_waitable_agent;
use codex_lifecycle::wait_agent::wait_for_activity;
use codex_lifecycle::wait_agent::ActivityEvent;
use codex_lifecycle::wait_agent::AgentSummary;
use codex_lifecycle::wait_agent::CollabAgentTool;
use codex_lifecycle::wait_agent::CollabAgentToolCallStatus;
use codex_lifecycle::wait_agent::Handler;
use codex_lifecycle::wait_agent::WaitAgentCall;
use codex_lifecycle::wait_agent::WaitAgentEvent;
use codex_lifecycle::wait_agent::WaitAgentFailure;
use codex_lifecycle::wait_agent::WaitAgentResult;
use codex_lifecycle::wait_agent::WaitAgentState;
use codex_lifecycle::wait_agent::WaitOutcome;

fn call(pending_activity: Option<InputQueueActivity>) -> WaitAgentCall {
    WaitAgentCall::new(
        "call".to_string(),
        "thread".to_string(),
        "/root".to_string(),
        pending_activity,
    )
}

fn agent(agent_name: &str, is_final: bool) -> AgentSummary {
    AgentSummary {
        agent_name: agent_name.to_string(),
        is_final,
    }
}

fn message(call: WaitAgentCall) -> String {
    call.into_result().expect("ended").expect("result").message
}

#[test]
fn outcomes_have_their_messages() {
    assert_eq!(
        WaitAgentResult::from_outcome(WaitOutcome::MailboxActivity).message,
        "Wait completed."
    );
    assert_eq!(
        WaitAgentResult::from_outcome(WaitOutcome::Steered).message,
        "Wait interrupted by new input."
    );
    let result = WaitAgentResult::from_outcome(WaitOutcome::NoLiveAgents);
    assert_eq!(result.message, "No live agents to wait for.");
    assert!(result.success_for_logging());
}

#[test]
fn pending_mailbox_activity_ends_the_wait_at_once() {
    let call = call(Some(InputQueueActivity::Mailbox)).advance(WaitAgentEvent::Emitted);
    assert_eq!(
        call.state,
        WaitAgentState::EmitCompleted(WaitOutcome::MailboxActivity)
    );
    assert_eq!(message(call.advance(WaitAgentEvent::Emitted)), "Wait completed.");
}

#[test]
fn pending_steer_ends_the_wait_at_once() {
    let call = call(Some(InputQueueActivity::Steer))
        .advance(WaitAgentEvent::Emitted)
        .advance(WaitAgentEvent::Emitted);
    assert_eq!(message(call), "Wait interrupted by new input.");
}

#[test]
fn items_report_the_wait_as_begun_and_as_completed() {
    let call = call(Some(InputQueueActivity::Mailbox));
    let started = call.item_to_emit().expect("item");
    assert_eq!(started.id, "call");
    assert_eq!(started.tool, CollabAgentTool::Wait);
    assert_eq!(started.status, CollabAgentToolCallStatus::InProgress);
    assert_eq!(started.sender_thread_id, "thread");
    assert!(started.receiver_thread_ids.is_empty());
    assert!(started.receiver_agents.is_empty());
    assert!(started.agents_states.is_empty());
    assert_eq!(started.prompt, None);
    assert_eq!(started.model, None);
    assert_eq!(started.reasoning_effort, None);
    let call = call.advance(WaitAgentEvent::Emitted);
    let completed = call.item_to_emit().expect("item");
    assert_eq!(completed.status, CollabAgentToolCallStatus::Completed);
    assert_eq!(completed.id, "call");
    assert!(call.advance(WaitAgentEvent::Emitted).item_to_emit().is_none());
}

#[test]
fn wait_without_other_live_agents_ends() {
    let agents = vec![agent("/root", false), agent("/root/done", true)];
    let call = call(None)
        .advance(WaitAgentEvent::Emitted)
        .advance(WaitAgentEvent::AgentsListed(Ok(agents)))
        .advance(WaitAgentEvent::Emitted);
    assert_eq!(message(call), "No live agents to wait for.");
}

#[test]
fn wait_for_a_live_agent_ends_with_the_next_activity() {
    let agents = vec![agent("/root", false), agent("/root/busy", false)];
    let call = call(None)
        .advance(WaitAgentEvent::Emitted)
        .advance(WaitAgentEvent::AgentsListed(Ok(agents)));
    assert_eq!(call.state, WaitAgentState::AwaitActivity);
    assert!(call.item_to_emit().is_none());
    let call = call
        .advance(WaitAgentEvent::Activity(ActivityEvent::Changed(
            InputQueueActivity::Mailbox,
        )))
        .advance(WaitAgentEvent::Emitted);
    assert_eq!(message(call), "Wait completed.");
}

#[test]
fn closed_activity_channel_is_fatal() {
    let call = call(None)
        .advance(WaitAgentEvent::Emitted)
        .advance(WaitAgentEvent::AgentsListed(Ok(vec![agent("/a", false)])))
        .advance(WaitAgentEvent::Activity(ActivityEvent::Closed))
        .advance(WaitAgentEvent::Emitted);
    assert_eq!(
        call.into_result(),
        Some(Err(FunctionCallError::Fatal(
            "wait_agent activity channel closed".to_string()
        )))
    );
}

#[test]
fn agents_that_cannot_be_listed_fail_the_wait() {
    let error = FunctionCallError::RespondToModel("no agents".to_string());
    let call = call(None)
        .advance(WaitAgentEvent::Emitted)
        .advance(WaitAgentEvent::AgentsListed(Err(error)));
    assert!(call.item_to_emit().is_none());
    assert_eq!(
        call.into_result(),
        Some(Err(FunctionCallError::RespondToModel(
            "no agents".to_string()
        )))
    );
}

#[test]
fn unfinished_wait_has_no_result_and_ignores_foreign_events() {
    let call = call(None).advance(WaitAgentEvent::Activity(ActivityEvent::Closed));
    assert_eq!(call.state, WaitAgentState::EmitStarted);
    assert!(call.into_result().is_none());
}

#[test]
fn only_other_agents_that_may_change_can_be_waited_for() {
    assert!(!has_waitable_agent(&Vec::new(), "me"));
    assert!(!has_waitable_agent(&vec![agent("me", false)], "me"));
    assert!(!has_waitable_agent(&vec![agent("you", true)], "me"));
    assert!(has_waitable_agent(
        &vec![agent("me", false), agent("you", false)],
        "me"
    ));
}

#[test]
fn activity_channel_tells_the_outcome() {
    assert_eq!(
        wait_for_activity(ActivityEvent::Changed(InputQueueActivity::Steer)),
        Ok(WaitOutcome::Steered)
    );
    assert_eq!(
        wait_for_activity(ActivityEvent::Closed),
        Err(WaitAgentFailure::ActivityChannelClosed)
    );
}

#[test]
fn wait_agent_handler_takes_function_calls() {
    let handler = Handler;
    assert_eq!(handler.tool_name(), "wait_agent");
    assert!(handler.matches_kind(&ToolPayload::Function {
        arguments: "{}".to_string()
    }));
    assert!(!handler.matches_kind(&ToolPayload::Other));
}

#[test]
fn wait_agent_handler_reads_the_arguments_of_function_calls_alone() {
    let handler = Handler;
    assert_eq!(
        handler.arguments(ToolPayload::Function {
            arguments: "{}".to_string()
        }),
        Ok("{}".to_string())
    );
    assert_eq!(
        handler.arguments(ToolPayload::Other),
        Err(FunctionCallError::RespondToModel(
            "collab handler received unsupported payload".to_string()
        ))
    );
}
