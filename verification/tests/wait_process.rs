use codex_lifecycle::process_wait::WaitProcessRequest;
use codex_lifecycle::tool::FunctionCallError;
use codex_lifecycle::tool::InputQueueActivity;
use codex_lifecycle::tool::ToolPayload;
use codex_lifecycle::wait_process::WaitProcessArgs;
use codex_lifecycle::wait_process::WaitProcessHandler;

#[test]
fn wait_process_handler_takes_function_calls_in_parallel() {
    let handler = WaitProcessHandler;
    assert_eq!(handler.tool_name(), "wait_process");
    assert!(handler.supports_parallel_tool_calls());
    assert!(handler.matches_kind(&ToolPayload::Function {
        arguments: String::new()
    }));
    assert!(!handler.matches_kind(&ToolPayload::Other));
}

#[test]
fn other_payloads_are_answered_to_the_model() {
    let handler = WaitProcessHandler;
    assert_eq!(
        handler.arguments(ToolPayload::Function {
            arguments: "{\"session_id\":1}".to_string()
        }),
        Ok("{\"session_id\":1}".to_string())
    );
    assert_eq!(
        handler.arguments(ToolPayload::Other),
        Err(FunctionCallError::RespondToModel(
            "wait_process handler received unsupported payload".to_string()
        ))
    );
}

#[test]
fn request_names_the_session_and_is_announced() {
    let args = WaitProcessArgs {
        session_id: 9,
        max_output_tokens: Some(100),
    };
    assert_eq!(
        WaitProcessHandler.request(args, "policy", Some(InputQueueActivity::Steer)),
        WaitProcessRequest {
            process_id: 9,
            max_output_tokens: Some(100),
            truncation_policy: "policy",
            announces_interaction: true,
            pending_activity: Some(InputQueueActivity::Steer),
        }
    );
}

#[test]
fn failed_wait_is_answered_to_the_model() {
    let handler = WaitProcessHandler;
    assert_eq!(handler.response(Ok(3)), Ok(3));
    assert_eq!(
        handler.response::<i32>(Err("Unknown process id 9".to_string())),
        Err(FunctionCallError::RespondToModel(
            "wait_process failed: Unknown process id 9".to_string()
        ))
    );
}
