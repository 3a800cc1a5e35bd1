//! The tool that waits for a running process.

use vstd::prelude::*;

use crate::process_wait::WaitProcessRequest;
use crate::tool::{FunctionCallError, InputQueueActivity, ToolPayload};

verus! {

/// What the tool is called with.
#[derive(Clone, Copy, Debug, PartialEq, Eq)]
pub struct WaitProcessArgs {
    pub session_id: i32,
    pub max_output_tokens: Option<usize>,
}

/// The handler of the tool.
#[derive(Debug)]
pub struct WaitProcessHandler;

impl WaitProcessHandler {
    /// The name under which the tool is called.
    pub fn tool_name(&self) -> (name: &'static str)
        ensures
            name@ == "wait_process"@,
    {
        "wait_process"
    }

    /// Whether several calls may run at once: they may.
    pub fn supports_parallel_tool_calls(&self) -> (parallel: bool)
        ensures
            parallel,
    {
        true
    }

    /// Whether the tool takes `payload`: it takes function calls.
    pub fn matches_kind(&self, payload: &ToolPayload) -> (matches: bool)
        ensures
            matches == (payload is Function),
    {
        payload.is_function()
    }

    /// The arguments of a function call. The model is told of any other payload.
    pub fn arguments(&self, payload: ToolPayload) -> (arguments: Result<String, FunctionCallError>)
        ensures
            match payload {
                ToolPayload::Function { arguments: given } => arguments == Ok::<
                    String,
                    FunctionCallError,
                >(given),
                ToolPayload::Other => arguments matches Err(
                    FunctionCallError::RespondToModel(message),
                ) && message@ == "wait_process handler received unsupported payload"@,
            },
    {
        match payload {
            ToolPayload::Function { arguments } => Ok(arguments),
            ToolPayload::Other => Err(
                FunctionCallError::RespondToModel(
                    "wait_process handler received unsupported payload".to_owned(),
                ),
            ),
        }
    }

    /// What the process manager is asked for: a wait for the session of the arguments that the
    /// turn is told of.
    pub fn request<P>(
        &self,
        args: WaitProcessArgs,
        truncation_policy: P,
        pending_activity: Option<InputQueueActivity>,
    ) -> (request: WaitProcessRequest<P>)
        ensures
            request == (WaitProcessRequest {
                process_id: args.session_id,
                max_output_tokens: args.max_output_tokens,
                truncation_policy,
                announces_interaction: true,
                pending_activity,
            }),
    {
        WaitProcessRequest {
            process_id: args.session_id,
            max_output_tokens: args.max_output_tokens,
            truncation_policy,
            announces_interaction: true,
            pending_activity,
        }
    }

    /// What the call returns: the output, or for the model the error that the process manager
    /// reported.
    pub fn response<O>(&self, waited: Result<O, String>) -> (response: Result<
        O,
        FunctionCallError,
    >)
        ensures
            match waited {
                Ok(output) => response == Ok::<O, FunctionCallError>(output),
                Err(error) => response matches Err(FunctionCallError::RespondToModel(message))
                    && message@ == "wait_process failed: "@ + error@,
            },
    {
        match waited {
            Ok(output) => Ok(output),
            Err(error) => {
                let mut message: String = "wait_process failed: ".to_owned();
                message.append(error.as_str());
                Err(FunctionCallError::RespondToModel(message))
            },
        }
    }
}

} // verus!
