//! The tool that waits for other agents.

use vstd::prelude::*;

use crate::text::same_text;
use crate::tool::{FunctionCallError, InputQueueActivity, ToolPayload};

verus! {

/// The name under which the tool is called.
pub const WAIT_AGENT_TOOL: &'static str = "wait_agent";

/// How a wait for other agents ends.
#[derive(Clone, Copy, Debug, PartialEq, Eq, Structural)]
pub enum WaitOutcome {
    /// A message arrived.
    MailboxActivity,
    /// New input interrupted the wait.
    Steered,
    /// There was nobody to wait for.
    NoLiveAgents,
}

/// What the input queue's activity channel shows a waiting call.
#[derive(Clone, Copy, Debug, PartialEq, Eq, Structural)]
pub enum ActivityEvent {
    /// The channel changed, and this is the activity that it holds now.
    Changed(InputQueueActivity),
    /// The channel is closed.
    Closed,
}

/// An agent that can be waited for, as far as a wait reads it.
#[derive(Debug, PartialEq, Eq)]
pub struct AgentSummary {
    pub agent_name: String,
    /// Whether the agent's status will change no more.
    pub is_final: bool,
}

/// What the model is told of a wait.
#[derive(Debug, PartialEq, Eq)]
pub struct WaitAgentResult {
    pub message: String,
}

/// How the end of a wait is told.
pub open spec fn outcome_message(outcome: WaitOutcome) -> Seq<char> {
    match outcome {
        WaitOutcome::MailboxActivity => "Wait completed."@,
        WaitOutcome::Steered => "Wait interrupted by new input."@,
        WaitOutcome::NoLiveAgents => "No live agents to wait for."@,
    }
}

/// How an activity ends a wait.
pub open spec fn outcome_of_activity(activity: InputQueueActivity) -> WaitOutcome {
    match activity {
        InputQueueActivity::Mailbox => WaitOutcome::MailboxActivity,
        InputQueueActivity::Steer => WaitOutcome::Steered,
    }
}

impl WaitAgentResult {
    /// What the model is told when a wait ends in `outcome`.
    pub fn from_outcome(outcome: WaitOutcome) -> (result: WaitAgentResult)
        ensures
            result.message@ == outcome_message(outcome),
    {
        let message: &str = match outcome {
            WaitOutcome::MailboxActivity => "Wait completed.",
            WaitOutcome::Steered => "Wait interrupted by new input.",
            WaitOutcome::NoLiveAgents => "No live agents to wait for.",
        };
        WaitAgentResult { message: message.to_owned() }
    }

    /// Whether the result is logged as a success: it always is.
    pub fn success_for_logging(&self) -> (success: bool)
        ensures
            success,
    {
        true
    }
}

/// How an activity ends a wait.
fn activity_outcome(activity: InputQueueActivity) -> (outcome: WaitOutcome)
    ensures
        outcome == outcome_of_activity(activity),
{
    match activity {
        InputQueueActivity::Mailbox => WaitOutcome::MailboxActivity,
        InputQueueActivity::Steer => WaitOutcome::Steered,
    }
}

/// Why a wait fails.
#[derive(Debug, PartialEq, Eq)]
pub enum WaitAgentFailure {
    /// The agents could not be listed.
    Listing(FunctionCallError),
    /// Nobody will report activity any more.
    ActivityChannelClosed,
}

impl WaitAgentFailure {
    /// The failure as the caller of the tool sees it.
    pub fn into_error(self) -> (error: FunctionCallError)
        ensures
            match self {
                WaitAgentFailure::Listing(listing) => error == listing,
                WaitAgentFailure::ActivityChannelClosed => error matches FunctionCallError::Fatal(
                    message,
                ) && message@ == "wait_agent activity channel closed"@,
            },
    {
        match self {
            WaitAgentFailure::Listing(listing) => listing,
            WaitAgentFailure::ActivityChannelClosed => FunctionCallError::Fatal(
                "wait_agent activity channel closed".to_owned(),
            ),
        }
    }
}

/// How a look at the activity channel ends a wait: by the activity that it shows, or in failure
/// once it is closed.
pub open spec fn activity_result(event: ActivityEvent) -> Result<WaitOutcome, WaitAgentFailure> {
    match event {
        ActivityEvent::Changed(activity) => Ok(outcome_of_activity(activity)),
        ActivityEvent::Closed => Err(WaitAgentFailure::ActivityChannelClosed),
    }
}

/// How a look at the activity channel ends a wait.
pub fn wait_for_activity(event: ActivityEvent) -> (ended: Result<WaitOutcome, WaitAgentFailure>)
    ensures
        ended == activity_result(event),
{
    match event {
        ActivityEvent::Changed(activity) => Ok(activity_outcome(activity)),
        ActivityEvent::Closed => Err(WaitAgentFailure::ActivityChannelClosed),
    }
}

/// `agent` is another agent than `current_agent_name` and may still change.
pub open spec fn waitable(agent: AgentSummary, current_agent_name: Seq<char>) -> bool {
    agent.agent_name@ != current_agent_name && !agent.is_final
}

/// Some agent can be waited for.
pub open spec fn any_waitable(agents: Seq<AgentSummary>, current_agent_name: Seq<char>) -> bool {
    exists|i: int| 0 <= i < agents.len() && waitable(#[trigger] agents[i], current_agent_name)
}

/// Whether some agent can be waited for.
pub fn has_waitable_agent(agents: &Vec<AgentSummary>, current_agent_name: &str) -> (found: bool)
    ensures
        found == any_waitable(agents@, current_agent_name@),
{
    let mut index: usize = 0;
    while index < agents.len()
        invariant
            index <= agents@.len(),
            forall|i: int|
                0 <= i < index ==> !waitable(#[trigger] agents@[i], current_agent_name@),
        decreases agents@.len() - index,
    {
        let agent: &AgentSummary = &agents[index];
        if !same_text(agent.agent_name.as_str(), current_agent_name) && !agent.is_final {
            assert(waitable(agents@[index as int], current_agent_name@));
            return true;
        }
        index = index + 1;
    }
    false
}

/// The collaboration tool that an item reports.
#[derive(Clone, Copy, Debug, PartialEq, Eq, Structural)]
pub enum CollabAgentTool {
    Wait,
}

/// How far a collaboration call has come.
#[derive(Clone, Copy, Debug, PartialEq, Eq, Structural)]
pub enum CollabAgentToolCallStatus {
    InProgress,
    Completed,
}

/// The item that reports a collaboration call to the turn.
#[derive(Debug, PartialEq, Eq)]
pub struct CollabAgentToolCallItem {
    pub id: String,
    pub tool: CollabAgentTool,
    pub status: CollabAgentToolCallStatus,
    pub sender_thread_id: String,
    pub receiver_thread_ids: Vec<String>,
    pub receiver_agents: Vec<String>,
    pub prompt: Option<String>,
    pub model: Option<String>,
    pub reasoning_effort: Option<String>,
    pub agents_states: Vec<(String, String)>,
}

impl CollabAgentToolCallItem {
    /// The item reports the wait `id` of `sender_thread_id` as `status`, and nothing besides.
    pub open spec fn reports_wait(
        self,
        id: Seq<char>,
        sender_thread_id: Seq<char>,
        status: CollabAgentToolCallStatus,
    ) -> bool {
        &&& self.id@ == id
        &&& self.tool == CollabAgentTool::Wait
        &&& self.status == status
        &&& self.sender_thread_id@ == sender_thread_id
        &&& self.receiver_thread_ids@.len() == 0
        &&& self.receiver_agents@.len() == 0
        &&& self.prompt is None
        &&& self.model is None
        &&& self.reasoning_effort is None
        &&& self.agents_states@.len() == 0
    }
}

/// What a call of the tool is about to do.
#[derive(Debug, PartialEq, Eq)]
pub enum WaitAgentState {
    /// Emit the item that reports the wait as begun.
    EmitStarted,
    /// List the agents.
    ListAgents,
    /// Wait until the activity channel changes or closes.
    AwaitActivity,
    /// Emit the item that reports the wait as completed.
    EmitCompleted(WaitOutcome),
    /// Return what the model is told.
    Done(WaitOutcome),
    /// Return the failure.
    Failed(WaitAgentFailure),
}

/// What a call of the tool has just seen.
#[derive(Debug, PartialEq, Eq)]
pub enum WaitAgentEvent {
    /// The item was emitted.
    Emitted,
    /// The agents were listed, or could not be.
    AgentsListed(Result<Vec<AgentSummary>, FunctionCallError>),
    /// The activity channel changed or closed.
    Activity(ActivityEvent),
}

/// The state that follows `state` on `event`, for the agent `current_agent_name` with
/// `pending_activity` from before. An event that the state does not wait for changes nothing.
pub open spec fn next_wait_state(
    state: WaitAgentState,
    event: WaitAgentEvent,
    current_agent_name: Seq<char>,
    pending_activity: Option<InputQueueActivity>,
) -> WaitAgentState {
    match (state, event) {
        (WaitAgentState::EmitStarted, WaitAgentEvent::Emitted) => match pending_activity {
            Some(activity) => WaitAgentState::EmitCompleted(outcome_of_activity(activity)),
            None => WaitAgentState::ListAgents,
        },
        (WaitAgentState::ListAgents, WaitAgentEvent::AgentsListed(Ok(agents))) => {
            if any_waitable(agents@, current_agent_name) {
                WaitAgentState::AwaitActivity
            } else {
                WaitAgentState::EmitCompleted(WaitOutcome::NoLiveAgents)
            }
        },
        (WaitAgentState::ListAgents, WaitAgentEvent::AgentsListed(Err(error))) => {
            WaitAgentState::Failed(WaitAgentFailure::Listing(error))
        },
        (WaitAgentState::AwaitActivity, WaitAgentEvent::Activity(seen)) => match activity_result(
            seen,
        ) {
            Ok(outcome) => WaitAgentState::EmitCompleted(outcome),
            Err(failure) => WaitAgentState::Failed(failure),
        },
        (WaitAgentState::EmitCompleted(outcome), WaitAgentEvent::Emitted) => {
            WaitAgentState::Done(outcome)
        },
        _ => state,
    }
}

/// A call of the tool: who made it, what was pending when it came in, and how far it has come.
#[derive(Debug)]
pub struct WaitAgentCall {
    pub call_id: String,
    pub sender_thread_id: String,
    pub current_agent_name: String,
    pub pending_activity: Option<InputQueueActivity>,
    pub state: WaitAgentState,
}

impl WaitAgentCall {
    /// A call that has just come in.
    pub fn new(
        call_id: String,
        sender_thread_id: String,
        current_agent_name: String,
        pending_activity: Option<InputQueueActivity>,
    ) -> (call: WaitAgentCall)
        ensures
            call.call_id@ == call_id@,
            call.sender_thread_id@ == sender_thread_id@,
            call.current_agent_name@ == current_agent_name@,
            call.pending_activity == pending_activity,
            call.state == WaitAgentState::EmitStarted,
    {
        WaitAgentCall {
            call_id,
            sender_thread_id,
            current_agent_name,
            pending_activity,
            state: WaitAgentState::EmitStarted,
        }
    }

    /// The item that reports the call with the given status.
    fn item(&self, status: CollabAgentToolCallStatus) -> (item: CollabAgentToolCallItem)
        ensures
            item.reports_wait(self.call_id@, self.sender_thread_id@, status),
    {
        CollabAgentToolCallItem {
            id: self.call_id.clone(),
            tool: CollabAgentTool::Wait,
            status,
            sender_thread_id: self.sender_thread_id.clone(),
            receiver_thread_ids: Vec::new(),
            receiver_agents: Vec::new(),
            prompt: None,
            model: None,
            reasoning_effort: None,
            agents_states: Vec::new(),
        }
    }

    /// The item that the call is about to emit, where it is about to emit one.
    pub fn item_to_emit(&self) -> (item: Option<CollabAgentToolCallItem>)
        ensures
            match self.state {
                WaitAgentState::EmitStarted => item matches Some(started) && started.reports_wait(
                    self.call_id@,
                    self.sender_thread_id@,
                    CollabAgentToolCallStatus::InProgress,
                ),
                WaitAgentState::EmitCompleted(_) => item matches Some(completed)
                    && completed.reports_wait(
                    self.call_id@,
                    self.sender_thread_id@,
                    CollabAgentToolCallStatus::Completed,
                ),
                _ => item is None,
            },
    {
        match self.state {
            WaitAgentState::EmitStarted => Some(self.item(CollabAgentToolCallStatus::InProgress)),
            WaitAgentState::EmitCompleted(_) => Some(
                self.item(CollabAgentToolCallStatus::Completed),
            ),
            _ => None,
        }
    }

    /// Takes the call on by what it has seen: pending activity ends the wait once it is
    /// reported as begun, a list without other live agents ends it too, and otherwise the next
    /// activity does.
    pub fn advance(self, event: WaitAgentEvent) -> (next: WaitAgentCall)
        ensures
            next.call_id == self.call_id,
            next.sender_thread_id == self.sender_thread_id,
            next.current_agent_name == self.current_agent_name,
            next.pending_activity == self.pending_activity,
            next.state == next_wait_state(
                self.state,
                event,
                self.current_agent_name@,
                self.pending_activity,
            ),
    {
        let state: WaitAgentState = match (self.state, event) {
            (WaitAgentState::EmitStarted, WaitAgentEvent::Emitted) => match self.pending_activity {
                Some(activity) => WaitAgentState::EmitCompleted(activity_outcome(activity)),
                None => WaitAgentState::ListAgents,
            },
            (WaitAgentState::ListAgents, WaitAgentEvent::AgentsListed(Ok(agents))) => {
                if has_waitable_agent(&agents, self.current_agent_name.as_str()) {
                    WaitAgentState::AwaitActivity
                } else {
                    WaitAgentState::EmitCompleted(WaitOutcome::NoLiveAgents)
                }
            },
            (WaitAgentState::ListAgents, WaitAgentEvent::AgentsListed(Err(error))) => {
                WaitAgentState::Failed(WaitAgentFailure::Listing(error))
            },
            (WaitAgentState::AwaitActivity, WaitAgentEvent::Activity(seen)) => {
                match wait_for_activity(seen) {
                    Ok(outcome) => WaitAgentState::EmitCompleted(outcome),
                    Err(failure) => WaitAgentState::Failed(failure),
                }
            },
            (WaitAgentState::EmitCompleted(outcome), WaitAgentEvent::Emitted) => {
                WaitAgentState::Done(outcome)
            },
            (state, _) => state,
        };
        WaitAgentCall {
            call_id: self.call_id,
            sender_thread_id: self.sender_thread_id,
            current_agent_name: self.current_agent_name,
            pending_activity: self.pending_activity,
            state,
        }
    }

    /// What the call returns, once it is over.
    pub fn into_result(self) -> (result: Option<Result<WaitAgentResult, FunctionCallError>>)
        ensures
            match self.state {
                WaitAgentState::Done(outcome) => result matches Some(Ok(told)) && told.message@
                    == outcome_message(outcome),
                WaitAgentState::Failed(WaitAgentFailure::Listing(listing)) => result == Some(
                    Err::<WaitAgentResult, FunctionCallError>(listing),
                ),
                WaitAgentState::Failed(WaitAgentFailure::ActivityChannelClosed) => result matches Some(
                    Err(FunctionCallError::Fatal(message)),
                ) && message@ == "wait_agent activity channel closed"@,
                _ => result is None,
            },
    {
        match self.state {
            WaitAgentState::Done(outcome) => Some(Ok(WaitAgentResult::from_outcome(outcome))),
            WaitAgentState::Failed(failure) => Some(Err(failure.into_error())),
            _ => None,
        }
    }
}

/// The handler of the tool.
#[derive(Debug)]
pub struct Handler;

impl Handler {
    /// The name under which the tool is called.
    pub fn tool_name(&self) -> (name: &'static str)
        ensures
            name@ == "wait_agent"@,
    {
        WAIT_AGENT_TOOL
    }

    /// Whether the tool takes `payload`: it takes function calls.
    pub fn matches_kind(&self, payload: &ToolPayload) -> (matches: bool)
        ensures
            matches == (payload is Function),
    {
        payload.is_function()
    }

    /// The arguments of a function call. The model is told of any other payload.
    pub fn arguments(&self, payload: ToolPayload) -> (arguments: Result<String, FunctionCallError>)
        ensures
            match payload {
                ToolPayload::Function { arguments: given } => arguments == Ok::<
                    String,
                    FunctionCallError,
                >(given),
                ToolPayload::Other => arguments matches Err(
                    FunctionCallError::RespondToModel(message),
                ) && message@ == "collab handler received unsupported payload"@,
            },
    {
        match payload {
            ToolPayload::Function { arguments } => Ok(arguments),
            ToolPayload::Other => Err(
                FunctionCallError::RespondToModel(
                    "collab handler received unsupported payload".to_owned(),
                ),
            ),
        }
    }
}

} // verus!
