//! What holds of every wait for other agents, whatever it sees.

use vstd::prelude::*;

use crate::tool::{FunctionCallError, InputQueueActivity};
use crate::wait_agent::{
    activity_result, any_waitable, next_wait_state, outcome_message, outcome_of_activity,
    ActivityEvent, AgentSummary, CollabAgentTool, CollabAgentToolCallItem,
    CollabAgentToolCallStatus, WaitAgentEvent, WaitAgentFailure, WaitAgentState, WaitOutcome,
};

verus! {

/// The three ends of a wait are told apart by their messages.
pub proof fn law_messages_tell_outcomes_apart(one: WaitOutcome, other: WaitOutcome)
    ensures
        outcome_message(one) == outcome_message(other) <==> one == other,
{
    reveal_strlit("Wait completed.");
    reveal_strlit("Wait interrupted by new input.");
    reveal_strlit("No live agents to wait for.");
    if one != other {
        assert(outcome_message(one).len() != outcome_message(other).len());
    }
}

/// The state that a run of events leads to from `state`.
pub open spec fn wait_run(
    state: WaitAgentState,
    events: Seq<WaitAgentEvent>,
    current_agent_name: Seq<char>,
    pending_activity: Option<InputQueueActivity>,
) -> WaitAgentState
    decreases events.len(),
{
    if events.len() == 0 {
        state
    } else {
        next_wait_state(
            wait_run(state, events.drop_last(), current_agent_name, pending_activity),
            events.last(),
            current_agent_name,
            pending_activity,
        )
    }
}

/// A wait that is over stays as it ended.
pub proof fn law_finished_wait_stays_finished(
    state: WaitAgentState,
    events: Seq<WaitAgentEvent>,
    current_agent_name: Seq<char>,
    pending_activity: Option<InputQueueActivity>,
)
    requires
        state is Done || state is Failed,
    ensures
        wait_run(state, events, current_agent_name, pending_activity) == state,
    decreases events.len(),
{
    if events.len() > 0 {
        law_finished_wait_stays_finished(
            state,
            events.drop_last(),
            current_agent_name,
            pending_activity,
        );
    }
}

/// Once a wait reports itself as completed, it ends in the outcome it has then, and never fails.
pub proof fn law_completed_wait_never_fails(
    outcome: WaitOutcome,
    events: Seq<WaitAgentEvent>,
    current_agent_name: Seq<char>,
    pending_activity: Option<InputQueueActivity>,
)
    ensures
        ({
            let end = wait_run(
                WaitAgentState::EmitCompleted(outcome),
                events,
                current_agent_name,
                pending_activity,
            );
            end == WaitAgentState::EmitCompleted(outcome) || end == WaitAgentState::Done(outcome)
        }),
    decreases events.len(),
{
    if events.len() > 0 {
        law_completed_wait_never_fails(
            outcome,
            events.drop_last(),
            current_agent_name,
            pending_activity,
        );
    }
}

/// A wait with pending activity never fails, lists no agents and waits for nothing: it can only
/// end in that activity.
pub proof fn law_pending_activity_settles_the_wait(
    events: Seq<WaitAgentEvent>,
    current_agent_name: Seq<char>,
    activity: InputQueueActivity,
)
    ensures
        ({
            let end = wait_run(
                WaitAgentState::EmitStarted,
                events,
                current_agent_name,
                Some(activity),
            );
            ||| end == WaitAgentState::EmitStarted
            ||| end == WaitAgentState::EmitCompleted(outcome_of_activity(activity))
            ||| end == WaitAgentState::Done(outcome_of_activity(activity))
        }),
    decreases events.len(),
{
    if events.len() > 0 {
        law_pending_activity_settles_the_wait(events.drop_last(), current_agent_name, activity);
    }
}

/// Some event of the run listed the agents and found nobody to wait for.
pub open spec fn found_nobody(
    events: Seq<WaitAgentEvent>,
    current_agent_name: Seq<char>,
) -> bool {
    exists|i: int|
        0 <= i < events.len() && ((#[trigger] events[i]) matches WaitAgentEvent::AgentsListed(
            Ok(agents),
        ) && !any_waitable(agents@, current_agent_name))
}

/// A wait that begins without pending activity says that nobody is live only where a list of
/// the agents showed it.
pub proof fn law_no_live_agents_only_after_listing(
    events: Seq<WaitAgentEvent>,
    current_agent_name: Seq<char>,
)
    ensures
        ({
            let end = wait_run(WaitAgentState::EmitStarted, events, current_agent_name, None);
            (end == WaitAgentState::EmitCompleted(WaitOutcome::NoLiveAgents) || end
                == WaitAgentState::Done(WaitOutcome::NoLiveAgents)) ==> found_nobody(
                events,
                current_agent_name,
            )
        }),
    decreases events.len(),
{
    if events.len() > 0 {
        let before = events.drop_last();
        law_no_live_agents_only_after_listing(before, current_agent_name);
        if found_nobody(before, current_agent_name) {
            let i = choose|i: int|
                0 <= i < before.len() && ((
                #[trigger] before[i]) matches WaitAgentEvent::AgentsListed(Ok(agents))
                    && !any_waitable(agents@, current_agent_name));
            assert(events[i] == before[i]);
        }
        assert(events[events.len() - 1] == events.last());
    }
}

/// Some agent can be waited for exactly where one of the agents has another name and may still
/// change: nobody among none, and with one agent more whoever could be waited for before, or the
/// new agent itself.
pub proof fn law_waitable_agents_are_the_others_that_may_change(
    agents: Seq<AgentSummary>,
    agent: AgentSummary,
    current_agent_name: Seq<char>,
)
    ensures
        !any_waitable(Seq::empty(), current_agent_name),
        any_waitable(agents.push(agent), current_agent_name) <==> any_waitable(
            agents,
            current_agent_name,
        ) || (agent.agent_name@ != current_agent_name && !agent.is_final),
{
    let more = agents.push(agent);
    if any_waitable(agents, current_agent_name) {
        let i = choose|i: int|
            0 <= i < agents.len() && crate::wait_agent::waitable(
                #[trigger] agents[i],
                current_agent_name,
            );
        assert(more[i] == agents[i]);
    }
    if any_waitable(more, current_agent_name) {
        let i = choose|i: int|
            0 <= i < more.len() && crate::wait_agent::waitable(
                #[trigger] more[i],
                current_agent_name,
            );
        if i < agents.len() {
            assert(agents[i] == more[i]);
        }
    }
    assert(more[agents.len() as int] == agent);
}

/// A message ends a wait as mailbox activity, new input as a steered wait, and a closed channel
/// in failure.
pub proof fn law_activity_tells_how_a_wait_ends()
    ensures
        activity_result(ActivityEvent::Changed(InputQueueActivity::Mailbox)) == Ok::<
            WaitOutcome,
            WaitAgentFailure,
        >(WaitOutcome::MailboxActivity),
        activity_result(ActivityEvent::Changed(InputQueueActivity::Steer)) == Ok::<
            WaitOutcome,
            WaitAgentFailure,
        >(WaitOutcome::Steered),
        activity_result(ActivityEvent::Closed) == Err::<WaitOutcome, WaitAgentFailure>(
            WaitAgentFailure::ActivityChannelClosed,
        ),
{
}

/// A wait that was reported as begun ends at once in what was pending, and lists the agents where
/// nothing was.
pub proof fn law_begun_wait_heeds_what_is_pending(current_agent_name: Seq<char>)
    ensures
        next_wait_state(
            WaitAgentState::EmitStarted,
            WaitAgentEvent::Emitted,
            current_agent_name,
            Some(InputQueueActivity::Mailbox),
        ) == WaitAgentState::EmitCompleted(WaitOutcome::MailboxActivity),
        next_wait_state(
            WaitAgentState::EmitStarted,
            WaitAgentEvent::Emitted,
            current_agent_name,
            Some(InputQueueActivity::Steer),
        ) == WaitAgentState::EmitCompleted(WaitOutcome::Steered),
        next_wait_state(
            WaitAgentState::EmitStarted,
            WaitAgentEvent::Emitted,
            current_agent_name,
            None,
        ) == WaitAgentState::ListAgents,
{
}

/// Once the agents are listed, the wait goes on for activity exactly where one of them has
/// another name and may still change, and ends without live agents otherwise. Agents that cannot
/// be listed fail the wait with the error that came.
pub proof fn law_listed_agents_decide_whether_to_wait(
    agents: Vec<AgentSummary>,
    error: FunctionCallError,
    current_agent_name: Seq<char>,
    pending_activity: Option<InputQueueActivity>,
)
    ensures
        ({
            let next = next_wait_state(
                WaitAgentState::ListAgents,
                WaitAgentEvent::AgentsListed(Ok(agents)),
                current_agent_name,
                pending_activity,
            );
            let somebody = exists|i: int|
                0 <= i < agents@.len() && (#[trigger] agents@[i]).agent_name@ != current_agent_name
                    && !agents@[i].is_final;
            &&& somebody ==> next == WaitAgentState::AwaitActivity
            &&& !somebody ==> next == WaitAgentState::EmitCompleted(WaitOutcome::NoLiveAgents)
        }),
        next_wait_state(
            WaitAgentState::ListAgents,
            WaitAgentEvent::AgentsListed(Err(error)),
            current_agent_name,
            pending_activity,
        ) == WaitAgentState::Failed(WaitAgentFailure::Listing(error)),
{
    if exists|i: int|
        0 <= i < agents@.len() && (#[trigger] agents@[i]).agent_name@ != current_agent_name
            && !agents@[i].is_final {
        let i = choose|i: int|
            0 <= i < agents@.len() && (#[trigger] agents@[i]).agent_name@ != current_agent_name
                && !agents@[i].is_final;
        assert(crate::wait_agent::waitable(agents@[i], current_agent_name));
    }
}

/// A wait that goes on ends in the activity that it sees: a message in mailbox activity, new
/// input in a steered wait. A closed channel fails it.
pub proof fn law_waiting_call_ends_in_the_activity_it_sees(
    current_agent_name: Seq<char>,
    pending_activity: Option<InputQueueActivity>,
)
    ensures
        next_wait_state(
            WaitAgentState::AwaitActivity,
            WaitAgentEvent::Activity(ActivityEvent::Changed(InputQueueActivity::Mailbox)),
            current_agent_name,
            pending_activity,
        ) == WaitAgentState::EmitCompleted(WaitOutcome::MailboxActivity),
        next_wait_state(
            WaitAgentState::AwaitActivity,
            WaitAgentEvent::Activity(ActivityEvent::Changed(InputQueueActivity::Steer)),
            current_agent_name,
            pending_activity,
        ) == WaitAgentState::EmitCompleted(WaitOutcome::Steered),
        next_wait_state(
            WaitAgentState::AwaitActivity,
            WaitAgentEvent::Activity(ActivityEvent::Closed),
            current_agent_name,
            pending_activity,
        ) == WaitAgentState::Failed(WaitAgentFailure::ActivityChannelClosed),
{
}

/// A wait that was reported as completed is done with the outcome that was reported.
pub proof fn law_reported_outcome_is_returned(
    outcome: WaitOutcome,
    current_agent_name: Seq<char>,
    pending_activity: Option<InputQueueActivity>,
)
    ensures
        next_wait_state(
            WaitAgentState::EmitCompleted(outcome),
            WaitAgentEvent::Emitted,
            current_agent_name,
            pending_activity,
        ) == WaitAgentState::Done(outcome),
{
}

/// An event that a call does not wait for changes nothing.
pub proof fn law_other_events_leave_a_call_alone(
    state: WaitAgentState,
    event: WaitAgentEvent,
    current_agent_name: Seq<char>,
    pending_activity: Option<InputQueueActivity>,
)
    requires
        state is EmitStarted || state is EmitCompleted ==> !(event is Emitted),
        state is ListAgents ==> !(event is AgentsListed),
        state is AwaitActivity ==> !(event is Activity),
    ensures
        next_wait_state(state, event, current_agent_name, pending_activity) == state,
{
}

/// Some list in the run shows nobody with another name who may still change.
pub open spec fn list_shows_nobody(
    events: Seq<WaitAgentEvent>,
    current_agent_name: Seq<char>,
    k: int,
) -> bool {
    &&& 0 <= k < events.len()
    &&& events[k] matches WaitAgentEvent::AgentsListed(Ok(agents)) && forall|i: int|
        0 <= i < agents@.len() ==> (#[trigger] agents@[i]).agent_name@ == current_agent_name
            || agents@[i].is_final
}

/// The run shows why a wait ends in `outcome`.
pub open spec fn outcome_was_seen(
    events: Seq<WaitAgentEvent>,
    current_agent_name: Seq<char>,
    outcome: WaitOutcome,
) -> bool {
    match outcome {
        WaitOutcome::MailboxActivity => events.contains(
            WaitAgentEvent::Activity(ActivityEvent::Changed(InputQueueActivity::Mailbox)),
        ),
        WaitOutcome::Steered => events.contains(
            WaitAgentEvent::Activity(ActivityEvent::Changed(InputQueueActivity::Steer)),
        ),
        WaitOutcome::NoLiveAgents => exists|k: int|
            list_shows_nobody(events, current_agent_name, k),
    }
}

/// A wait without pending activity tells only what it saw: that a message arrived where one did,
/// that new input came where it did, that nobody is live where a list showed it. It fails only
/// with the error of a list that could not be made, or because the channel was closed.
pub proof fn law_wait_tells_only_what_it_saw(
    events: Seq<WaitAgentEvent>,
    current_agent_name: Seq<char>,
)
    ensures
        match wait_run(WaitAgentState::EmitStarted, events, current_agent_name, None) {
            WaitAgentState::EmitCompleted(outcome) => outcome_was_seen(
                events,
                current_agent_name,
                outcome,
            ),
            WaitAgentState::Done(outcome) => outcome_was_seen(events, current_agent_name, outcome),
            WaitAgentState::Failed(WaitAgentFailure::Listing(error)) => events.contains(
                WaitAgentEvent::AgentsListed(Err(error)),
            ),
            WaitAgentState::Failed(WaitAgentFailure::ActivityChannelClosed) => events.contains(
                WaitAgentEvent::Activity(ActivityEvent::Closed),
            ),
            _ => true,
        },
    decreases events.len(),
{
    if events.len() > 0 {
        let before = events.drop_last();
        let n = events.len() - 1;
        law_wait_tells_only_what_it_saw(before, current_agent_name);
        assert(events[n] == events.last());
        assert(events.contains(events.last()));
        assert forall|event: WaitAgentEvent| #[trigger]
            before.contains(event) implies events.contains(event) by {
            let i = choose|i: int| 0 <= i < before.len() && before[i] == event;
            assert(events[i] == event);
        }
        assert forall|k: int| #[trigger]
            list_shows_nobody(before, current_agent_name, k) implies list_shows_nobody(
            events,
            current_agent_name,
            k,
        ) by {
            assert(before[k] == events[k]);
        }
        if let WaitAgentEvent::AgentsListed(Ok(agents)) = events.last() {
            if !any_waitable(agents@, current_agent_name) {
                assert forall|i: int| 0 <= i < agents@.len() implies (
                #[trigger] agents@[i]).agent_name@ == current_agent_name
                    || agents@[i].is_final by {
                    assert(!crate::wait_agent::waitable(agents@[i], current_agent_name));
                }
                assert(list_shows_nobody(events, current_agent_name, n));
            }
        }
    }
}

/// An item that reports a wait tells its call, its sender and how far it has come, and nothing of
/// receivers, prompts or models.
pub proof fn law_item_of_a_wait_tells_the_call_alone(
    item: CollabAgentToolCallItem,
    id: Seq<char>,
    sender_thread_id: Seq<char>,
    status: CollabAgentToolCallStatus,
)
    ensures
        item.reports_wait(id, sender_thread_id, status) ==> {
            &&& item.id@ == id
            &&& item.tool == CollabAgentTool::Wait
            &&& item.status == status
            &&& item.sender_thread_id@ == sender_thread_id
            &&& item.receiver_thread_ids@ == Seq::<String>::empty()
            &&& item.receiver_agents@ == Seq::<String>::empty()
            &&& item.prompt is None
            &&& item.model is None
            &&& item.reasoning_effort is None
            &&& item.agents_states@ == Seq::<(String, String)>::empty()
        },
{
}

} // verus!
