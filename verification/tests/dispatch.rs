use std::sync::Arc;

use codex_lifecycle::cell::CellId;
use codex_lifecycle::dispatch::next_message;
use codex_lifecycle::dispatch::CodeModeDispatchBroker;
use codex_lifecycle::dispatch::ResponseItemId;
use codex_lifecycle::dispatch_request::DispatchRequest;
use codex_lifecycle::dispatch_request::RequestEnd;
use codex_lifecycle::dispatch_request::RequestEvent;
use codex_lifecycle::dispatch_task::DispatchEvent;
use codex_lifecycle::dispatch_task::DispatchKind;
use codex_lifecycle::dispatch_task::DispatchReply;
use codex_lifecycle::dispatch_task::DispatchStage;
use codex_lifecycle::dispatch_task::DispatchTask;

type Broker = CodeModeDispatchBroker<u32, &'static str>;
type Task = DispatchTask<&'static str, i32>;

fn cell(id: &str) -> CellId {
    CellId::new(id.to_string())
}

fn item(id: &str) -> Option<ResponseItemId> {
    Some(ResponseItemId::new(id.to_string()))
}

fn host_of(broker: &Broker, id: &str) -> Option<&'static str> {
    broker.dispatch_host(&cell(id)).map(|host| host.executor)
}

fn item_of(broker: &Broker, id: &str) -> Option<String> {
    broker
        .cell_originating_item_id(&cell(id))
        .map(|item| item.as_str().to_string())
}

fn open_cells(broker: &Broker) -> Vec<String> {
    let mut ids: Vec<String> = broker
        .active_cell_ids()
        .iter()
        .map(|id| id.as_str().to_string())
        .collect();
    ids.sort();
    ids
}

fn checked(cancelled: bool, fresh: u32) -> DispatchEvent<u32, i32> {
    DispatchEvent::Checked { cancelled, fresh }
}

fn look() -> DispatchEvent<u32, i32> {
    DispatchEvent::SignalRead { lost: None }
}

fn reply_text(task: Task) -> Option<Result<i32, String>> {
    let id = task.cell_id.clone();
    match task.stage {
        DispatchStage::Reply(reply) => Some(reply.into_result(&id)),
        _ => None,
    }
}

#[test]
fn new_broker_has_no_cells() {
    let broker = Broker::new(false);
    assert_eq!(open_cells(&broker), Vec::<String>::new());
    assert_eq!(host_of(&broker, "a"), None);
    assert_eq!(item_of(&broker, "a"), None);
    assert_eq!(broker.ready_signal(&cell("a")), None);
}

#[test]
fn yielded_cell_keeps_its_originating_turn() {
    let mut broker = Broker::new(false);
    let first = broker.start_turn_worker("first", false);
    broker.mark_cell_ready_for_dispatch(&cell("a"), item("item-a"), 1);
    broker.release_worker(&first.worker);
    let second = broker.start_turn_worker("second", true);
    broker.mark_cell_ready_for_dispatch(&cell("b"), item("item-b"), 2);
    assert_eq!(host_of(&broker, "a"), Some("first"));
    assert_eq!(host_of(&broker, "b"), Some("second"));
    assert_eq!(item_of(&broker, "a"), Some("item-a".to_string()));
    assert_eq!(item_of(&broker, "b"), Some("item-b".to_string()));
    assert_eq!(open_cells(&broker), vec!["a".to_string(), "b".to_string()]);
    assert_ne!(first.worker.generation, second.worker.generation);
}

#[test]
fn waiting_for_a_cell_keeps_its_turn_and_item() {
    let mut broker = Broker::new(false);
    broker.start_turn_worker("first", false);
    broker.mark_cell_ready_for_dispatch(&cell("a"), item("item-a"), 1);
    assert_eq!(*broker.dispatch_gate(&cell("a"), 9), 1);
    assert_eq!(host_of(&broker, "a"), Some("first"));
    assert_eq!(item_of(&broker, "a"), Some("item-a".to_string()));
}

#[test]
fn gate_keeps_its_signal_and_new_gate_gets_the_fresh_one() {
    let mut broker = Broker::new(false);
    assert_eq!(*broker.dispatch_gate(&cell("a"), 1), 1);
    assert!(broker.has_gate(&cell("a")));
    assert_eq!(
        *broker.mark_cell_ready_for_dispatch(&cell("a"), None, 2),
        1
    );
    assert_eq!(
        *broker.mark_cell_ready_for_dispatch(&cell("b"), None, 3),
        3
    );
    assert_eq!(broker.ready_signal(&cell("a")), Some(&1));
    broker.remove_dispatch_gate(&cell("a"));
    assert_eq!(broker.ready_signal(&cell("a")), None);
    assert_eq!(*broker.dispatch_gate(&cell("a"), 4), 4);
}

#[test]
fn cell_that_gets_ready_again_belongs_to_the_current_turn() {
    let mut broker = Broker::new(false);
    broker.start_turn_worker("first", false);
    broker.mark_cell_ready_for_dispatch(&cell("a"), item("item-a"), 1);
    broker.start_turn_worker("second", false);
    broker.mark_cell_ready_for_dispatch(&cell("a"), None, 2);
    assert_eq!(host_of(&broker, "a"), Some("second"));
    assert_eq!(item_of(&broker, "a"), None);
}

#[test]
fn closed_cell_is_gone() {
    let mut broker = Broker::new(true);
    broker.start_turn_worker("first", false);
    broker.mark_cell_ready_for_dispatch(&cell("a"), item("item-a"), 1);
    broker.mark_cell_ready_for_dispatch(&cell("b"), item("item-b"), 2);
    assert!(broker.close_cell(&cell("a")));
    assert_eq!(open_cells(&broker), vec!["b".to_string()]);
    assert_eq!(host_of(&broker, "a"), None);
    assert_eq!(item_of(&broker, "a"), None);
    assert_eq!(host_of(&broker, "b"), Some("first"));
    assert!(!Broker::new(false).close_cell(&cell("a")));
}

#[test]
fn last_closed_cell_lets_the_turn_go() {
    let mut broker = Broker::new(false);
    let first = broker.start_turn_worker("first", false);
    broker.mark_cell_ready_for_dispatch(&cell("a"), None, 1);
    broker.release_worker(&first.worker);
    broker.mark_cell_ready_for_dispatch(&cell("b"), None, 2);
    assert_eq!(host_of(&broker, "b"), Some("first"));
    broker.close_cell(&cell("a"));
    broker.close_cell(&cell("b"));
    broker.mark_cell_ready_for_dispatch(&cell("c"), None, 3);
    assert_eq!(host_of(&broker, "c"), None);
}

#[test]
fn closed_cell_keeps_the_turn_of_a_worker_at_work() {
    let mut broker = Broker::new(false);
    broker.start_turn_worker("first", false);
    broker.mark_cell_ready_for_dispatch(&cell("a"), None, 1);
    broker.close_cell(&cell("a"));
    broker.mark_cell_ready_for_dispatch(&cell("b"), None, 2);
    assert_eq!(host_of(&broker, "b"), Some("first"));
}

#[test]
fn removed_gate_keeps_the_turn() {
    let mut broker = Broker::new(false);
    let first = broker.start_turn_worker("first", false);
    broker.dispatch_gate(&cell("a"), 1);
    broker.release_worker(&first.worker);
    broker.remove_dispatch_gate(&cell("a"));
    broker.mark_cell_ready_for_dispatch(&cell("b"), None, 2);
    assert_eq!(host_of(&broker, "b"), Some("first"));
}

#[test]
fn released_worker_without_cells_takes_its_turn_along() {
    let mut broker = Broker::new(false);
    let first = broker.start_turn_worker("first", false);
    broker.release_worker(&first.worker);
    broker.mark_cell_ready_for_dispatch(&cell("a"), None, 1);
    assert_eq!(host_of(&broker, "a"), None);
}

#[test]
fn replaced_worker_takes_nothing_along() {
    let mut broker = Broker::new(false);
    let first = broker.start_turn_worker("first", false);
    broker.start_turn_worker("second", false);
    broker.release_worker(&first.worker);
    broker.mark_cell_ready_for_dispatch(&cell("a"), None, 1);
    assert_eq!(host_of(&broker, "a"), Some("second"));
}

#[test]
fn dispatcher_is_started_with_the_first_worker() {
    let mut broker = Broker::new(false);
    let first = broker.start_turn_worker("first", false);
    let second = broker.start_turn_worker("second", false);
    assert!(first.start_dispatcher);
    assert!(!second.start_dispatcher);
    assert_eq!(first.worker.generation, 0);
    assert_eq!(second.worker.generation, 1);
}

#[test]
fn shutdown_is_final() {
    let mut broker = Broker::new(false);
    broker.start_turn_worker("first", false);
    broker.mark_cell_ready_for_dispatch(&cell("a"), None, 1);
    broker.shutdown();
    assert_eq!(open_cells(&broker), Vec::<String>::new());
    let late = broker.start_turn_worker("late", false);
    assert!(!late.start_dispatcher);
    assert_eq!(late.worker.generation, 1);
    broker.mark_cell_ready_for_dispatch(&cell("b"), None, 2);
    assert_eq!(host_of(&broker, "b"), None);
    assert_eq!(open_cells(&broker), vec!["b".to_string()]);
}

#[test]
fn broker_shut_down_before_the_first_worker_starts_no_dispatcher() {
    let mut broker = Broker::new(false);
    broker.shutdown();
    assert!(!broker.start_turn_worker("late", false).start_dispatcher);
}

#[test]
fn dispatcher_stops_on_shutdown_and_on_a_closed_channel() {
    assert_eq!(next_message(false, Some(1)), Some(1));
    assert_eq!(next_message(true, Some(1)), None);
    assert_eq!(next_message::<i32>(false, None), None);
}

#[test]
fn notification_reaches_the_turn_of_its_cell() {
    let mut broker = Broker::new(false);
    let first = broker.start_turn_worker("first", false);
    let mut task = Task::new(DispatchKind::Notify, cell("a"));
    task = task.advance(&mut broker, checked(false, 1));
    assert_eq!(broker.ready_signal(&cell("a")), Some(&1));
    task = task.advance(&mut broker, look());
    assert!(matches!(task.stage, DispatchStage::AwaitSignal));
    broker.mark_cell_ready_for_dispatch(&cell("a"), None, 2);
    broker.release_worker(&first.worker);
    broker.start_turn_worker("second", false);
    task = task.advance(&mut broker, DispatchEvent::SignalChanged);
    task = task.advance(&mut broker, look());
    match &task.stage {
        DispatchStage::Notify(turn) => assert_eq!(turn.executor, "first"),
        stage => panic!("unexpected stage: {stage:?}"),
    }
    task = task.advance(&mut broker, DispatchEvent::HostReplied(Ok(5)));
    let task = match task.stage {
        DispatchStage::Reply(DispatchReply::Host(reply)) => {
            assert_eq!(reply, Ok(5));
            Task {
                kind: DispatchKind::Notify,
                cell_id: cell("a"),
                stage: DispatchStage::Reply(DispatchReply::Host(reply)),
            }
        }
        stage => panic!("unexpected stage: {stage:?}"),
    };
    let task = task.advance(&mut broker, DispatchEvent::Sent);
    assert!(matches!(task.stage, DispatchStage::Answered));
}

#[test]
fn message_from_a_marked_cell_does_not_wait() {
    let mut broker = Broker::new(false);
    broker.start_turn_worker("first", false);
    assert!(!broker.cell_is_ready(&cell("a")));
    broker.mark_cell_ready_for_dispatch(&cell("a"), None, 1);
    assert!(broker.cell_is_ready(&cell("a")));
    let task = Task::new(DispatchKind::Notify, cell("a"))
        .advance(&mut broker, checked(false, 2))
        .advance(&mut broker, look());
    assert!(matches!(task.stage, DispatchStage::Notify(_)));
    broker.close_cell(&cell("a"));
    assert!(!broker.cell_is_ready(&cell("a")));
}

#[test]
fn gate_of_a_waiting_message_is_not_ready() {
    let mut broker = Broker::new(false);
    broker.start_turn_worker("first", false);
    let task = Task::new(DispatchKind::InvokeTool, cell("a")).advance(&mut broker, checked(false, 1));
    assert!(broker.has_gate(&cell("a")));
    assert!(!broker.cell_is_ready(&cell("a")));
    assert_eq!(host_of(&broker, "a"), None);
    broker.mark_cell_ready_for_dispatch(&cell("b"), None, 2);
    let task = task.advance(&mut broker, look());
    assert!(matches!(task.stage, DispatchStage::AwaitSignal));
}

#[test]
fn message_goes_by_its_own_signal_once_its_gate_is_lost() {
    for (raised, host) in [(true, true), (true, false), (false, true)] {
        let mut broker = Broker::new(false);
        broker.start_turn_worker("first", false);
        let task = Task::new(DispatchKind::Notify, cell("a")).advance(&mut broker, checked(false, 1));
        broker.close_cell(&cell("a"));
        if host {
            broker.mark_cell_ready_for_dispatch(&cell("a"), None, 2);
        }
        let task = task.advance(&mut broker, DispatchEvent::SignalRead { lost: Some(raised) });
        match (raised, host) {
            (true, true) => assert!(matches!(task.stage, DispatchStage::Notify(_))),
            (true, false) => assert_eq!(
                reply_text(task),
                Some(Err(
                    "code-mode cell a has no originating dispatch host".to_string()
                ))
            ),
            _ => assert!(matches!(task.stage, DispatchStage::AwaitSignal)),
        }
    }
}

#[test]
fn submitted_tool_call_is_not_submitted_again() {
    let mut broker = Broker::new(false);
    broker.start_turn_worker("turn", true);
    broker.mark_cell_ready_for_dispatch(&cell("a"), None, 1);
    let task = Task {
        kind: DispatchKind::InvokeTool,
        cell_id: cell("a"),
        stage: admitted(true, false, false),
    };
    let task = task
        .advance(&mut broker, checked(false, 2))
        .advance(&mut broker, look())
        .advance(&mut broker, DispatchEvent::AdmissionChecked { cancelled: false });
    assert!(matches!(task.stage, DispatchStage::Submit(_)));
    let task = task
        .advance(&mut broker, DispatchEvent::HostReplied(Ok(1)))
        .advance(&mut broker, DispatchEvent::AdmissionChecked { cancelled: false });
    assert!(matches!(task.stage, DispatchStage::Reply(_)));
    let task = task
        .advance(&mut broker, DispatchEvent::Sent)
        .advance(&mut broker, checked(false, 3))
        .advance(&mut broker, DispatchEvent::AdmissionChecked { cancelled: false });
    assert!(matches!(task.stage, DispatchStage::Answered));
}

#[test]
fn workers_are_numbered_from_zero_on() {
    let mut broker = Broker::new(false);
    for number in 0..5 {
        if number == 3 {
            broker.shutdown();
        }
        let started = broker.start_turn_worker("turn", false);
        assert_eq!(started.worker.generation, number);
        broker.mark_cell_ready_for_dispatch(&cell("a"), None, 1);
        broker.release_worker(&started.worker);
    }
}

#[test]
fn cancelled_notification_is_answered_and_loses_its_gate() {
    for event in [DispatchEvent::SignalClosed, DispatchEvent::Cancelled] {
        let mut broker = Broker::new(false);
        let task = Task::new(DispatchKind::Notify, cell("a"))
            .advance(&mut broker, checked(false, 1))
            .advance(&mut broker, look())
            .advance(&mut broker, event);
        assert!(!broker.has_gate(&cell("a")));
        assert_eq!(
            reply_text(task),
            Some(Err("code mode notification cancelled".to_string()))
        );
    }
}

#[test]
fn message_cancelled_at_once_opens_no_gate() {
    let mut broker = Broker::new(false);
    let task = Task::new(DispatchKind::Notify, cell("a")).advance(&mut broker, checked(true, 1));
    assert!(!broker.has_gate(&cell("a")));
    assert_eq!(
        reply_text(task),
        Some(Err("code mode notification cancelled".to_string()))
    );
    let task =
        Task::new(DispatchKind::InvokeTool, cell("a")).advance(&mut broker, checked(true, 1));
    assert!(matches!(task.stage, DispatchStage::Dropped));
}

#[test]
fn cell_without_turn_is_told_so() {
    for kind in [DispatchKind::Notify, DispatchKind::InvokeTool] {
        let mut broker = Broker::new(false);
        broker.mark_cell_ready_for_dispatch(&cell("cell-7"), None, 1);
        let task = Task::new(kind, cell("cell-7"))
            .advance(&mut broker, checked(false, 2))
            .advance(&mut broker, look());
        assert_eq!(
            reply_text(task),
            Some(Err(
                "code-mode cell cell-7 has no originating dispatch host".to_string()
            ))
        );
        assert!(broker.has_gate(&cell("cell-7")));
    }
}

fn admitted(
    track_completeness: bool,
    close: bool,
    cancelled: bool,
) -> DispatchStage<&'static str, i32> {
    let mut broker = Broker::new(false);
    broker.start_turn_worker("turn", track_completeness);
    broker.mark_cell_ready_for_dispatch(&cell("a"), None, 1);
    let task = Task::new(DispatchKind::InvokeTool, cell("a"))
        .advance(&mut broker, checked(false, 2))
        .advance(&mut broker, look());
    assert!(matches!(task.stage, DispatchStage::Admit(_)));
    if close {
        broker.close_cell(&cell("a"));
    }
    task.advance(&mut broker, DispatchEvent::AdmissionChecked { cancelled })
        .stage
}

#[test]
fn tracked_turn_takes_no_late_tool_call() {
    assert!(matches!(admitted(true, false, false), DispatchStage::Submit(_)));
    assert!(matches!(admitted(true, true, false), DispatchStage::Dropped));
    assert!(matches!(admitted(true, false, true), DispatchStage::Dropped));
    assert!(matches!(admitted(false, true, true), DispatchStage::Submit(_)));
}

#[test]
fn submitted_tool_call_is_answered_by_its_turn() {
    let mut broker = Broker::new(false);
    let stage = admitted(true, false, false);
    let task = Task {
        kind: DispatchKind::InvokeTool,
        cell_id: cell("a"),
        stage,
    };
    let task = task.advance(&mut broker, DispatchEvent::Cancelled);
    let task = task.advance(&mut broker, DispatchEvent::HostReplied(Err("no".to_string())));
    assert_eq!(reply_text(task), Some(Err("no".to_string())));
}

#[test]
fn hosts_are_shared_and_not_copied() {
    let mut broker = CodeModeDispatchBroker::<u32, Vec<i32>>::new(false);
    broker.start_turn_worker(vec![1, 2], false);
    broker.mark_cell_ready_for_dispatch(&cell("a"), None, 1);
    broker.mark_cell_ready_for_dispatch(&cell("b"), None, 2);
    let one = broker.dispatch_host(&cell("a")).expect("host");
    let other = broker.dispatch_host(&cell("b")).expect("host");
    assert!(Arc::ptr_eq(&one, &other));
    assert_eq!(one.executor, vec![1, 2]);
}

fn requested(kind: DispatchKind, events: Vec<RequestEvent<i32>>) -> Result<i32, String> {
    let mut request = DispatchRequest::new();
    for event in events {
        request = request.advance(event);
    }
    match request {
        DispatchRequest::Done(end) => end.into_result(kind),
        other => panic!("unfinished request: {other:?}"),
    }
}

fn go() -> RequestEvent<i32> {
    RequestEvent::Checked { cancelled: false }
}

#[test]
fn request_is_told_the_answer() {
    for kind in [DispatchKind::InvokeTool, DispatchKind::Notify] {
        let events = vec![go(), RequestEvent::Sent(true), RequestEvent::Replied(Ok(3))];
        assert_eq!(requested(kind, events), Ok(3));
        let events = vec![
            go(),
            RequestEvent::Sent(true),
            RequestEvent::Replied(Err("no".to_string())),
        ];
        assert_eq!(requested(kind, events), Err("no".to_string()));
    }
}

#[test]
fn tool_call_is_told_why_it_is_not_answered() {
    let kind = DispatchKind::InvokeTool;
    assert_eq!(
        requested(kind, vec![RequestEvent::Checked { cancelled: true }]),
        Err("code mode nested tool call cancelled".to_string())
    );
    assert_eq!(
        requested(kind, vec![go(), RequestEvent::Sent(false)]),
        Err("code mode nested tool dispatcher is unavailable".to_string())
    );
    assert_eq!(
        requested(
            kind,
            vec![go(), RequestEvent::Sent(true), RequestEvent::ReplyDropped]
        ),
        Err("code mode nested tool dispatcher stopped".to_string())
    );
    assert_eq!(
        requested(
            kind,
            vec![go(), RequestEvent::Sent(true), RequestEvent::Cancelled]
        ),
        Err("code mode nested tool call cancelled".to_string())
    );
}

#[test]
fn notification_is_told_why_it_is_not_answered() {
    let kind = DispatchKind::Notify;
    assert_eq!(
        requested(kind, vec![RequestEvent::Checked { cancelled: true }]),
        Err("code mode notification cancelled".to_string())
    );
    assert_eq!(
        requested(kind, vec![go(), RequestEvent::Sent(false)]),
        Err("code mode notification dispatcher is unavailable".to_string())
    );
    assert_eq!(
        requested(
            kind,
            vec![go(), RequestEvent::Sent(true), RequestEvent::ReplyDropped]
        ),
        Err("code mode notification dispatcher stopped".to_string())
    );
}

#[test]
fn request_cancelled_before_it_is_sent_is_never_sent() {
    let request = DispatchRequest::<i32>::new()
        .advance(RequestEvent::Checked { cancelled: true })
        .advance(RequestEvent::Sent(true))
        .advance(RequestEvent::Replied(Ok(1)));
    assert_eq!(request, DispatchRequest::Done(RequestEnd::Cancelled));
}
