use codex_lifecycle::cell::CellId;
use codex_lifecycle::live_exec_sessions::session_from_integer;
use codex_lifecycle::live_exec_sessions::LiveExecSessionRegistry;
use codex_lifecycle::live_exec_sessions::EXEC_COMMAND_TOOL;
use codex_lifecycle::live_exec_sessions::MAX_UNIFIED_EXEC_PROCESSES;
use codex_lifecycle::live_exec_sessions::WAIT_PROCESS_TOOL;
use codex_lifecycle::live_exec_sessions::WRITE_STDIN_TOOL;

fn object(key: &str, value: i64) -> serde_json::Value {
    let mut members = serde_json::Map::new();
    members.insert(key.to_string(), serde_json::Value::from(value));
    serde_json::Value::Object(members)
}

#[test]
fn tracks_only_default_namespace_exec_sessions_and_removes_completed_waits() {
    let mut registry = LiveExecSessionRegistry::default();
    let first_cell = CellId::new("first".to_string());
    let second_cell = CellId::new("second".to_string());

    registry.observe_tool_result(
        &first_cell,
        EXEC_COMMAND_TOOL,
        /*is_default_namespace*/ false,
        /*input_session_id*/ None,
        &object("session_id", 10),
    );
    registry.observe_tool_result(
        &first_cell,
        EXEC_COMMAND_TOOL,
        /*is_default_namespace*/ true,
        /*input_session_id*/ None,
        &object("session_id", 11),
    );
    registry.observe_tool_result(
        &second_cell,
        WRITE_STDIN_TOOL,
        /*is_default_namespace*/ true,
        /*input_session_id*/ Some(11),
        &object("session_id", 11),
    );

    assert_eq!(registry.sessions_for_cell(&first_cell), Vec::<i32>::new());
    assert_eq!(registry.sessions_for_cell(&second_cell), vec![11]);

    registry.observe_tool_result(
        &second_cell,
        WAIT_PROCESS_TOOL,
        /*is_default_namespace*/ true,
        /*input_session_id*/ Some(11),
        &object("exit_code", 0),
    );
    assert_eq!(registry.sessions_for_cell(&second_cell), Vec::<i32>::new());
}

#[test]
fn evicts_the_oldest_observation_at_the_unified_exec_process_limit() {
    let mut registry = LiveExecSessionRegistry::default();
    let cell_id = CellId::new("cell".to_string());

    for session_id in 0..=MAX_UNIFIED_EXEC_PROCESSES {
        registry.observe_tool_result(
            &cell_id,
            EXEC_COMMAND_TOOL,
            /*is_default_namespace*/ true,
            /*input_session_id*/ None,
            &object("session_id", i64::try_from(session_id).expect("session ID")),
        );
    }

    assert_eq!(
        registry.sessions_for_cell(&cell_id),
        (1..=MAX_UNIFIED_EXEC_PROCESSES)
            .map(|session_id| i32::try_from(session_id).expect("session ID should fit in i32"))
            .collect::<Vec<_>>()
    );
}

fn observe(
    registry: &mut LiveExecSessionRegistry,
    cell: &str,
    tool_name: &str,
    input_session_id: Option<i32>,
    result_session_id: Option<i64>,
) {
    let result = match result_session_id {
        Some(session_id) => object("session_id", session_id),
        None => object("exit_code", 0),
    };
    registry.observe_tool_result(
        &CellId::new(cell.to_string()),
        tool_name,
        true,
        input_session_id,
        &result,
    );
}

fn sessions(registry: &LiveExecSessionRegistry, cell: &str) -> Vec<i32> {
    registry.sessions_for_cell(&CellId::new(cell.to_string()))
}

#[test]
fn completed_command_reports_no_live_session() {
    let mut registry = LiveExecSessionRegistry::default();
    observe(&mut registry, "cell", EXEC_COMMAND_TOOL, None, None);
    assert_eq!(sessions(&registry, "cell"), Vec::<i32>::new());
}

#[test]
fn session_that_was_waited_for_until_the_end_is_not_live() {
    let mut registry = LiveExecSessionRegistry::default();
    observe(&mut registry, "cell", EXEC_COMMAND_TOOL, None, Some(7));
    observe(&mut registry, "cell", WAIT_PROCESS_TOOL, Some(7), Some(7));
    assert_eq!(sessions(&registry, "cell"), vec![7]);
    observe(&mut registry, "cell", WAIT_PROCESS_TOOL, Some(7), None);
    assert_eq!(sessions(&registry, "cell"), Vec::<i32>::new());
}

#[test]
fn wait_forgets_the_input_session_even_where_the_result_names_another() {
    let mut registry = LiveExecSessionRegistry::default();
    observe(&mut registry, "first", EXEC_COMMAND_TOOL, None, Some(1));
    observe(&mut registry, "second", WRITE_STDIN_TOOL, Some(1), Some(2));
    assert_eq!(sessions(&registry, "first"), Vec::<i32>::new());
    assert_eq!(sessions(&registry, "second"), vec![2]);
}

#[test]
fn exec_command_leaves_its_input_session_alone() {
    let mut registry = LiveExecSessionRegistry::default();
    observe(&mut registry, "cell", EXEC_COMMAND_TOOL, None, Some(1));
    observe(&mut registry, "cell", EXEC_COMMAND_TOOL, Some(1), Some(2));
    assert_eq!(sessions(&registry, "cell"), vec![1, 2]);
}

#[test]
fn other_tools_change_nothing() {
    let mut registry = LiveExecSessionRegistry::default();
    observe(&mut registry, "cell", EXEC_COMMAND_TOOL, None, Some(1));
    observe(&mut registry, "cell", "read_file", Some(1), Some(2));
    assert_eq!(sessions(&registry, "cell"), vec![1]);
}

#[test]
fn sessions_are_reported_in_ascending_order_and_once() {
    let mut registry = LiveExecSessionRegistry::default();
    for session_id in [5, -3, 9, 5, 0] {
        observe(&mut registry, "cell", EXEC_COMMAND_TOOL, None, Some(session_id));
    }
    assert_eq!(sessions(&registry, "cell"), vec![-3, 0, 5, 9]);
}

#[test]
fn session_moves_to_the_cell_that_saw_it_last() {
    let mut registry = LiveExecSessionRegistry::default();
    observe(&mut registry, "first", EXEC_COMMAND_TOOL, None, Some(4));
    observe(&mut registry, "second", EXEC_COMMAND_TOOL, None, Some(4));
    assert_eq!(sessions(&registry, "first"), Vec::<i32>::new());
    assert_eq!(sessions(&registry, "second"), vec![4]);
}

#[test]
fn observing_a_session_again_saves_it_from_eviction() {
    let mut registry = LiveExecSessionRegistry::default();
    let limit = i64::try_from(MAX_UNIFIED_EXEC_PROCESSES).expect("limit");
    for session_id in 0..limit {
        observe(&mut registry, "cell", EXEC_COMMAND_TOOL, None, Some(session_id));
    }
    observe(&mut registry, "cell", EXEC_COMMAND_TOOL, None, Some(0));
    assert_eq!(sessions(&registry, "cell").len(), MAX_UNIFIED_EXEC_PROCESSES);
    observe(&mut registry, "other", EXEC_COMMAND_TOOL, None, Some(limit));
    let kept = sessions(&registry, "cell");
    assert_eq!(kept.len(), MAX_UNIFIED_EXEC_PROCESSES - 1);
    assert!(kept.contains(&0));
    assert!(!kept.contains(&1));
    assert_eq!(sessions(&registry, "other").len(), 1);
}

#[test]
fn session_ids_are_integers_within_range() {
    let mut registry = LiveExecSessionRegistry::default();
    let cell_id = CellId::new("cell".to_string());
    let ignored = [
        object("session_id", i64::from(i32::MAX) + 1),
        object("session_id", i64::from(i32::MIN) - 1),
        serde_json::Value::from(3),
        serde_json::Value::Null,
        serde_json::from_str("{\"session_id\": \"3\"}").expect("JSON"),
        serde_json::from_str("{\"session_id\": 3.0}").expect("JSON"),
        serde_json::from_str("{\"session_id\": 18446744073709551615}").expect("JSON"),
        serde_json::from_str("[{\"session_id\": 3}]").expect("JSON"),
        serde_json::from_str("{\"nested\": {\"session_id\": 3}}").expect("JSON"),
    ];
    for result in &ignored {
        registry.observe_tool_result(&cell_id, EXEC_COMMAND_TOOL, true, None, result);
    }
    assert_eq!(registry.sessions_for_cell(&cell_id), Vec::<i32>::new());
    for session_id in [i32::MAX, i32::MIN] {
        registry.observe_tool_result(
            &cell_id,
            EXEC_COMMAND_TOOL,
            true,
            None,
            &object("session_id", i64::from(session_id)),
        );
    }
    assert_eq!(
        registry.sessions_for_cell(&cell_id),
        vec![i32::MIN, i32::MAX]
    );
}

#[test]
fn session_from_integer_takes_the_range_of_i32() {
    assert_eq!(session_from_integer(12), Some(12));
    assert_eq!(session_from_integer(2147483647), Some(i32::MAX));
    assert_eq!(session_from_integer(2147483648), None);
    assert_eq!(session_from_integer(-2147483648), Some(i32::MIN));
    assert_eq!(session_from_integer(-2147483649), None);
}

#[test]
fn observe_session_takes_the_session_as_it_is() {
    let mut registry = LiveExecSessionRegistry::default();
    let cell_id = CellId::new("cell".to_string());
    registry.observe_session(&cell_id, EXEC_COMMAND_TOOL, true, None, Some(3));
    registry.observe_session(&cell_id, WRITE_STDIN_TOOL, false, Some(3), None);
    assert_eq!(registry.sessions_for_cell(&cell_id), vec![3]);
    registry.observe_session(&cell_id, WRITE_STDIN_TOOL, true, Some(3), None);
    assert_eq!(registry.sessions_for_cell(&cell_id), Vec::<i32>::new());
}

#[test]
fn session_stays_with_its_cell_while_others_come_and_go() {
    let mut registry = LiveExecSessionRegistry::default();
    observe(&mut registry, "first", EXEC_COMMAND_TOOL, None, Some(1));
    observe(&mut registry, "second", EXEC_COMMAND_TOOL, None, Some(2));
    observe(&mut registry, "second", WAIT_PROCESS_TOOL, Some(2), None);
    observe(&mut registry, "second", WRITE_STDIN_TOOL, Some(3), Some(3));
    observe(&mut registry, "second", "read_file", Some(1), Some(1));
    assert_eq!(sessions(&registry, "first"), vec![1]);
    assert_eq!(sessions(&registry, "second"), vec![3]);
}

#[test]
fn wait_that_frees_a_place_evicts_nothing() {
    let mut registry = LiveExecSessionRegistry::default();
    let limit = i64::try_from(MAX_UNIFIED_EXEC_PROCESSES).expect("limit");
    for session_id in 0..limit {
        observe(&mut registry, "cell", EXEC_COMMAND_TOOL, None, Some(session_id));
    }
    observe(&mut registry, "cell", WRITE_STDIN_TOOL, Some(5), Some(limit));
    let kept = sessions(&registry, "cell");
    assert_eq!(kept.len(), MAX_UNIFIED_EXEC_PROCESSES);
    assert!(kept.contains(&0));
    assert!(!kept.contains(&5));
}
