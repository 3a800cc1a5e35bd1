//! What holds of the live sessions across observations.

use vstd::prelude::*;

use crate::json::json_integers;
use crate::live_exec_sessions::{
    lemma_without, result_session, session_in_range, without_session, LiveSessions,
    EXEC_COMMAND_TOOL, MAX_UNIFIED_EXEC_PROCESSES, WAIT_PROCESS_TOOL, WRITE_STDIN_TOOL,
};
use crate::session_set::ascending;

verus! {

/// Forgetting a session keeps the tracked sessions valid.
pub proof fn law_forgetting_keeps_validity(live: LiveSessions, session_id: i32)
    requires
        live.valid(),
    ensures
        live.forget(session_id).valid(),
        !live.forget(session_id).owner.dom().contains(session_id),
{
    lemma_without(live.order, session_id);
}

/// What appending an untracked session to valid ones gives.
proof fn lemma_append(live: LiveSessions, session_id: i32, cell: Seq<char>)
    requires
        live.valid(),
        !live.owner.dom().contains(session_id),
    ensures
        live.append(session_id, cell).evict().valid(),
        forall|s: i32| #[trigger]
            live.append(session_id, cell).evict().owner.dom().contains(s) ==> s == session_id
                || live.owner.dom().contains(s),
{
    let appended = live.append(session_id, cell);
    let last = appended.evict();
    assert(!live.order.contains(session_id));
    assert forall|s: i32| #[trigger] appended.order.contains(s) <==> appended.owner.dom().contains(
        s,
    ) by {
        if live.order.contains(s) {
            let i = choose|i: int| 0 <= i < live.order.len() && live.order[i] == s;
            assert(appended.order[i] == s);
        }
        if appended.order.contains(s) && s != session_id {
            let i = choose|i: int| 0 <= i < appended.order.len() && appended.order[i] == s;
            assert(live.order[i] == s);
        }
        assert(appended.order[live.order.len() as int] == session_id);
    }
    assert forall|i: int, j: int|
        0 <= i < appended.order.len() && 0 <= j < appended.order.len() && i
            != j implies appended.order[i] != appended.order[j] by {
        if i == live.order.len() {
            assert(live.order.contains(live.order[j]));
        } else if j == live.order.len() {
            assert(live.order.contains(live.order[i]));
        }
    }
    if appended.order.len() > MAX_UNIFIED_EXEC_PROCESSES {
        assert forall|s: i32| #[trigger] last.order.contains(s) <==> last.owner.dom().contains(
            s,
        ) by {
            if last.order.contains(s) {
                let i = choose|i: int| 0 <= i < last.order.len() && last.order[i] == s;
                assert(appended.order[i + 1] == s);
            }
            if appended.order.contains(s) && s != appended.order[0] {
                let i = choose|i: int| 0 <= i < appended.order.len() && appended.order[i] == s;
                assert(last.order[i - 1] == s);
            }
        }
    }
}

/// Moving a session to a cell keeps the tracked sessions valid, makes that cell the one that
/// owns the session, and makes it the newest observation.
pub proof fn law_moved_session_has_one_cell(
    live: LiveSessions,
    session_id: i32,
    cell: Seq<char>,
)
    requires
        live.valid(),
    ensures
        live.move_to(session_id, cell).valid(),
        live.move_to(session_id, cell).order.last() == session_id,
        forall|other: Seq<char>| #[trigger]
            live.move_to(session_id, cell).of_cell(other).contains(session_id) <==> other == cell,
{
    law_forgetting_keeps_validity(live, session_id);
    lemma_append(live.forget(session_id), session_id, cell);
    let appended = live.forget(session_id).append(session_id, cell);
    if appended.order.len() > MAX_UNIFIED_EXEC_PROCESSES {
        assert(appended.order[0] != session_id) by {
            assert(live.forget(session_id).order.contains(live.forget(session_id).order[0]));
        }
    }
}

/// Every observation keeps the tracked sessions valid: each has one cell, none is listed twice,
/// and there are never more than the limit.
pub proof fn law_observation_keeps_validity(
    live: LiveSessions,
    cell: Seq<char>,
    tool_name: Seq<char>,
    is_default_namespace: bool,
    input_session_id: Option<i32>,
    result_session_id: Option<i32>,
)
    requires
        live.valid(),
    ensures
        live.observe(
            cell,
            tool_name,
            is_default_namespace,
            input_session_id,
            result_session_id,
        ).valid(),
{
    let kept = match input_session_id {
        Some(session_id) => {
            law_forgetting_keeps_validity(live, session_id);
            live.forget(session_id)
        },
        None => live,
    };
    if let Some(session_id) = result_session_id {
        law_moved_session_has_one_cell(live, session_id, cell);
        law_moved_session_has_one_cell(kept, session_id, cell);
    }
}

/// Results from other namespaces and of other tools change nothing.
pub proof fn law_unrelated_results_change_nothing(
    live: LiveSessions,
    cell: Seq<char>,
    tool_name: Seq<char>,
    is_default_namespace: bool,
    input_session_id: Option<i32>,
    result_session_id: Option<i32>,
)
    requires
        !is_default_namespace || (tool_name != EXEC_COMMAND_TOOL@ && tool_name
            != WAIT_PROCESS_TOOL@ && tool_name != WRITE_STDIN_TOOL@),
    ensures
        live.observe(cell, tool_name, is_default_namespace, input_session_id, result_session_id)
            == live,
{
}

/// A session that a result names is reported by the cell that saw the result, and by no other.
pub proof fn law_result_session_is_reported(
    live: LiveSessions,
    cell: Seq<char>,
    tool_name: Seq<char>,
    input_session_id: Option<i32>,
    session_id: i32,
)
    requires
        live.valid(),
        tool_name == EXEC_COMMAND_TOOL@ || tool_name == WAIT_PROCESS_TOOL@ || tool_name
            == WRITE_STDIN_TOOL@,
    ensures
        forall|other: Seq<char>| #[trigger]
            live.observe(cell, tool_name, true, input_session_id, Some(session_id)).of_cell(
                other,
            ).contains(session_id) <==> other == cell,
{
    if let Some(input) = input_session_id {
        law_forgetting_keeps_validity(live, input);
        law_moved_session_has_one_cell(live.forget(input), session_id, cell);
    }
    law_moved_session_has_one_cell(live, session_id, cell);
}

/// A session that was waited for or written to, and that the result does not name, is reported
/// by no cell.
pub proof fn law_consumed_session_is_not_reported(
    live: LiveSessions,
    cell: Seq<char>,
    tool_name: Seq<char>,
    session_id: i32,
    result_session_id: Option<i32>,
)
    requires
        live.valid(),
        tool_name == WAIT_PROCESS_TOOL@ || tool_name == WRITE_STDIN_TOOL@,
        result_session_id != Some(session_id),
    ensures
        forall|other: Seq<char>|
            !(#[trigger] live.observe(
                cell,
                tool_name,
                true,
                Some(session_id),
                result_session_id,
            ).of_cell(other)).contains(session_id),
{
    law_forgetting_keeps_validity(live, session_id);
    if let Some(result) = result_session_id {
        let kept = live.forget(session_id);
        law_forgetting_keeps_validity(kept, result);
        lemma_append(kept.forget(result), result, cell);
    }
}

/// With the limit reached, a new session drops the oldest observation and no other.
pub proof fn law_new_session_evicts_the_oldest(
    live: LiveSessions,
    cell: Seq<char>,
    session_id: i32,
)
    requires
        live.valid(),
        live.order.len() == MAX_UNIFIED_EXEC_PROCESSES,
        !live.owner.dom().contains(session_id),
    ensures
        live.move_to(session_id, cell).order == live.order.drop_first().push(session_id),
        live.move_to(session_id, cell).owner == live.owner.remove(live.order[0]).insert(
            session_id,
            cell,
        ),
{
    lemma_without(live.order, session_id);
    assert(!live.order.contains(session_id));
    assert(live.order.contains(live.order[0]));
    assert(live.forget(session_id) =~= live);
    assert(live.move_to(session_id, cell).order =~= live.order.drop_first().push(session_id));
    assert(live.move_to(session_id, cell).owner =~= live.owner.remove(live.order[0]).insert(
        session_id,
        cell,
    ));
}

/// Below the limit, and wherever the session is tracked already, moving it leaves the cell of
/// every other session alone.
pub proof fn law_move_keeps_other_sessions(
    live: LiveSessions,
    session_id: i32,
    cell: Seq<char>,
)
    requires
        live.valid(),
        live.order.len() < MAX_UNIFIED_EXEC_PROCESSES || live.owner.dom().contains(session_id),
    ensures
        live.move_to(session_id, cell).owner == live.owner.insert(session_id, cell),
        live.move_to(session_id, cell).order == without_session(live.order, session_id).push(
            session_id,
        ),
{
    lemma_without(live.order, session_id);
    assert(live.order.contains(session_id) <==> live.owner.dom().contains(session_id));
    assert(live.move_to(session_id, cell).owner =~= live.owner.insert(session_id, cell));
}

/// Observing the same live session from the same cell again changes nothing.
pub proof fn law_repeated_observation_changes_nothing(
    live: LiveSessions,
    session_id: i32,
    cell: Seq<char>,
)
    requires
        live.valid(),
    ensures
        live.move_to(session_id, cell).move_to(session_id, cell) == live.move_to(session_id, cell),
{
    let once = live.move_to(session_id, cell);
    law_moved_session_has_one_cell(live, session_id, cell);
    assert(once.of_cell(cell).contains(session_id));
    law_move_keeps_other_sessions(once, session_id, cell);
    let front = once.order.drop_last();
    assert(once.order =~= front.push(session_id));
    assert(!front.contains(session_id)) by {
        if front.contains(session_id) {
            let i = choose|i: int| 0 <= i < front.len() && front[i] == session_id;
            assert(once.order[i] == once.order[once.order.len() - 1]);
        }
    }
    assert(without_session(once.order, session_id) == front) by {
        reveal(Seq::filter);
        lemma_without(front, session_id);
    }
    assert(once.move_to(session_id, cell) =~= once);
}

/// No cell reports more sessions than the limit.
pub proof fn law_reports_are_bounded(live: LiveSessions, cell: Seq<char>)
    requires
        live.valid(),
    ensures
        live.of_cell(cell).finite(),
        live.of_cell(cell).len() <= MAX_UNIFIED_EXEC_PROCESSES,
{
    let listed = live.order.to_set();
    live.order.unique_seq_to_set();
    assert forall|s: i32| live.of_cell(cell).contains(s) implies #[trigger] listed.contains(s) by {
        assert(live.order.contains(s));
    }
    vstd::set_lib::lemma_len_subset(live.of_cell(cell), listed);
}

/// Whether an observation tracks one session too many, so that the oldest is dropped.
pub open spec fn exceeds_limit(
    live: LiveSessions,
    tool_name: Seq<char>,
    is_default_namespace: bool,
    input_session_id: Option<i32>,
    result_session_id: Option<i32>,
) -> bool {
    let waits = tool_name == WAIT_PROCESS_TOOL@ || tool_name == WRITE_STDIN_TOOL@;
    &&& is_default_namespace
    &&& waits || tool_name == EXEC_COMMAND_TOOL@
    &&& result_session_id matches Some(named) && !live.owner.dom().contains(named)
    &&& live.order.len() == MAX_UNIFIED_EXEC_PROCESSES
    &&& !(waits && (input_session_id matches Some(input) && live.owner.dom().contains(input)))
}

/// A live session stays with its cell through every observation that does not name it, unless
/// it is the oldest one and the observation exceeds the limit.
pub proof fn law_unnamed_session_stays_reported(
    live: LiveSessions,
    cell: Seq<char>,
    tool_name: Seq<char>,
    is_default_namespace: bool,
    input_session_id: Option<i32>,
    result_session_id: Option<i32>,
    session_id: i32,
    owner: Seq<char>,
)
    requires
        live.valid(),
        live.of_cell(owner).contains(session_id),
        input_session_id != Some(session_id),
        result_session_id != Some(session_id),
    ensures
        live.observe(
            cell,
            tool_name,
            is_default_namespace,
            input_session_id,
            result_session_id,
        ).of_cell(owner).contains(session_id) <==> !(session_id == live.order[0] && exceeds_limit(
            live,
            tool_name,
            is_default_namespace,
            input_session_id,
            result_session_id,
        )),
{
    let waits = tool_name == WAIT_PROCESS_TOOL@ || tool_name == WRITE_STDIN_TOOL@;
    let kept = match input_session_id {
        Some(input) if waits => {
            law_forgetting_keeps_validity(live, input);
            lemma_without(live.order, input);
            assert(live.order.contains(input) <==> live.owner.dom().contains(input));
            live.forget(input)
        },
        _ => live,
    };
    if let Some(named) = result_session_id {
        lemma_without(kept.order, named);
        law_forgetting_keeps_validity(kept, named);
        assert(kept.order.contains(named) <==> kept.owner.dom().contains(named));
        let bare = kept.forget(named);
        let appended = bare.append(named, cell);
        assert(bare.owner.dom().contains(session_id));
        assert(bare.order.contains(session_id));
        if appended.order.len() > MAX_UNIFIED_EXEC_PROCESSES {
            assert(bare.order.len() == MAX_UNIFIED_EXEC_PROCESSES);
            assert(kept.order == live.order);
            assert(bare.order == live.order);
            assert(appended.order[0] == live.order[0]);
        }
    }
}

/// A new registry tracks no session, and no cell reports one.
pub proof fn law_new_registry_reports_nothing(cell: Seq<char>, session_id: i32)
    ensures
        LiveSessions::none().order == Seq::<i32>::empty(),
        !LiveSessions::none().owner.dom().contains(session_id),
        !LiveSessions::none().of_cell(cell).contains(session_id),
{
}

/// A cell reports exactly the tracked sessions that it observed last.
pub proof fn law_cell_reports_its_own_sessions(
    live: LiveSessions,
    cell: Seq<char>,
    session_id: i32,
)
    ensures
        live.of_cell(cell).contains(session_id) <==> live.owner.dom().contains(session_id)
            && live.owner[session_id] == cell,
{
}

/// A list in ascending order has every earlier member below every later one.
pub proof fn law_ascending_lists_rise(ids: Seq<i32>, i: int, j: int)
    requires
        ascending(ids),
        0 <= i < j < ids.len(),
    ensures
        ids[i] < ids[j],
{
}

/// An integer is a session identity exactly where some `i32` has its value, and then it is that
/// `i32`.
pub proof fn law_session_identity_keeps_its_value(value: i64, session_id: i32)
    ensures
        session_in_range(value) == Some(session_id) <==> session_id as int == value as int,
        session_in_range(value) is None <==> value < i32::MIN || value > i32::MAX,
{
}

/// A result names a session exactly where it has an integer of that value under `session_id`.
pub proof fn law_result_names_its_session(result: serde_json::Value, session_id: i32)
    ensures
        result_session(result) == Some(session_id) <==> json_integers(result).dom().contains(
            "session_id"@,
        ) && json_integers(result)["session_id"@] as int == session_id as int,
{
}

/// Starting a command pays no heed to the session that the call was given.
pub proof fn law_exec_command_ignores_its_input(
    live: LiveSessions,
    cell: Seq<char>,
    is_default_namespace: bool,
    one: Option<i32>,
    other: Option<i32>,
    result_session_id: Option<i32>,
)
    ensures
        live.observe(cell, EXEC_COMMAND_TOOL@, is_default_namespace, one, result_session_id)
            == live.observe(
            cell,
            EXEC_COMMAND_TOOL@,
            is_default_namespace,
            other,
            result_session_id,
        ),
{
    reveal_strlit("exec_command");
    reveal_strlit("wait_process");
    reveal_strlit("write_stdin");
    assert(EXEC_COMMAND_TOOL@[0] != WAIT_PROCESS_TOOL@[0]);
    assert(EXEC_COMMAND_TOOL@[0] != WRITE_STDIN_TOOL@[0]);
}

/// Waiting for a command and writing to it are observed alike.
pub proof fn law_waiting_and_writing_are_observed_alike(
    live: LiveSessions,
    cell: Seq<char>,
    is_default_namespace: bool,
    input_session_id: Option<i32>,
    result_session_id: Option<i32>,
)
    ensures
        live.observe(
            cell,
            WAIT_PROCESS_TOOL@,
            is_default_namespace,
            input_session_id,
            result_session_id,
        ) == live.observe(
            cell,
            WRITE_STDIN_TOOL@,
            is_default_namespace,
            input_session_id,
            result_session_id,
        ),
{
}

/// `one` stands before `other` in `order`.
pub open spec fn precedes(order: Seq<i32>, one: i32, other: i32) -> bool {
    exists|i: int, j: int|
        0 <= i < j < order.len() && #[trigger] order[i] == one && #[trigger] order[j] == other
}

/// What stands before what once a session is put at the end.
proof fn lemma_precedes_push(order: Seq<i32>, last: i32, one: i32, other: i32)
    ensures
        precedes(order.push(last), one, other) <==> precedes(order, one, other) || (last == other
            && order.contains(one)),
{
    let longer = order.push(last);
    if precedes(order, one, other) {
        let (i, j) = choose|i: int, j: int|
            0 <= i < j < order.len() && #[trigger] order[i] == one && #[trigger] order[j] == other;
        assert(longer[i] == one && longer[j] == other);
    }
    if last == other && order.contains(one) {
        let i = choose|i: int| 0 <= i < order.len() && order[i] == one;
        assert(longer[i] == one && longer[order.len() as int] == other);
    }
    if precedes(longer, one, other) {
        let (i, j) = choose|i: int, j: int|
            0 <= i < j < longer.len() && #[trigger] longer[i] == one && #[trigger] longer[j]
                == other;
        assert(order[i] == one);
        if j < order.len() {
            assert(order[j] == other);
        }
    }
}

/// Taking a session out keeps the order of the others.
proof fn lemma_precedes_without(order: Seq<i32>, session_id: i32, one: i32, other: i32)
    requires
        one != session_id,
        other != session_id,
    ensures
        precedes(without_session(order, session_id), one, other) <==> precedes(order, one, other),
    decreases order.len(),
{
    reveal(Seq::filter);
    if order.len() > 0 {
        let front = order.drop_last();
        lemma_precedes_without(front, session_id, one, other);
        lemma_precedes_push(front, order.last(), one, other);
        lemma_precedes_push(without_session(front, session_id), order.last(), one, other);
        lemma_without(front, session_id);
        assert(order =~= front.push(order.last()));
    }
}

/// The session that a result names is the newest observation.
pub proof fn law_result_session_is_the_newest(
    live: LiveSessions,
    cell: Seq<char>,
    tool_name: Seq<char>,
    input_session_id: Option<i32>,
    session_id: i32,
)
    requires
        live.valid(),
        tool_name == EXEC_COMMAND_TOOL@ || tool_name == WAIT_PROCESS_TOOL@ || tool_name
            == WRITE_STDIN_TOOL@,
    ensures
        live.observe(cell, tool_name, true, input_session_id, Some(session_id)).order.len() > 0,
        live.observe(cell, tool_name, true, input_session_id, Some(session_id)).order.last()
            == session_id,
{
    if let Some(input) = input_session_id {
        law_forgetting_keeps_validity(live, input);
        law_moved_session_has_one_cell(live.forget(input), session_id, cell);
    }
    law_moved_session_has_one_cell(live, session_id, cell);
}

/// No observation changes the order of two sessions that it does not name and that stay live.
pub proof fn law_unnamed_sessions_keep_their_order(
    live: LiveSessions,
    cell: Seq<char>,
    tool_name: Seq<char>,
    is_default_namespace: bool,
    input_session_id: Option<i32>,
    result_session_id: Option<i32>,
    one: i32,
    other: i32,
)
    requires
        live.valid(),
        input_session_id != Some(one),
        input_session_id != Some(other),
        result_session_id != Some(one),
        result_session_id != Some(other),
        ({
            let after = live.observe(
                cell,
                tool_name,
                is_default_namespace,
                input_session_id,
                result_session_id,
            );
            after.owner.dom().contains(one) && after.owner.dom().contains(other)
        }),
    ensures
        precedes(
            live.observe(
                cell,
                tool_name,
                is_default_namespace,
                input_session_id,
                result_session_id,
            ).order,
            one,
            other,
        ) <==> precedes(live.order, one, other),
{
    let waits = tool_name == WAIT_PROCESS_TOOL@ || tool_name == WRITE_STDIN_TOOL@;
    let kept = match input_session_id {
        Some(input) if waits => {
            law_forgetting_keeps_validity(live, input);
            lemma_precedes_without(live.order, input, one, other);
            live.forget(input)
        },
        _ => live,
    };
    if let Some(named) = result_session_id {
        lemma_precedes_without(kept.order, named, one, other);
        law_forgetting_keeps_validity(kept, named);
        let bare = kept.forget(named);
        let appended = bare.append(named, cell);
        lemma_precedes_push(bare.order, named, one, other);
        if appended.order.len() > MAX_UNIFIED_EXEC_PROCESSES {
            let rest = appended.order.drop_first();
            if precedes(appended.order, one, other) && one != appended.order[0] {
                let (i, j) = choose|i: int, j: int|
                    0 <= i < j < appended.order.len() && #[trigger] appended.order[i] == one
                        && #[trigger] appended.order[j] == other;
                assert(rest[i - 1] == one && rest[j - 1] == other);
            }
            if precedes(rest, one, other) {
                let (i, j) = choose|i: int, j: int|
                    0 <= i < j < rest.len() && #[trigger] rest[i] == one && #[trigger] rest[j]
                        == other;
                assert(appended.order[i + 1] == one && appended.order[j + 1] == other);
            }
        }
    }
}

} // verus!
