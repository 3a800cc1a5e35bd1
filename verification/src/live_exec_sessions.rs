//! Which exec sessions are still live, and which code cell reports each of them.

use std::collections::VecDeque;

use vstd::prelude::*;

use crate::cell::{
    distinct_cells, entries_map, entry_index, has_entry, lemma_entry, lemma_filed, lemma_taken,
    CellId, CellMap,
};
use crate::json::integer_member;
use crate::session_set::{ascending, SessionSet};
use crate::text::same_text;

verus! {

/// The tool that starts a command.
pub const EXEC_COMMAND_TOOL: &'static str = "exec_command";

/// The tool that waits for a running command.
pub const WAIT_PROCESS_TOOL: &'static str = "wait_process";

/// The tool that writes to a running command.
pub const WRITE_STDIN_TOOL: &'static str = "write_stdin";

/// How many exec sessions can be live at once.
pub const MAX_UNIFIED_EXEC_PROCESSES: usize = 64;

/// The member of a tool result that names the session it leaves running.
pub const SESSION_ID_MEMBER: &'static str = "session_id";

/// The live sessions, oldest observation first, and the cell that observed each last.
#[verifier::ext_equal]
pub struct LiveSessions {
    pub order: Seq<i32>,
    pub owner: Map<i32, Seq<char>>,
}

/// `order` without `session_id`.
pub open spec fn without_session(order: Seq<i32>, session_id: i32) -> Seq<i32> {
    order.filter(|observed: i32| observed != session_id)
}

impl LiveSessions {
    /// No session is tracked.
    pub open spec fn none() -> LiveSessions {
        LiveSessions { order: Seq::empty(), owner: Map::empty() }
    }

    /// Every session is listed once and has one cell, and there are no more than the limit.
    pub open spec fn valid(self) -> bool {
        &&& self.order.no_duplicates()
        &&& forall|s: i32| #[trigger] self.order.contains(s) <==> self.owner.dom().contains(s)
        &&& self.order.len() <= MAX_UNIFIED_EXEC_PROCESSES
    }

    /// The sessions that `cell` reports.
    pub open spec fn of_cell(self, cell: Seq<char>) -> Set<i32> {
        self.owner.dom().filter(|s: i32| self.owner[s] == cell)
    }

    /// `session_id` is no longer tracked.
    pub open spec fn forget(self, session_id: i32) -> LiveSessions {
        LiveSessions {
            order: without_session(self.order, session_id),
            owner: self.owner.remove(session_id),
        }
    }

    /// `session_id` is tracked as the newest observation, by `cell`.
    pub open spec fn append(self, session_id: i32, cell: Seq<char>) -> LiveSessions {
        LiveSessions {
            order: self.order.push(session_id),
            owner: self.owner.insert(session_id, cell),
        }
    }

    /// The oldest observation is dropped where there are more than the limit.
    pub open spec fn evict(self) -> LiveSessions {
        if self.order.len() > MAX_UNIFIED_EXEC_PROCESSES {
            LiveSessions {
                order: self.order.drop_first(),
                owner: self.owner.remove(self.order[0]),
            }
        } else {
            self
        }
    }

    /// `session_id` now belongs to `cell` alone, as the newest observation.
    pub open spec fn move_to(self, session_id: i32, cell: Seq<char>) -> LiveSessions {
        self.forget(session_id).append(session_id, cell).evict()
    }

    /// What is tracked once `cell` has seen the result of a tool call.
    pub open spec fn observe(
        self,
        cell: Seq<char>,
        tool_name: Seq<char>,
        is_default_namespace: bool,
        input_session_id: Option<i32>,
        result_session_id: Option<i32>,
    ) -> LiveSessions {
        let waits = tool_name == WAIT_PROCESS_TOOL@ || tool_name == WRITE_STDIN_TOOL@;
        let kept = match input_session_id {
            Some(session_id) if waits => self.forget(session_id),
            _ => self,
        };
        if !is_default_namespace || !(waits || tool_name == EXEC_COMMAND_TOOL@) {
            self
        } else {
            match result_session_id {
                Some(session_id) => kept.move_to(session_id, cell),
                None => kept,
            }
        }
    }
}

/// The session that a tool result names: an integer member `session_id` within `i32`.
pub open spec fn result_session(result: serde_json::Value) -> Option<i32> {
    let integers = crate::json::json_integers(result);
    if integers.dom().contains(SESSION_ID_MEMBER@) {
        session_in_range(integers[SESSION_ID_MEMBER@])
    } else {
        None
    }
}

/// `value` as a session identity, where it is one.
pub open spec fn session_in_range(value: i64) -> Option<i32> {
    if i32::MIN <= value <= i32::MAX {
        Some(value as i32)
    } else {
        None
    }
}

/// `cells` lists `session_id` under `cell`.
spec fn holds(cells: Map<Seq<char>, SessionSet>, cell: Seq<char>, session_id: i32) -> bool {
    cells.dom().contains(cell) && cells[cell]@.contains(session_id)
}

/// The cell under which `cells` lists each session.
spec fn owners(cells: Map<Seq<char>, SessionSet>) -> Map<i32, Seq<char>> {
    Map::new(
        |s: i32| exists|cell: Seq<char>| holds(cells, cell, s),
        |s: i32| choose|cell: Seq<char>| holds(cells, cell, s),
    )
}

/// `after` is `before` without `session_id` and without the cells that it leaves empty.
spec fn pruned(
    before: Map<Seq<char>, SessionSet>,
    after: Map<Seq<char>, SessionSet>,
    session_id: i32,
) -> bool {
    &&& forall|cell: Seq<char>| #[trigger]
        after.dom().contains(cell) <==> before.dom().contains(cell) && before[cell]@.remove(
            session_id,
        ) != Set::<i32>::empty()
    &&& forall|cell: Seq<char>|
        after.dom().contains(cell) ==> (#[trigger] after[cell])@ == before[cell]@.remove(
            session_id,
        )
}

/// Takes `session_id` out of every cell, and out of the table each cell that it leaves empty.
fn remove_session_from_cells(sessions_by_cell: &mut CellMap<SessionSet>, session_id: i32)
    requires
        old(sessions_by_cell).wf(),
    ensures
        final(sessions_by_cell).wf(),
        pruned(old(sessions_by_cell)@, final(sessions_by_cell)@, session_id),
{
    let ghost before = sessions_by_cell@;
    let mut index: usize = 0;
    proof {
        sessions_by_cell.lemma_entries();
        let entries = sessions_by_cell.entries@;
        assert forall|k: int| 0 <= k < entries.len() implies before.dom().contains(
            (#[trigger] entries[k]).0@,
        ) && entries[k].1 == before[entries[k].0@] by {
            lemma_entry(entries, k);
        }
    }
    while index < sessions_by_cell.entries.len()
        invariant
            index <= sessions_by_cell.entries@.len(),
            distinct_cells(sessions_by_cell.entries@),
            forall|k: int|
                0 <= k < sessions_by_cell.entries@.len() ==> before.dom().contains(
                    (#[trigger] sessions_by_cell.entries@[k]).0@,
                ),
            forall|k: int|
                0 <= k < index ==> {
                    let entry = #[trigger] sessions_by_cell.entries@[k];
                    &&& entry.1@ == before[entry.0@]@.remove(session_id)
                    &&& entry.1@ != Set::<i32>::empty()
                },
            forall|k: int|
                index <= k < sessions_by_cell.entries@.len() ==> {
                    let entry = #[trigger] sessions_by_cell.entries@[k];
                    entry.1 == before[entry.0@]
                },
            forall|cell: Seq<char>| #[trigger]
                before.dom().contains(cell) ==> has_entry(sessions_by_cell.entries@, cell)
                    || before[cell]@.remove(session_id) == Set::<i32>::empty(),
        decreases sessions_by_cell.entries@.len() - index,
    {
        let ghost start = sessions_by_cell.entries@;
        sessions_by_cell.entries[index].1.remove(session_id);
        let ghost updated = sessions_by_cell.entries@;
        proof {
            lemma_filed(start, updated, index as int);
        }
        if sessions_by_cell.entries[index].1.is_empty() {
            sessions_by_cell.entries.remove(index);
            proof {
                let after = sessions_by_cell.entries@;
                lemma_taken(updated, index as int);
                assert forall|cell: Seq<char>| #[trigger]
                    before.dom().contains(cell) implies has_entry(after, cell)
                    || before[cell]@.remove(session_id) == Set::<i32>::empty() by {
                    if has_entry(start, cell) {
                        let k = entry_index(start, cell);
                        if k < index {
                            assert(after[k].0@ == cell);
                        } else if k > index {
                            assert(after[k - 1].0@ == cell);
                        }
                    }
                }
            }
        } else {
            proof {
                assert forall|cell: Seq<char>| #[trigger]
                    before.dom().contains(cell) implies has_entry(updated, cell)
                    || before[cell]@.remove(session_id) == Set::<i32>::empty() by {
                    if has_entry(start, cell) {
                        let k = entry_index(start, cell);
                        assert(updated[k].0@ == cell);
                    }
                }
            }
            index = index + 1;
        }
    }
    proof {
        sessions_by_cell.lemma_entries();
        let entries = sessions_by_cell.entries@;
        let after = entries_map(entries);
        assert forall|cell: Seq<char>| after.dom().contains(cell) implies {
            &&& before.dom().contains(cell)
            &&& (#[trigger] after[cell])@ == before[cell]@.remove(session_id)
            &&& after[cell]@ != Set::<i32>::empty()
        } by {
            let k = entry_index(entries, cell);
            lemma_entry(entries, k);
        }
        assert forall|cell: Seq<char>| #[trigger]
            after.dom().contains(cell) <==> before.dom().contains(cell) && before[cell]@.remove(
                session_id,
            ) != Set::<i32>::empty() by {
            if after.dom().contains(cell) {
                assert(after[cell]@ == before[cell]@.remove(session_id));
            }
        }
    }
}

/// Every cell lists a session, and no session is listed under two cells.
spec fn cells_valid(cells: Map<Seq<char>, SessionSet>) -> bool {
    &&& forall|cell: Seq<char>| #[trigger]
        cells.dom().contains(cell) ==> cells[cell]@ != Set::<i32>::empty()
    &&& forall|one: Seq<char>, other: Seq<char>, s: i32| #[trigger]
        holds(cells, one, s) && #[trigger] holds(cells, other, s) ==> one == other
}

/// The session that a cell lists belongs to that cell.
proof fn lemma_owner(cells: Map<Seq<char>, SessionSet>, cell: Seq<char>, session_id: i32)
    requires
        cells_valid(cells),
        holds(cells, cell, session_id),
    ensures
        owners(cells).dom().contains(session_id),
        owners(cells)[session_id] == cell,
{
    let owner = choose|c: Seq<char>| holds(cells, c, session_id);
    assert(holds(cells, owner, session_id));
}

/// Taking a session out of every cell leaves the other sessions where they are.
proof fn lemma_pruned(
    before: Map<Seq<char>, SessionSet>,
    after: Map<Seq<char>, SessionSet>,
    session_id: i32,
)
    requires
        cells_valid(before),
        pruned(before, after, session_id),
    ensures
        cells_valid(after),
        owners(after) == owners(before).remove(session_id),
{
    assert forall|cell: Seq<char>, s: i32| #[trigger]
        holds(after, cell, s) <==> holds(before, cell, s) && s != session_id by {
        if holds(after, cell, s) {
            assert(after[cell]@ == before[cell]@.remove(session_id));
        }
        if holds(before, cell, s) && s != session_id {
            assert(before[cell]@.remove(session_id).contains(s));
            assert(after.dom().contains(cell));
            assert(after[cell]@ == before[cell]@.remove(session_id));
        }
    }
    assert forall|cell: Seq<char>| #[trigger] after.dom().contains(cell) implies after[cell]@
        != Set::<i32>::empty() by {
        assert(after[cell]@ == before[cell]@.remove(session_id));
    }
    let expected = owners(before).remove(session_id);
    assert forall|s: i32| #[trigger] owners(after).dom().contains(s) <==> expected.dom().contains(
        s,
    ) by {
        if owners(after).dom().contains(s) {
            let cell = choose|c: Seq<char>| holds(after, c, s);
            assert(holds(before, cell, s));
        }
        if expected.dom().contains(s) {
            let cell = choose|c: Seq<char>| holds(before, c, s);
            assert(holds(after, cell, s));
        }
    }
    assert forall|s: i32| owners(after).dom().contains(s) implies #[trigger] owners(after)[s]
        == expected[s] by {
        let cell = choose|c: Seq<char>| holds(after, c, s);
        assert(holds(before, cell, s));
        lemma_owner(before, cell, s);
    }
    assert(owners(after) =~= expected);
}

/// Listing an untracked session under a cell gives it that cell.
proof fn lemma_listed(
    before: Map<Seq<char>, SessionSet>,
    cell: Seq<char>,
    sessions: SessionSet,
    session_id: i32,
)
    requires
        cells_valid(before),
        !owners(before).dom().contains(session_id),
        before.dom().contains(cell) ==> sessions@ == before[cell]@.insert(session_id),
        !before.dom().contains(cell) ==> sessions@ == Set::<i32>::empty().insert(session_id),
    ensures
        cells_valid(before.insert(cell, sessions)),
        owners(before.insert(cell, sessions)) == owners(before).insert(session_id, cell),
{
    let after = before.insert(cell, sessions);
    assert(sessions@.contains(session_id));
    assert forall|c: Seq<char>, s: i32| #[trigger]
        holds(after, c, s) <==> holds(before, c, s) || (c == cell && s == session_id) by {
    }
    assert forall|c: Seq<char>| #[trigger] after.dom().contains(c) implies after[c]@ != Set::<
        i32,
    >::empty() by {
    }
    assert forall|one: Seq<char>, other: Seq<char>, s: i32| #[trigger]
        holds(after, one, s) && #[trigger] holds(after, other, s) implies one == other by {
        if s == session_id {
            assert(!holds(before, one, s));
            assert(!holds(before, other, s));
        }
    }
    let expected = owners(before).insert(session_id, cell);
    assert forall|s: i32| #[trigger] owners(after).dom().contains(s) <==> expected.dom().contains(
        s,
    ) by {
        if owners(after).dom().contains(s) {
            let c = choose|c: Seq<char>| holds(after, c, s);
            assert(holds(before, c, s) || s == session_id);
        }
        if owners(before).dom().contains(s) {
            let c = choose|c: Seq<char>| holds(before, c, s);
            assert(holds(after, c, s));
        }
        if s == session_id {
            assert(holds(after, cell, s));
        }
    }
    assert forall|s: i32| owners(after).dom().contains(s) implies #[trigger] owners(after)[s]
        == expected[s] by {
        let c = choose|c: Seq<char>| holds(after, c, s);
        assert(holds(after, c, s));
        if s != session_id {
            lemma_owner(before, c, s);
        }
    }
    assert(owners(after) =~= expected);
}

/// What `without_session` keeps.
pub(crate) proof fn lemma_without(order: Seq<i32>, session_id: i32)
    ensures
        forall|s: i32| #[trigger]
            without_session(order, session_id).contains(s) <==> order.contains(s) && s
                != session_id,
        order.no_duplicates() ==> without_session(order, session_id).no_duplicates(),
        without_session(order, session_id).len() <= order.len(),
        order.contains(session_id) ==> without_session(order, session_id).len() < order.len(),
        !order.contains(session_id) ==> without_session(order, session_id) == order,
    decreases order.len(),
{
    reveal(Seq::filter);
    let kept = without_session(order, session_id);
    if order.len() > 0 {
        let front = order.drop_last();
        lemma_without(front, session_id);
        let front_kept = without_session(front, session_id);
        assert(order =~= front.push(order.last()));
        assert forall|s: i32| #[trigger] kept.contains(s) <==> order.contains(s) && s
            != session_id by {
            assert(order.contains(s) <==> front.contains(s) || s == order.last()) by {
                if order.contains(s) {
                    let i = choose|i: int| 0 <= i < order.len() && order[i] == s;
                    if i < front.len() {
                        assert(front[i] == s);
                    }
                }
                if front.contains(s) {
                    let i = choose|i: int| 0 <= i < front.len() && front[i] == s;
                    assert(order[i] == s);
                }
                assert(order[order.len() - 1] == order.last());
            }
            if order.last() != session_id {
                assert(kept == front_kept.push(order.last()));
                if front_kept.contains(s) {
                    let i = choose|i: int| 0 <= i < front_kept.len() && front_kept[i] == s;
                    assert(kept[i] == s);
                }
                assert(kept[kept.len() - 1] == order.last());
            }
        }
        if order.no_duplicates() {
            assert(front.no_duplicates());
            assert(!front.contains(order.last()));
            if order.last() != session_id {
                assert(!front_kept.contains(order.last()));
                assert forall|i: int, j: int|
                    0 <= i < kept.len() && 0 <= j < kept.len() && i != j implies kept[i]
                    != kept[j] by {
                    if i == front_kept.len() {
                        assert(front_kept.contains(front_kept[j]));
                    } else if j == front_kept.len() {
                        assert(front_kept.contains(front_kept[i]));
                    }
                }
            }
        }
        assert(order.contains(order.last()));
        if order.contains(session_id) && order.last() != session_id {
            let i = choose|i: int| 0 <= i < order.len() && order[i] == session_id;
            assert(front[i] == session_id);
        }
        if !order.contains(session_id) {
            assert(forall|i: int| 0 <= i < front.len() ==> #[trigger] front[i] == order[i]);
            assert(!front.contains(session_id));
        }
    }
}

/// The sessions that are tracked, by cell and in the order of observation.
pub struct LiveExecSessionState {
    sessions_by_cell: CellMap<SessionSet>,
    observation_order: VecDeque<i32>,
}

impl View for LiveExecSessionState {
    type V = LiveSessions;

    closed spec fn view(&self) -> LiveSessions {
        LiveSessions { order: self.observation_order@, owner: owners(self.sessions_by_cell@) }
    }
}

impl LiveExecSessionState {
    /// Every cell lists some session; the sessions in the cells are those in the order, each
    /// listed once in both, and no more than the limit.
    pub closed spec fn wf(&self) -> bool {
        &&& self.wf_unbounded()
        &&& self@.valid()
    }

    /// What a well-formed state tracks is valid.
    pub proof fn lemma_valid(&self)
        requires
            self.wf(),
        ensures
            self@.valid(),
    {
    }

    closed spec fn wf_unbounded(&self) -> bool {
        &&& self.sessions_by_cell.wf()
        &&& cells_valid(self.sessions_by_cell@)
    }

    /// Takes `session_id` out of the order of observation.
    fn forget_observation(&mut self, session_id: i32)
        ensures
            final(self).sessions_by_cell == old(self).sessions_by_cell,
            final(self).observation_order@ == without_session(
                old(self).observation_order@,
                session_id,
            ),
    {
        let ghost before = self.observation_order@;
        let mut kept: VecDeque<i32> = VecDeque::new();
        let mut index: usize = 0;
        proof {
            reveal(Seq::filter);
            assert(before.take(0) =~= Seq::<i32>::empty());
        }
        while index < self.observation_order.len()
            invariant
                self.observation_order@ == before,
                self.sessions_by_cell == old(self).sessions_by_cell,
                index <= before.len(),
                kept@ == without_session(before.take(index as int), session_id),
            decreases before.len() - index,
        {
            let observed: i32 = self.observation_order[index];
            proof {
                reveal(Seq::filter);
                assert(before.take(index + 1).drop_last() =~= before.take(index as int));
                assert(before.take(index + 1).last() == observed);
            }
            if observed != session_id {
                kept.push_back(observed);
            }
            index = index + 1;
        }
        assert(before.take(index as int) =~= before);
        self.observation_order = kept;
    }

    /// Stops tracking `session_id`.
    pub fn remove(&mut self, session_id: i32)
        requires
            old(self).wf(),
        ensures
            final(self).wf(),
            final(self)@ == old(self)@.forget(session_id),
    {
        let ghost cells = self.sessions_by_cell@;
        self.forget_observation(session_id);
        remove_session_from_cells(&mut self.sessions_by_cell, session_id);
        proof {
            lemma_pruned(cells, self.sessions_by_cell@, session_id);
            lemma_without(old(self)@.order, session_id);
            assert(self@ =~= old(self)@.forget(session_id));
        }
    }

    /// Makes `session_id` the newest observation, made by `cell_id`, and drops the oldest where
    /// that is one too many.
    pub fn move_to_cell(&mut self, session_id: i32, cell_id: &CellId)
        requires
            old(self).wf(),
        ensures
            final(self).wf(),
            final(self)@ == old(self)@.move_to(session_id, cell_id@),
    {
        self.remove(session_id);
        let ghost kept = self@;
        let ghost kept_cells = self.sessions_by_cell@;
        proof {
            lemma_without(old(self)@.order, session_id);
        }
        self.observation_order.push_back(session_id);
        let sessions: &mut SessionSet = self.sessions_by_cell.entry_or_insert(
            cell_id,
            SessionSet::new(),
        );
        sessions.insert(session_id);
        let ghost appended = self@;
        proof {
            let listed = self.sessions_by_cell@[cell_id@];
            assert(self.sessions_by_cell@ == kept_cells.insert(cell_id@, listed));
            lemma_listed(kept_cells, cell_id@, listed, session_id);
            assert(appended =~= kept.append(session_id, cell_id@));
            assert forall|s: i32| #[trigger] appended.order.contains(s) <==>
                appended.owner.dom().contains(s) by {
                assert(appended.order.contains(s) <==> kept.order.contains(s) || s == session_id)
                    by {
                    if kept.order.contains(s) {
                        let i = choose|i: int| 0 <= i < kept.order.len() && kept.order[i] == s;
                        assert(appended.order[i] == s);
                    }
                    assert(appended.order[kept.order.len() as int] == session_id);
                }
            }
            assert(appended.order.no_duplicates()) by {
                assert(!kept.order.contains(session_id));
                assert forall|i: int, j: int|
                    0 <= i < appended.order.len() && 0 <= j < appended.order.len() && i
                        != j implies appended.order[i] != appended.order[j] by {
                    if i == kept.order.len() {
                        assert(kept.order.contains(kept.order[j]));
                    } else if j == kept.order.len() {
                        assert(kept.order.contains(kept.order[i]));
                    }
                }
            }
        }
        while self.observation_order.len() > MAX_UNIFIED_EXEC_PROCESSES
            invariant
                self.wf_unbounded(),
                self@ == appended || self@ == appended.evict(),
                self@ == appended.evict() || appended.order.len() > MAX_UNIFIED_EXEC_PROCESSES,
                appended.order.len() <= MAX_UNIFIED_EXEC_PROCESSES + 1,
                appended.order.no_duplicates(),
                forall|s: i32| #[trigger]
                    appended.order.contains(s) <==> appended.owner.dom().contains(s),
            decreases self.observation_order@.len(),
        {
            let ghost cells = self.sessions_by_cell@;
            if let Some(oldest_session_id) = self.observation_order.pop_front() {
                remove_session_from_cells(&mut self.sessions_by_cell, oldest_session_id);
                proof {
                    lemma_pruned(cells, self.sessions_by_cell@, oldest_session_id);
                    assert(self@ =~= appended.evict());
                }
            }
        }
        proof {
            assert(self@ == appended.evict());
            let last = self@;
            if appended.order.len() > MAX_UNIFIED_EXEC_PROCESSES {
                assert forall|s: i32| #[trigger] last.order.contains(s) <==>
                    last.owner.dom().contains(s) by {
                    if last.order.contains(s) {
                        let i = choose|i: int| 0 <= i < last.order.len() && last.order[i] == s;
                        assert(appended.order[i + 1] == s);
                    }
                    if appended.order.contains(s) && s != appended.order[0] {
                        let i = choose|i: int| 0 <= i < appended.order.len() && appended.order[i] == s;
                        assert(last.order[i - 1] == s);
                    }
                }
            }
        }
    }
}

/// The registry of live exec sessions.
pub struct LiveExecSessionRegistry {
    state: LiveExecSessionState,
}

impl View for LiveExecSessionRegistry {
    type V = LiveSessions;

    closed spec fn view(&self) -> LiveSessions {
        self.state@
    }
}

impl Default for LiveExecSessionRegistry {
    fn default() -> (registry: LiveExecSessionRegistry)
        ensures
            registry.wf(),
            registry@ == LiveSessions::none(),
    {
        let state = LiveExecSessionState {
            sessions_by_cell: CellMap::new(),
            observation_order: VecDeque::new(),
        };
        assert(state@ =~= LiveSessions::none());
        LiveExecSessionRegistry { state }
    }
}

impl LiveExecSessionRegistry {
    /// The state is well formed.
    pub closed spec fn wf(&self) -> bool {
        self.state.wf()
    }

    /// What a well-formed registry tracks is valid.
    pub proof fn lemma_valid(&self)
        requires
            self.wf(),
        ensures
            self@.valid(),
    {
    }

    /// Takes note of a tool result that `cell_id` saw, where it names `result_session_id`.
    pub fn observe_session(
        &mut self,
        cell_id: &CellId,
        tool_name: &str,
        is_default_namespace: bool,
        input_session_id: Option<i32>,
        result_session_id: Option<i32>,
    )
        requires
            old(self).wf(),
        ensures
            final(self).wf(),
            final(self)@ == old(self)@.observe(
                cell_id@,
                tool_name@,
                is_default_namespace,
                input_session_id,
                result_session_id,
            ),
    {
        if !is_default_namespace {
            return;
        }
        proof {
            reveal_strlit("exec_command");
            reveal_strlit("wait_process");
            reveal_strlit("write_stdin");
            assert(EXEC_COMMAND_TOOL@[0] != WAIT_PROCESS_TOOL@[0]);
            assert(EXEC_COMMAND_TOOL@[0] != WRITE_STDIN_TOOL@[0]);
        }
        if same_text(tool_name, EXEC_COMMAND_TOOL) {
            if let Some(session_id) = result_session_id {
                self.state.move_to_cell(session_id, cell_id);
            }
        } else if same_text(tool_name, WAIT_PROCESS_TOOL) || same_text(
            tool_name,
            WRITE_STDIN_TOOL,
        ) {
            if let Some(session_id) = input_session_id {
                self.state.remove(session_id);
            }
            if let Some(session_id) = result_session_id {
                self.state.move_to_cell(session_id, cell_id);
            }
        }
    }

    /// Takes note of a tool result that `cell_id` saw: the session that the result names is
    /// still live and now belongs to `cell_id`, and a session that was waited for or written to
    /// is live only where the result names it again.
    pub fn observe_tool_result(
        &mut self,
        cell_id: &CellId,
        tool_name: &str,
        is_default_namespace: bool,
        input_session_id: Option<i32>,
        result: &serde_json::Value,
    )
        requires
            old(self).wf(),
        ensures
            final(self).wf(),
            final(self)@ == old(self)@.observe(
                cell_id@,
                tool_name@,
                is_default_namespace,
                input_session_id,
                result_session(*result),
            ),
    {
        let result_session_id: Option<i32> = match integer_member(result, SESSION_ID_MEMBER) {
            Some(value) => session_from_integer(value),
            None => None,
        };
        self.observe_session(
            cell_id,
            tool_name,
            is_default_namespace,
            input_session_id,
            result_session_id,
        );
    }

    /// The live sessions that `cell_id` reports, in ascending order.
    pub fn sessions_for_cell(&self, cell_id: &CellId) -> (sessions: Vec<i32>)
        requires
            self.wf(),
        ensures
            ascending(sessions@),
            sessions@.to_set() == self@.of_cell(cell_id@),
    {
        match self.state.sessions_by_cell.get(cell_id) {
            Some(sessions) => {
                let listed: Vec<i32> = sessions.to_vec();
                proof {
                    let cells = self.state.sessions_by_cell@;
                    assert forall|s: i32| #[trigger] sessions@.contains(s) <==> self@.of_cell(
                        cell_id@,
                    ).contains(s) by {
                        if sessions@.contains(s) {
                            assert(holds(cells, cell_id@, s));
                            lemma_owner(cells, cell_id@, s);
                        }
                        if self@.of_cell(cell_id@).contains(s) {
                            assert(holds(cells, owners(cells)[s], s));
                        }
                    }
                    assert(sessions@ =~= self@.of_cell(cell_id@));
                }
                listed
            },
            None => {
                let listed: Vec<i32> = Vec::new();
                proof {
                    let cells = self.state.sessions_by_cell@;
                    assert forall|s: i32| !self@.of_cell(cell_id@).contains(s) by {
                        if self@.of_cell(cell_id@).contains(s) {
                            assert(holds(cells, owners(cells)[s], s));
                        }
                    }
                    assert(listed@.to_set() =~= self@.of_cell(cell_id@));
                }
                listed
            },
        }
    }
}

/// `value` as a session identity, where it is one.
pub fn session_from_integer(value: i64) -> (session_id: Option<i32>)
    ensures
        session_id == session_in_range(value),
{
    if i32::MIN as i64 <= value && value <= i32::MAX as i64 {
        Some(value as i32)
    } else {
        None
    }
}

} // verus!
