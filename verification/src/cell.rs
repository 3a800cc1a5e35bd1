//! Code cells and tables keyed by them.

use vstd::prelude::*;

verus! {

/// The identity of a code cell.
#[derive(Debug)]
pub struct CellId {
    id: String,
}

impl View for CellId {
    type V = Seq<char>;

    closed spec fn view(&self) -> Seq<char> {
        self.id@
    }
}

impl CellId {
    /// The cell named by `id`.
    pub fn new(id: String) -> (cell_id: CellId)
        ensures
            cell_id@ == id@,
    {
        CellId { id }
    }

    /// The text of the identity.
    pub fn as_str(&self) -> (text: &str)
        ensures
            text@ == self@,
    {
        self.id.as_str()
    }

    /// Whether both name the same cell.
    pub fn same(&self, other: &CellId) -> (equal: bool)
        ensures
            equal == (self@ == other@),
    {
        self.id == other.id
    }
}

impl Clone for CellId {
    fn clone(&self) -> (copy: CellId)
        ensures
            copy == *self,
    {
        CellId { id: self.id.clone() }
    }
}

/// A table with at most one value per cell.
#[verifier::reject_recursive_types(V)]
pub struct CellMap<V> {
    pub(crate) entries: Vec<(CellId, V)>,
}

impl<V> View for CellMap<V> {
    type V = Map<Seq<char>, V>;

    closed spec fn view(&self) -> Map<Seq<char>, V> {
        entries_map(self.entries@)
    }
}

/// Whether some entry is filed under `cell`.
pub(crate) open spec fn has_entry<V>(entries: Seq<(CellId, V)>, cell: Seq<char>) -> bool {
    exists|i: int| 0 <= i < entries.len() && (#[trigger] entries[i]).0@ == cell
}

/// The position of an entry filed under `cell`.
pub(crate) open spec fn entry_index<V>(entries: Seq<(CellId, V)>, cell: Seq<char>) -> int {
    choose|i: int| 0 <= i < entries.len() && (#[trigger] entries[i]).0@ == cell
}

/// The table that `entries` list.
pub(crate) open spec fn entries_map<V>(entries: Seq<(CellId, V)>) -> Map<Seq<char>, V> {
    Map::new(
        |cell: Seq<char>| has_entry(entries, cell),
        |cell: Seq<char>| entries[entry_index(entries, cell)].1,
    )
}

/// No two entries are filed under the same cell.
pub(crate) open spec fn distinct_cells<V>(entries: Seq<(CellId, V)>) -> bool {
    forall|i: int, j: int|
        0 <= i < j < entries.len() ==> (#[trigger] entries[i]).0@ != (#[trigger] entries[j]).0@
}

/// What the table says of the cell of entry `i`.
pub(crate) proof fn lemma_entry<V>(entries: Seq<(CellId, V)>, i: int)
    requires
        distinct_cells(entries),
        0 <= i < entries.len(),
    ensures
        entries_map(entries).dom().contains(entries[i].0@),
        entries_map(entries)[entries[i].0@] == entries[i].1,
{
    let cell = entries[i].0@;
    assert(has_entry(entries, cell));
    let j = entry_index(entries, cell);
    assert(i == j);
}

/// Writing the value of entry `i`, or filing entry `i` at the end, writes the table at its cell.
pub(crate) proof fn lemma_filed<V>(
    before: Seq<(CellId, V)>,
    after: Seq<(CellId, V)>,
    i: int,
)
    requires
        distinct_cells(before),
        0 <= i < after.len(),
        before.len() <= after.len() <= before.len() + 1,
        after.len() == before.len() + 1 ==> i == before.len() && !has_entry(before, after[i].0@),
        i < before.len() ==> after[i].0@ == before[i].0@,
        forall|j: int| 0 <= j < before.len() && j != i ==> after[j] == before[j],
    ensures
        distinct_cells(after),
        entries_map(after) == entries_map(before).insert(after[i].0@, after[i].1),
{
    let cell = after[i].0@;
    assert(distinct_cells(after));
    let expected = entries_map(before).insert(cell, after[i].1);
    assert forall|c: Seq<char>| #[trigger]
        entries_map(after).dom().contains(c) == expected.dom().contains(c) by {
        if has_entry(before, c) {
            let j = entry_index(before, c);
            assert(after[j].0@ == c);
        }
        if c == cell {
            assert(after[i].0@ == c);
        }
        if has_entry(after, c) && c != cell {
            let j = entry_index(after, c);
            assert(before[j].0@ == c);
        }
    }
    assert forall|c: Seq<char>| expected.dom().contains(c) implies (#[trigger] entries_map(
        after,
    )[c]) == expected[c] by {
        if c == cell {
            lemma_entry(after, i);
        } else {
            let j = entry_index(before, c);
            assert(after[j].0@ == c);
            lemma_entry(after, j);
            lemma_entry(before, j);
        }
    }
    assert(entries_map(after) =~= expected);
}

/// Taking entry `i` out takes its cell out of the table.
pub(crate) proof fn lemma_taken<V>(before: Seq<(CellId, V)>, i: int)
    requires
        distinct_cells(before),
        0 <= i < before.len(),
    ensures
        distinct_cells(before.remove(i)),
        entries_map(before.remove(i)) == entries_map(before).remove(before[i].0@),
{
    let cell = before[i].0@;
    let after = before.remove(i);
    assert(distinct_cells(after));
    let expected = entries_map(before).remove(cell);
    assert forall|c: Seq<char>| #[trigger]
        entries_map(after).dom().contains(c) == expected.dom().contains(c) by {
        if has_entry(before, c) && c != cell {
            let j = entry_index(before, c);
            let k = if j < i { j } else { j - 1 };
            assert(after[k].0@ == c);
        }
        if has_entry(after, c) {
            let k = entry_index(after, c);
            let j = if k < i { k } else { k + 1 };
            assert(before[j].0@ == c);
        }
    }
    assert forall|c: Seq<char>| expected.dom().contains(c) implies (#[trigger] entries_map(
        after,
    )[c]) == expected[c] by {
        let j = entry_index(before, c);
        let k = if j < i { j } else { j - 1 };
        assert(before[j].0@ == c);
        assert(after[k].0@ == c);
        lemma_entry(after, k);
        lemma_entry(before, j);
    }
    assert(entries_map(after) =~= expected);
}

impl<V> CellMap<V> {
    /// The table files nothing twice.
    pub closed spec fn wf(&self) -> bool {
        distinct_cells(self.entries@)
    }

    /// The table is what its entries list.
    pub(crate) proof fn lemma_entries(&self)
        ensures
            self.wf() == distinct_cells(self.entries@),
            self@ == entries_map(self.entries@),
    {
    }

    /// The empty table.
    pub fn new() -> (map: CellMap<V>)
        ensures
            map.wf(),
            map@ == Map::<Seq<char>, V>::empty(),
    {
        let map = CellMap { entries: Vec::new() };
        assert(map@ =~= Map::<Seq<char>, V>::empty());
        map
    }

    /// The position of the entry for `cell_id`, or the number of entries.
    fn position(&self, cell_id: &CellId) -> (index: usize)
        requires
            self.wf(),
        ensures
            index <= self.entries@.len(),
            index < self.entries@.len() ==> self.entries@[index as int].0@ == cell_id@,
            index == self.entries@.len() ==> !self@.dom().contains(cell_id@),
    {
        let mut index: usize = 0;
        while index < self.entries.len()
            invariant
                index <= self.entries@.len(),
                forall|i: int|
                    0 <= i < index ==> (#[trigger] self.entries@[i]).0@ != cell_id@,
            decreases self.entries@.len() - index,
        {
            if self.entries[index].0.same(cell_id) {
                return index;
            }
            index = index + 1;
        }
        index
    }

    /// Whether the table has a value for `cell_id`.
    pub fn contains_key(&self, cell_id: &CellId) -> (found: bool)
        requires
            self.wf(),
        ensures
            found == self@.dom().contains(cell_id@),
    {
        let index: usize = self.position(cell_id);
        if index < self.entries.len() {
            proof {
                lemma_entry(self.entries@, index as int);
            }
            true
        } else {
            false
        }
    }

    /// The value for `cell_id`, if there is one.
    pub fn get(&self, cell_id: &CellId) -> (value: Option<&V>)
        requires
            self.wf(),
        ensures
            match value {
                Some(v) => self@.dom().contains(cell_id@) && *v == self@[cell_id@],
                None => !self@.dom().contains(cell_id@),
            },
    {
        let index: usize = self.position(cell_id);
        if index < self.entries.len() {
            proof {
                lemma_entry(self.entries@, index as int);
            }
            Some(&self.entries[index].1)
        } else {
            None
        }
    }

    /// The value for `cell_id`; `fresh` is filed first where there is none.
    pub fn entry_or_insert(&mut self, cell_id: &CellId, fresh: V) -> (value: &mut V)
        requires
            old(self).wf(),
        ensures
            final(self).wf(),
            *value == (if old(self)@.dom().contains(cell_id@) {
                old(self)@[cell_id@]
            } else {
                fresh
            }),
            final(self)@ == old(self)@.insert(cell_id@, *final(value)),
    {
        let ghost before = self.entries@;
        let index: usize = self.position(cell_id);
        if index == self.entries.len() {
            self.entries.push((cell_id.clone(), fresh));
        }
        proof {
            let filed = self.entries@;
            if index < before.len() {
                lemma_entry(before, index as int);
            }
            assert forall|after: Seq<(CellId, V)>|
                after.len() == filed.len() && after[index as int].0 == filed[index as int].0 && (
                forall|i: int| 0 <= i < filed.len() && i != index ==> after[i] == filed[i]) implies (
            #[trigger] entries_map(after)) == entries_map(before).insert(
                cell_id@,
                after[index as int].1,
            ) by {
                lemma_filed(before, after, index as int);
            }
        }
        &mut self.entries[index].1
    }

    /// Takes the value for `cell_id` out of the table.
    pub fn remove(&mut self, cell_id: &CellId)
        requires
            old(self).wf(),
        ensures
            final(self).wf(),
            final(self)@ == old(self)@.remove(cell_id@),
    {
        let index: usize = self.position(cell_id);
        if index < self.entries.len() {
            proof {
                lemma_taken(self.entries@, index as int);
            }
            self.entries.remove(index);
        } else {
            assert(self@ =~= self@.remove(cell_id@));
        }
    }

    /// Whether the table has no value at all.
    pub fn is_empty(&self) -> (empty: bool)
        requires
            self.wf(),
        ensures
            empty == (self@ == Map::<Seq<char>, V>::empty()),
    {
        if self.entries.len() == 0 {
            assert(self@ =~= Map::<Seq<char>, V>::empty());
            true
        } else {
            proof {
                lemma_entry(self.entries@, 0);
            }
            false
        }
    }

    /// Takes every value out of the table.
    pub fn clear(&mut self)
        ensures
            final(self).wf(),
            final(self)@ == Map::<Seq<char>, V>::empty(),
    {
        self.entries.clear();
        assert(self@ =~= Map::<Seq<char>, V>::empty());
    }

    /// Every cell that has a value, each once.
    pub fn keys(&self) -> (cells: Vec<CellId>)
        requires
            self.wf(),
        ensures
            distinct_ids(cells@),
            forall|cell: Seq<char>| #[trigger]
                self@.dom().contains(cell) <==> lists_cell(cells@, cell),
    {
        let mut cells: Vec<CellId> = Vec::new();
        let mut index: usize = 0;
        while index < self.entries.len()
            invariant
                self.wf(),
                index <= self.entries@.len(),
                cells@.len() == index,
                forall|i: int| 0 <= i < index ==> (#[trigger] cells@[i])@ == self.entries@[i].0@,
            decreases self.entries@.len() - index,
        {
            cells.push(self.entries[index].0.clone());
            index = index + 1;
        }
        proof {
            assert forall|cell: Seq<char>| #[trigger] self@.dom().contains(cell) <==> lists_cell(
                cells@,
                cell,
            ) by {
                if self@.dom().contains(cell) {
                    let i = entry_index(self.entries@, cell);
                    assert(cells@[i]@ == cell);
                }
                if lists_cell(cells@, cell) {
                    let i = choose|i: int| 0 <= i < cells@.len() && (#[trigger] cells@[i])@ == cell;
                    assert(self.entries@[i].0@ == cell);
                }
            }
        }
        cells
    }
}

/// `cells` names the cell `cell`.
pub open spec fn lists_cell(cells: Seq<CellId>, cell: Seq<char>) -> bool {
    exists|i: int| 0 <= i < cells.len() && (#[trigger] cells[i])@ == cell
}

/// `cells` names no cell twice.
pub open spec fn distinct_ids(cells: Seq<CellId>) -> bool {
    forall|i: int, j: int|
        0 <= i < j < cells.len() ==> (#[trigger] cells[i])@ != (#[trigger] cells[j])@
}

} // verus!
