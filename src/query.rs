use vstd::prelude::*;
use crate::store::{filter_passes, passes_filter, ChangeSnapshot, ComponentCell};
use crate::tick::{initial_cursor, initial_cursor_of, is_newer, tick_newer};

verus! {

/// A read of one component, restricted to the entities that pass a filter.
/// Its persistent state is a cursor: the tick up to which changes were seen.
#[derive(Clone, Copy, Debug, PartialEq, Eq)]
pub struct ReactiveQueryData {
    pub component: u64,
    /// The filter: when set, an entity must also hold this component.
    pub with: Option<u64>,
}

impl ReactiveQueryData {
    /// Row `i` is read by this query: it holds the component and its entity
    /// passes the filter.
    pub open spec fn reads_row(self, cells: Seq<ComponentCell>, i: int) -> bool {
        cells[i].component == self.component && passes_filter(cells, cells[i].entity, self.with)
    }

    /// Row `i` is read by this query and was written after `cursor`.
    pub open spec fn row_changed(self, cells: Seq<ComponentCell>, i: int, cursor: u32, this_run: u32) -> bool {
        self.reads_row(cells, i) && is_newer(cells[i].changed, cursor, this_run)
    }

    /// Some row that this query reads was written after `cursor`.
    pub open spec fn changed_since(self, snap: ChangeSnapshot, cursor: u32) -> bool {
        exists|i: int|
            0 <= i < snap.cells@.len() && #[trigger] self.row_changed(snap.cells@, i, cursor, snap.change_tick)
    }

    /// The entities of the first `n` rows that this query reads, in order.
    pub open spec fn rows_upto(self, cells: Seq<ComponentCell>, n: nat) -> Seq<u64>
        decreases n,
    {
        if n == 0 {
            Seq::empty()
        } else {
            let prev = self.rows_upto(cells, (n - 1) as nat);
            if self.reads_row(cells, n - 1) {
                prev.push(cells[n - 1].entity)
            } else {
                prev
            }
        }
    }

    /// The entities of all rows that this query reads, in order.
    pub open spec fn rows(self, cells: Seq<ComponentCell>) -> Seq<u64> {
        self.rows_upto(cells, cells.len())
    }

    /// Builds the query's state: a cursor old enough that every row present
    /// counts as changed on the first check.
    pub fn init(&self, snap: &ChangeSnapshot) -> (cursor: u32)
        ensures
            cursor == initial_cursor_of(snap.change_tick),
    {
        initial_cursor(snap.change_tick)
    }

    /// Whether some row that this query reads changed since the cursor; the
    /// cursor then moves to the snapshot's tick.
    pub fn is_changed(&self, snap: &ChangeSnapshot, cursor: &mut u32) -> (r: bool)
        ensures
            r == self.changed_since(*snap, *old(cursor)),
            *final(cursor) == snap.change_tick,
    {
        let last_run = *cursor;
        let mut i: usize = 0;
        while i < snap.cells.len()
            invariant
                i <= snap.cells@.len(),
                last_run == *old(cursor),
                forall|j: int| 0 <= j < i ==> !self.row_changed(snap.cells@, j, last_run, snap.change_tick),
            decreases snap.cells@.len() - i,
        {
            let cell = snap.cells[i];
            if cell.component == self.component && tick_newer(cell.changed, last_run, snap.change_tick)
                && filter_passes(&snap.cells, cell.entity, self.with) {
                assert(self.row_changed(snap.cells@, i as int, last_run, snap.change_tick));
                *cursor = snap.change_tick;
                return true;
            }
            i = i + 1;
        }
        *cursor = snap.change_tick;
        false
    }

    /// The view that the reaction's logic reads: the entities of the rows
    /// that this query reads. The cursor moves to the snapshot's tick.
    pub fn get(&self, snap: &ChangeSnapshot, cursor: &mut u32) -> (r: Vec<u64>)
        ensures
            r@ == self.rows(snap.cells@),
            *final(cursor) == snap.change_tick,
    {
        let mut out: Vec<u64> = Vec::new();
        let mut i: usize = 0;
        while i < snap.cells.len()
            invariant
                i <= snap.cells@.len(),
                out@ == self.rows_upto(snap.cells@, i as nat),
            decreases snap.cells@.len() - i,
        {
            let cell = snap.cells[i];
            if cell.component == self.component && filter_passes(&snap.cells, cell.entity, self.with) {
                out.push(cell.entity);
            }
            i = i + 1;
        }
        *cursor = snap.change_tick;
        out
    }
}

} // verus!
