use vstd::prelude::*;
use crate::query::ReactiveQueryData;
use crate::store::{resource_changed, resource_is_changed, ChangeSnapshot};
use crate::tick::initial_cursor_of;

verus! {

/// An input of a reaction's logic, composed from the kinds that can report
/// whether they changed.
#[derive(Debug)]
pub enum ReactiveSystemParam {
    /// The deferred-command sink: write-only, never reports a change.
    Commands,
    /// A read of one resource, tracked by the resource's own change flag.
    Res(u64),
    /// A filtered read of one component, tracked by a cursor of its own.
    Query(ReactiveQueryData),
    /// A tuple of one input.
    Single(Box<ReactiveSystemParam>),
    /// A tuple of two inputs, read from the same instant.
    Pair(Box<ReactiveSystemParam>, Box<ReactiveSystemParam>),
}

/// The persistent state of an input, built once and kept across checks.
#[derive(Debug, PartialEq, Eq)]
pub enum ParamState {
    /// The command sink and resource reads keep no state.
    Stateless,
    /// A query's cursor: the tick up to which it has seen changes.
    Cursor(u32),
    /// The states of the two members of a pair.
    Pair(Box<ParamState>, Box<ParamState>),
}

/// What the reaction's logic reads when it runs.
#[derive(Debug, PartialEq, Eq)]
pub enum ParamView {
    /// A fresh handle to the command sink.
    Commands,
    /// A read of the resource with this id.
    Res(u64),
    /// The entities of the rows that a query reads.
    Rows(Vec<u64>),
    /// The view of a tuple of one input.
    Single(Box<ParamView>),
    /// The views of the two members of a pair.
    Pair(Box<ParamView>, Box<ParamView>),
}

impl ReactiveSystemParam {
    /// `state` has the shape that this input's state takes.
    pub open spec fn fits(self, state: ParamState) -> bool
        decreases self,
    {
        match self {
            ReactiveSystemParam::Commands => state == ParamState::Stateless,
            ReactiveSystemParam::Res(_) => state == ParamState::Stateless,
            ReactiveSystemParam::Query(_) => state is Cursor,
            ReactiveSystemParam::Single(p) => p.fits(state),
            ReactiveSystemParam::Pair(a, b) => match state {
                ParamState::Pair(sa, sb) => a.fits(*sa) && b.fits(*sb),
                _ => false,
            },
        }
    }

    /// The state that `init` builds against a store at `change_tick`.
    pub open spec fn initial(self, change_tick: u32) -> ParamState
        decreases self,
    {
        match self {
            ReactiveSystemParam::Commands => ParamState::Stateless,
            ReactiveSystemParam::Res(_) => ParamState::Stateless,
            ReactiveSystemParam::Query(_) => ParamState::Cursor(initial_cursor_of(change_tick)),
            ReactiveSystemParam::Single(p) => p.initial(change_tick),
            ReactiveSystemParam::Pair(a, b) => ParamState::Pair(
                Box::new(a.initial(change_tick)),
                Box::new(b.initial(change_tick)),
            ),
        }
    }

    /// Whether the input changed, read from `snap` with state `state`: the
    /// logical or over the members of a tuple.
    pub open spec fn changed(self, snap: ChangeSnapshot, state: ParamState) -> bool
        decreases self,
    {
        match self {
            ReactiveSystemParam::Commands => false,
            ReactiveSystemParam::Res(r) => resource_changed(snap, r),
            ReactiveSystemParam::Query(q) => match state {
                ParamState::Cursor(c) => q.changed_since(snap, c),
                _ => false,
            },
            ReactiveSystemParam::Single(p) => p.changed(snap, state),
            ReactiveSystemParam::Pair(a, b) => match state {
                ParamState::Pair(sa, sb) => a.changed(snap, *sa) || b.changed(snap, *sb),
                _ => false,
            },
        }
    }

    /// The state after a check or a read at `change_tick`: every cursor has
    /// moved to that tick.
    pub open spec fn advanced(self, state: ParamState, change_tick: u32) -> ParamState
        decreases self,
    {
        match self {
            ReactiveSystemParam::Query(_) => ParamState::Cursor(change_tick),
            ReactiveSystemParam::Single(p) => p.advanced(state, change_tick),
            ReactiveSystemParam::Pair(a, b) => match state {
                ParamState::Pair(sa, sb) => ParamState::Pair(
                    Box::new(a.advanced(*sa, change_tick)),
                    Box::new(b.advanced(*sb, change_tick)),
                ),
                _ => state,
            },
            _ => state,
        }
    }

    /// `view` is what the input reads from `snap`.
    pub open spec fn view_of(self, snap: ChangeSnapshot, view: ParamView) -> bool
        decreases self,
    {
        match self {
            ReactiveSystemParam::Commands => view == ParamView::Commands,
            ReactiveSystemParam::Res(r) => view == ParamView::Res(r),
            ReactiveSystemParam::Query(q) => match view {
                ParamView::Rows(rows) => rows@ == q.rows(snap.cells@),
                _ => false,
            },
            ReactiveSystemParam::Single(p) => match view {
                ParamView::Single(v) => p.view_of(snap, *v),
                _ => false,
            },
            ReactiveSystemParam::Pair(a, b) => match view {
                ParamView::Pair(va, vb) => a.view_of(snap, *va) && b.view_of(snap, *vb),
                _ => false,
            },
        }
    }

    /// Builds the input's persistent state; the members of a tuple are built
    /// in order against the same store.
    pub fn init(&self, snap: &ChangeSnapshot) -> (state: ParamState)
        ensures
            state == self.initial(snap.change_tick),
            self.fits(state),
        decreases self,
    {
        match self {
            ReactiveSystemParam::Commands => ParamState::Stateless,
            ReactiveSystemParam::Res(_) => ParamState::Stateless,
            ReactiveSystemParam::Query(q) => ParamState::Cursor(q.init(snap)),
            ReactiveSystemParam::Single(p) => p.init(snap),
            ReactiveSystemParam::Pair(a, b) => {
                let sa = a.init(snap);
                let sb = b.init(snap);
                ParamState::Pair(Box::new(sa), Box::new(sb))
            },
        }
    }

    /// Whether the input changed since its state was last advanced. Every
    /// member of a tuple is checked, also after one has reported a change, so
    /// that each cursor moves; the returned state is the advanced one.
    pub fn is_changed(&self, snap: &ChangeSnapshot, state: ParamState) -> (r: (bool, ParamState))
        requires
            self.fits(state),
        ensures
            r.0 == self.changed(*snap, state),
            r.1 == self.advanced(state, snap.change_tick),
            self.fits(r.1),
        decreases self,
    {
        match self {
            ReactiveSystemParam::Commands => (false, state),
            ReactiveSystemParam::Res(id) => (resource_is_changed(snap, *id), state),
            ReactiveSystemParam::Query(q) => match state {
                ParamState::Cursor(c) => {
                    let mut cursor = c;
                    let changed = q.is_changed(snap, &mut cursor);
                    (changed, ParamState::Cursor(cursor))
                },
                _ => (false, state),
            },
            ReactiveSystemParam::Single(p) => p.is_changed(snap, state),
            ReactiveSystemParam::Pair(a, b) => match state {
                ParamState::Pair(sa, sb) => {
                    let (ca, na) = a.is_changed(snap, *sa);
                    let (cb, nb) = b.is_changed(snap, *sb);
                    (ca || cb, ParamState::Pair(Box::new(na), Box::new(nb)))
                },
                _ => (false, state),
            },
        }
    }

    /// Materialises what the input reads, every member of a tuple from the
    /// same instant; the returned state is the advanced one.
    pub fn get(&self, snap: &ChangeSnapshot, state: ParamState) -> (r: (ParamView, ParamState))
        requires
            self.fits(state),
        ensures
            self.view_of(*snap, r.0),
            r.1 == self.advanced(state, snap.change_tick),
            self.fits(r.1),
        decreases self,
    {
        match self {
            ReactiveSystemParam::Commands => (ParamView::Commands, state),
            ReactiveSystemParam::Res(id) => (ParamView::Res(*id), state),
            ReactiveSystemParam::Query(q) => match state {
                ParamState::Cursor(c) => {
                    let mut cursor = c;
                    let rows = q.get(snap, &mut cursor);
                    (ParamView::Rows(rows), ParamState::Cursor(cursor))
                },
                _ => (ParamView::Commands, state),
            },
            ReactiveSystemParam::Single(p) => {
                let (v, s) = p.get(snap, state);
                (ParamView::Single(Box::new(v)), s)
            },
            ReactiveSystemParam::Pair(a, b) => match state {
                ParamState::Pair(sa, sb) => {
                    let (va, na) = a.get(snap, *sa);
                    let (vb, nb) = b.get(snap, *sb);
                    (ParamView::Pair(Box::new(va), Box::new(vb)), ParamState::Pair(Box::new(na), Box::new(nb)))
                },
                _ => (ParamView::Commands, state),
            },
        }
    }
}

} // verus!
