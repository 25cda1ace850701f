use vstd::prelude::*;
use crate::tick::{is_newer, tick_newer};

verus! {

/// The change marker of one component on one entity.
#[derive(Clone, Copy, Debug, PartialEq, Eq)]
pub struct ComponentCell {
    pub entity: u64,
    pub component: u64,
    /// The tick at which the value was last written.
    pub changed: u32,
}

/// The change marker of one resource.
#[derive(Clone, Copy, Debug, PartialEq, Eq)]
pub struct ResourceCell {
    pub resource: u64,
    /// The tick at which the value was last written.
    pub changed: u32,
}

/// What a sweep reads of the store at one instant: the change markers of its
/// component and resource data, the world's current tick, and the tick at
/// which the world's trackers were last cleared.
#[derive(Debug)]
pub struct ChangeSnapshot {
    pub cells: Vec<ComponentCell>,
    pub resources: Vec<ResourceCell>,
    pub last_change_tick: u32,
    pub change_tick: u32,
}

/// The input handed to a reaction's logic: the entity the reaction is
/// attached to, and the caller's input.
#[derive(Debug)]
pub struct Scope<T> {
    pub entity: u64,
    pub input: T,
}

impl<T> Scope<T> {
    /// The wrapped input.
    pub fn input(&self) -> (r: &T)
        ensures
            r == &self.input,
    {
        &self.input
    }
}

/// `entity` holds `component`.
pub open spec fn has_component(cells: Seq<ComponentCell>, entity: u64, component: u64) -> bool {
    exists|j: int| 0 <= j < cells.len() && cells[j].entity == entity && cells[j].component == component
}

/// `entity` passes the filter: no filter, or it holds the filter's component.
pub open spec fn passes_filter(cells: Seq<ComponentCell>, entity: u64, with: Option<u64>) -> bool {
    match with {
        Some(w) => has_component(cells, entity, w),
        None => true,
    }
}

/// Whether `entity` holds `component`.
pub fn contains_component(cells: &Vec<ComponentCell>, entity: u64, component: u64) -> (r: bool)
    ensures
        r == has_component(cells@, entity, component),
{
    let mut i: usize = 0;
    while i < cells.len()
        invariant
            i <= cells.len(),
            forall|j: int| 0 <= j < i ==> !(cells@[j].entity == entity && cells@[j].component == component),
        decreases cells.len() - i,
    {
        if cells[i].entity == entity && cells[i].component == component {
            return true;
        }
        i = i + 1;
    }
    false
}

/// Whether `entity` passes the filter `with`.
pub fn filter_passes(cells: &Vec<ComponentCell>, entity: u64, with: Option<u64>) -> (r: bool)
    ensures
        r == passes_filter(cells@, entity, with),
{
    match with {
        Some(w) => contains_component(cells, entity, w),
        None => true,
    }
}

/// The resource's own change flag: it was written after the world's trackers
/// were last cleared. A resource that is absent has no flag set.
pub open spec fn resource_changed(snap: ChangeSnapshot, resource: u64) -> bool {
    exists|i: int|
        0 <= i < snap.resources@.len() && snap.resources@[i].resource == resource
            && is_newer(snap.resources@[i].changed, snap.last_change_tick, snap.change_tick)
}

/// Reads the change flag of `resource`.
pub fn resource_is_changed(snap: &ChangeSnapshot, resource: u64) -> (r: bool)
    ensures
        r == resource_changed(*snap, resource),
{
    let mut i: usize = 0;
    while i < snap.resources.len()
        invariant
            i <= snap.resources@.len(),
            forall|j: int|
                0 <= j < i ==> !(snap.resources@[j].resource == resource && is_newer(
                    snap.resources@[j].changed,
                    snap.last_change_tick,
                    snap.change_tick,
                )),
        decreases snap.resources@.len() - i,
    {
        let cell = snap.resources[i];
        if cell.resource == resource && tick_newer(cell.changed, snap.last_change_tick, snap.change_tick) {
            return true;
        }
        i = i + 1;
    }
    false
}

} // verus!
