use vstd::prelude::*;

verus! {

/// The largest age that bevy's change detection distinguishes; older markers
/// are all treated as this old.
pub const MAX_CHANGE_AGE: u32 = 3258167296;

/// How many ticks lie between `from` and `to`, counted with wraparound.
pub open spec fn age(from: u32, to: u32) -> int {
    if from <= to {
        to - from
    } else {
        to - from + 0x1_0000_0000
    }
}

/// An age clamped to the largest one that can be told apart.
pub open spec fn clamped_age(from: u32, to: u32) -> int {
    if age(from, to) > MAX_CHANGE_AGE {
        MAX_CHANGE_AGE as int
    } else {
        age(from, to)
    }
}

/// A marker set at tick `changed` is newer than a cursor at `last_run`, seen
/// from `this_run`, when it is strictly younger than the cursor.
pub open spec fn is_newer(changed: u32, last_run: u32, this_run: u32) -> bool {
    clamped_age(last_run, this_run) > clamped_age(changed, this_run)
}

/// Relies on bevy's `Tick::is_newer_than`: the wrapping, clamped comparison of
/// two ages.
#[verifier::external_body]
pub(crate) fn tick_newer(changed: u32, last_run: u32, this_run: u32) -> (r: bool)
    ensures
        r == is_newer(changed, last_run, this_run),
{
    bevy::ecs::component::Tick::new(changed).is_newer_than(
        bevy::ecs::component::Tick::new(last_run),
        bevy::ecs::component::Tick::new(this_run),
    )
}

/// The cursor that a freshly built query state starts from: as old as a tick
/// can be, so that everything present counts as changed on the first check.
pub open spec fn initial_cursor_of(change_tick: u32) -> u32 {
    if change_tick >= MAX_CHANGE_AGE {
        (change_tick - MAX_CHANGE_AGE) as u32
    } else {
        (change_tick as int - MAX_CHANGE_AGE as int + 0x1_0000_0000) as u32
    }
}

/// The cursor of a query state built at `change_tick`.
pub fn initial_cursor(change_tick: u32) -> (r: u32)
    ensures
        r == initial_cursor_of(change_tick),
{
    if change_tick >= MAX_CHANGE_AGE {
        change_tick - MAX_CHANGE_AGE
    } else {
        ((change_tick as u64 + 0x1_0000_0000u64) - MAX_CHANGE_AGE as u64) as u32
    }
}

} // verus!
