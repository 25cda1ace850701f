use bevy_reactor::{
    attach, commit_attachments, contains_component, filter_passes, initial_cursor, react,
    resource_is_changed, Attached, ChangeSnapshot, ComponentCell, FunctionReactiveSystem,
    ParamState, ParamView, Reaction, ReactiveQueryData, ReactiveSystemParam, ResourceCell, Scope,
    MAX_CHANGE_AGE,
};

const E1: u64 = 1;
const E2: u64 = 2;
const X: u64 = 10;
const Z: u64 = 11;
const MARK: u64 = 12;
const Y: u64 = 20;
const W: u64 = 21;

fn cell(entity: u64, component: u64, changed: u32) -> ComponentCell {
    ComponentCell { entity, component, changed }
}

fn res(resource: u64, changed: u32) -> ResourceCell {
    ResourceCell { resource, changed }
}

fn snapshot(
    cells: Vec<ComponentCell>,
    resources: Vec<ResourceCell>,
    last_change_tick: u32,
    change_tick: u32,
) -> ChangeSnapshot {
    ChangeSnapshot { cells, resources, last_change_tick, change_tick }
}

fn query(component: u64) -> ReactiveSystemParam {
    ReactiveSystemParam::Query(ReactiveQueryData { component, with: None })
}

fn pair(a: ReactiveSystemParam, b: ReactiveSystemParam) -> ReactiveSystemParam {
    ReactiveSystemParam::Pair(Box::new(a), Box::new(b))
}

fn flag(changed: u32, last_change_tick: u32, change_tick: u32) -> bool {
    resource_is_changed(&snapshot(vec![], vec![res(Y, changed)], last_change_tick, change_tick), Y)
}

#[test]
fn change_flag_compares_ages() {
    assert!(flag(5, 4, 10));
    assert!(!flag(4, 4, 10));
    assert!(!flag(3, 4, 10));
    assert!(flag(10, 4, 10));
}

#[test]
fn change_flag_wraps_around() {
    assert!(flag(1, u32::MAX - 1, 3));
    assert!(!flag(u32::MAX - 2, u32::MAX - 1, 3));
}

#[test]
fn change_flag_clamps_old_ages() {
    // Both markers are older than the largest age that is told apart.
    assert!(!flag(0, 1, 4_000_000_000));
    assert!(flag(3_999_999_999, 1, 4_000_000_000));
}

#[test]
fn initial_cursor_is_as_old_as_can_be() {
    assert_eq!(initial_cursor(MAX_CHANGE_AGE + 5), 5);
    assert_eq!(initial_cursor(10), 1_036_800_010);
    // Anything written at or before the build tick counts as changed.
    assert!(flag(10, initial_cursor(10), 10));
    assert!(flag(0, initial_cursor(10), 10));
}

#[test]
fn component_lookup_and_filter() {
    let cells = vec![cell(E1, X, 1), cell(E2, X, 1), cell(E2, MARK, 1)];
    assert!(contains_component(&cells, E2, MARK));
    assert!(!contains_component(&cells, E1, MARK));
    assert!(filter_passes(&cells, E1, None));
    assert!(filter_passes(&cells, E2, Some(MARK)));
    assert!(!filter_passes(&cells, E1, Some(MARK)));
}

#[test]
fn resource_flag_is_per_resource() {
    let snap = snapshot(vec![], vec![res(Y, 3), res(W, 9)], 5, 12);
    assert!(!resource_is_changed(&snap, Y));
    assert!(resource_is_changed(&snap, W));
    // An absent resource has no flag set.
    assert!(!resource_is_changed(&snap, 99));
}

#[test]
fn query_change_needs_the_filter_too() {
    let q = ReactiveQueryData { component: X, with: Some(MARK) };
    let snap = snapshot(vec![cell(E1, X, 8), cell(E2, X, 2), cell(E2, MARK, 2)], vec![], 0, 10);
    let mut cursor: u32 = 5;
    // E1's X changed but E1 fails the filter; E2 passes but did not change.
    assert!(!q.is_changed(&snap, &mut cursor));
    assert_eq!(cursor, 10);

    let snap = snapshot(vec![cell(E1, X, 8), cell(E2, X, 12), cell(E2, MARK, 2)], vec![], 0, 14);
    assert!(q.is_changed(&snap, &mut cursor));
    assert_eq!(cursor, 14);
    assert!(!q.is_changed(&snap, &mut cursor));
}

#[test]
fn query_get_lists_filtered_rows_in_order() {
    let q = ReactiveQueryData { component: X, with: Some(MARK) };
    let snap = snapshot(
        vec![cell(E2, X, 1), cell(E1, X, 1), cell(E2, MARK, 1), cell(3, X, 1), cell(3, MARK, 1)],
        vec![],
        0,
        7,
    );
    let mut cursor: u32 = 0;
    assert_eq!(q.get(&snap, &mut cursor), vec![E2, 3]);
    assert_eq!(cursor, 7);
    assert_eq!(q.init(&snap), initial_cursor(7));
}

#[test]
fn param_init_builds_state_per_member() {
    let p = pair(query(X), pair(ReactiveSystemParam::Res(Y), ReactiveSystemParam::Commands));
    let snap = snapshot(vec![], vec![], 0, 40);
    let state = p.init(&snap);
    let expected = ParamState::Pair(
        Box::new(ParamState::Cursor(initial_cursor(40))),
        Box::new(ParamState::Pair(Box::new(ParamState::Stateless), Box::new(ParamState::Stateless))),
    );
    assert_eq!(state, expected);
}

#[test]
fn commands_never_report_a_change() {
    let snap = snapshot(vec![cell(E1, X, 9)], vec![res(Y, 9)], 0, 10);
    let (changed, state) = ReactiveSystemParam::Commands.is_changed(&snap, ParamState::Stateless);
    assert!(!changed);
    assert_eq!(state, ParamState::Stateless);
}

#[test]
fn pair_check_does_not_short_circuit() {
    let p = pair(query(X), query(Z));
    let snap = snapshot(vec![cell(E1, X, 9), cell(E1, Z, 2)], vec![], 0, 10);
    let state = ParamState::Pair(Box::new(ParamState::Cursor(5)), Box::new(ParamState::Cursor(5)));
    let (changed, next) = p.is_changed(&snap, state);
    assert!(changed);
    // The second member was checked too: its cursor moved.
    let expected = ParamState::Pair(Box::new(ParamState::Cursor(10)), Box::new(ParamState::Cursor(10)));
    assert_eq!(next, expected);
}

#[test]
fn pair_get_reads_both_members() {
    let p = pair(query(X), ReactiveSystemParam::Single(Box::new(ReactiveSystemParam::Res(Y))));
    let snap = snapshot(vec![cell(E1, X, 1), cell(E2, Z, 1)], vec![res(Y, 1)], 0, 3);
    let state = ParamState::Pair(Box::new(ParamState::Cursor(0)), Box::new(ParamState::Stateless));
    let (view, next) = p.get(&snap, state);
    let expected = ParamView::Pair(
        Box::new(ParamView::Rows(vec![E1])),
        Box::new(ParamView::Single(Box::new(ParamView::Res(Y)))),
    );
    assert_eq!(view, expected);
    let expected_state = ParamState::Pair(Box::new(ParamState::Cursor(3)), Box::new(ParamState::Stateless));
    assert_eq!(next, expected_state);
}

#[test]
fn system_run_hands_out_scope_and_view() {
    let mut system = FunctionReactiveSystem::new(query(X));
    let snap = snapshot(vec![cell(E1, X, 1)], vec![], 0, 2);
    system.init(&snap);
    let (scope, view) = system.run(&snap, E2);
    assert_eq!(scope.entity, E2);
    assert_eq!(view, ParamView::Rows(vec![E1]));
    assert_eq!(system.state, Some(ParamState::Cursor(2)));
}

#[test]
fn scope_exposes_its_input() {
    let scope = Scope { entity: E1, input: 42u32 };
    assert_eq!(*scope.input(), 42);
    assert_eq!(scope.entity, E1);
}

#[test]
fn quiet_reaction_is_not_run() {
    let mut rs: Vec<Attached> = Vec::new();
    attach(&mut rs, E1, Reaction::new(query(X)));
    let snap = snapshot(vec![cell(E1, X, 1)], vec![], 0, 2);
    commit_attachments(&mut rs, &snap);
    assert_eq!(react(&mut rs, &snap), vec![0]);
    // Only another component changes.
    let snap = snapshot(vec![cell(E1, X, 1), cell(E2, Z, 5)], vec![], 0, 6);
    assert_eq!(react(&mut rs, &snap), Vec::<usize>::new());
}

#[test]
fn mutated_target_runs_once_then_rests() {
    let mut rs: Vec<Attached> = Vec::new();
    attach(&mut rs, E1, Reaction::new(query(X)));
    commit_attachments(&mut rs, &snapshot(vec![cell(E1, X, 1)], vec![], 0, 2));
    react(&mut rs, &snapshot(vec![cell(E1, X, 1)], vec![], 0, 3));
    let mutated = snapshot(vec![cell(E1, X, 7)], vec![], 0, 8);
    assert_eq!(react(&mut rs, &mutated), vec![0]);
    let later = snapshot(vec![cell(E1, X, 7)], vec![], 0, 9);
    assert_eq!(react(&mut rs, &later), Vec::<usize>::new());
}

#[test]
fn pair_reaction_runs_on_either_member() {
    let mut rs: Vec<Attached> = Vec::new();
    attach(&mut rs, E1, Reaction::new(pair(query(X), query(Z))));
    commit_attachments(&mut rs, &snapshot(vec![], vec![], 0, 2));
    // The first sweep sees both insertions.
    assert_eq!(react(&mut rs, &snapshot(vec![cell(E1, X, 1), cell(E1, Z, 1)], vec![], 0, 3)), vec![0]);
    // Neither changed.
    assert_eq!(react(&mut rs, &snapshot(vec![cell(E1, X, 1), cell(E1, Z, 1)], vec![], 0, 4)).len(), 0);
    // Only the second changed.
    assert_eq!(react(&mut rs, &snapshot(vec![cell(E1, X, 1), cell(E1, Z, 5)], vec![], 0, 6)), vec![0]);
    // Both changed: one run.
    assert_eq!(react(&mut rs, &snapshot(vec![cell(E1, X, 7), cell(E1, Z, 7)], vec![], 0, 8)), vec![0]);
    // Neither changed again.
    assert_eq!(react(&mut rs, &snapshot(vec![cell(E1, X, 7), cell(E1, Z, 7)], vec![], 0, 9)).len(), 0);
}

#[test]
fn resource_reaction_follows_its_flag() {
    let mut rs: Vec<Attached> = Vec::new();
    attach(&mut rs, E1, Reaction::new(ReactiveSystemParam::Res(Y)));
    commit_attachments(&mut rs, &snapshot(vec![], vec![res(Y, 1), res(W, 1)], 0, 2));
    // Only the unrelated resource was written since the trackers were cleared.
    let snap = snapshot(vec![], vec![res(Y, 1), res(W, 4)], 3, 5);
    assert_eq!(react(&mut rs, &snap).len(), 0);
    let snap = snapshot(vec![], vec![res(Y, 6), res(W, 4)], 5, 7);
    assert_eq!(react(&mut rs, &snap), vec![0]);
    let snap = snapshot(vec![], vec![res(Y, 6), res(W, 4)], 7, 8);
    assert_eq!(react(&mut rs, &snap).len(), 0);
}

#[test]
fn init_happens_once() {
    let mut rs: Vec<Attached> = Vec::new();
    attach(&mut rs, E1, Reaction::new(query(X)));
    assert_eq!(rs[0].reaction.system.state, None);
    commit_attachments(&mut rs, &snapshot(vec![], vec![], 0, 100));
    assert_eq!(rs[0].reaction.system.state, Some(ParamState::Cursor(initial_cursor(100))));
    for tick in 101..110u32 {
        react(&mut rs, &snapshot(vec![], vec![], 0, tick));
        commit_attachments(&mut rs, &snapshot(vec![], vec![], 0, tick));
    }
    // Sweeps moved the cursor; no commit built the state anew.
    assert_eq!(rs[0].reaction.system.state, Some(ParamState::Cursor(109)));
}

#[test]
fn first_sweep_after_attach_sees_the_insertion() {
    // Reaction A reads X; E1 holds X, written when it was inserted.
    let mut rs: Vec<Attached> = Vec::new();
    attach(&mut rs, E1, Reaction::new(query(X)));
    commit_attachments(&mut rs, &snapshot(vec![cell(E1, X, 1)], vec![], 0, 1));
    // Sweep 1: the state starts as old as can be, so the insertion counts.
    assert_eq!(react(&mut rs, &snapshot(vec![cell(E1, X, 1)], vec![], 0, 2)), vec![0]);
    // X on E1 is written; sweep 2 runs A once.
    assert_eq!(react(&mut rs, &snapshot(vec![cell(E1, X, 3)], vec![], 0, 4)), vec![0]);
    // Sweep 3, nothing written: A rests.
    assert_eq!(react(&mut rs, &snapshot(vec![cell(E1, X, 3)], vec![], 0, 5)).len(), 0);
}

#[test]
fn resource_change_leaves_query_cursor_sound() {
    // Reaction B reads (Query<&X>, Res<Y>).
    let mut rs: Vec<Attached> = Vec::new();
    attach(&mut rs, E1, Reaction::new(pair(query(X), ReactiveSystemParam::Res(Y))));
    commit_attachments(&mut rs, &snapshot(vec![cell(E1, X, 1)], vec![res(Y, 1)], 0, 1));
    react(&mut rs, &snapshot(vec![cell(E1, X, 1)], vec![res(Y, 1)], 1, 2));
    // Only Y is written.
    assert_eq!(react(&mut rs, &snapshot(vec![cell(E1, X, 1)], vec![res(Y, 3)], 2, 4)), vec![0]);
    let expected = ParamState::Pair(Box::new(ParamState::Cursor(4)), Box::new(ParamState::Stateless));
    assert_eq!(rs[0].reaction.system.state, Some(expected));
    // X is not reported as changed afterwards ...
    assert_eq!(react(&mut rs, &snapshot(vec![cell(E1, X, 1)], vec![res(Y, 3)], 4, 5)).len(), 0);
    // ... and a later write of X is still seen.
    assert_eq!(react(&mut rs, &snapshot(vec![cell(E1, X, 6)], vec![res(Y, 3)], 5, 7)), vec![0]);
}

#[test]
fn reaction_spawned_in_a_run_waits_for_the_commit() {
    let mut rs: Vec<Attached> = Vec::new();
    attach(&mut rs, E1, Reaction::new(query(X)));
    commit_attachments(&mut rs, &snapshot(vec![cell(E1, X, 1)], vec![], 0, 1));
    let snap = snapshot(vec![cell(E1, X, 1)], vec![], 0, 2);
    let due = react(&mut rs, &snap);
    assert_eq!(due, vec![0]);
    // C's logic runs and spawns E2 holding Z, with reaction D reading Z.
    attach(&mut rs, E2, Reaction::new(query(Z)));
    assert_eq!(rs[1].reaction.system.state, None);
    // Until the commit, a sweep neither runs nor initialises D.
    let snap = snapshot(vec![cell(E1, X, 1), cell(E2, Z, 3)], vec![], 0, 4);
    assert_eq!(react(&mut rs, &snap).len(), 0);
    assert_eq!(rs[1].reaction.system.state, None);
    commit_attachments(&mut rs, &snap);
    assert_eq!(rs[1].reaction.system.state, Some(ParamState::Cursor(initial_cursor(4))));
    assert_eq!(rs[0].reaction.system.state, Some(ParamState::Cursor(4)));
    assert_eq!(react(&mut rs, &snapshot(vec![cell(E1, X, 1), cell(E2, Z, 3)], vec![], 0, 5)), vec![1]);
}
