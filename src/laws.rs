use vstd::prelude::*;
use crate::param::{ParamState, ReactiveSystemParam};
use crate::query::ReactiveQueryData;
use crate::reaction::{committed, due, due_upto, swept, Attached};
use crate::store::{resource_changed, ChangeSnapshot, ResourceCell};
use crate::tick::{age, is_newer};

verus! {

/// The positions listed by a sweep over the first `n` reactions are exactly
/// those of the triggered ones, each once and below `n`.
proof fn lemma_due_upto(rs: Seq<Attached>, snap: ChangeSnapshot, n: nat)
    requires
        n <= rs.len(),
        rs.len() <= usize::MAX,
    ensures
        forall|k: int|
            0 <= k < n ==> (due_upto(rs, snap, n).contains(k as usize)
                <==> #[trigger] rs[k].reaction.system.triggers(snap)),
        forall|x: usize| #[trigger] due_upto(rs, snap, n).contains(x) ==> (x as int) < n,
        due_upto(rs, snap, n).no_duplicates(),
    decreases n,
{
    if n > 0 {
        lemma_due_upto(rs, snap, (n - 1) as nat);
        let prev = due_upto(rs, snap, (n - 1) as nat);
        let last = (n - 1) as usize;
        if rs[n - 1].reaction.system.triggers(snap) {
            let cur = prev.push(last);
            assert(cur[prev.len() as int] == last);
            assert forall|x: usize| #[trigger] cur.contains(x) implies (x == last || prev.contains(x)) by {
                let j = choose|j: int| 0 <= j < cur.len() && cur[j] == x;
                if j < prev.len() {
                    assert(prev[j] == x);
                }
            }
            assert forall|x: usize| prev.contains(x) implies #[trigger] cur.contains(x) by {
                let j = choose|j: int| 0 <= j < prev.len() && prev[j] == x;
                assert(cur[j] == x);
            }
            assert(cur.contains(last));
            assert forall|a: int, b: int| 0 <= a < cur.len() && 0 <= b < cur.len() && a != b implies cur[a] != cur[b] by {
                if a < prev.len() && b < prev.len() {
                } else if a < prev.len() {
                    assert(prev.contains(cur[a]));
                } else {
                    assert(prev.contains(cur[b]));
                }
            }
        }
    }
}

/// Whether a sweep lists a reaction is decided by its own inputs alone:
/// it is listed, exactly once, if and only if it is ready and its inputs
/// changed.
pub proof fn lemma_run_iff_changed(rs: Seq<Attached>, snap: ChangeSnapshot, i: int)
    requires
        0 <= i < rs.len(),
        rs.len() <= usize::MAX,
    ensures
        due(rs, snap).contains(i as usize) <==> rs[i].reaction.system.triggers(snap),
        due(rs, snap).no_duplicates(),
{
    lemma_due_upto(rs, snap, rs.len());
}

/// A reaction none of whose inputs changed is not run by a sweep.
pub proof fn lemma_quiet_reaction_not_run(rs: Seq<Attached>, snap: ChangeSnapshot, i: int)
    requires
        0 <= i < rs.len(),
        rs.len() <= usize::MAX,
        !rs[i].reaction.system.triggers(snap),
    ensures
        !due(rs, snap).contains(i as usize),
{
    lemma_run_iff_changed(rs, snap, i);
}

/// A reaction whose only input is a query, one of whose rows was written
/// after its cursor, is run by the next sweep, exactly once; a later sweep,
/// over a store in which every row it reads is at least as old as the first
/// sweep, does not run it again.
pub proof fn lemma_single_query_runs_once(
    before: Seq<Attached>,
    after: Seq<Attached>,
    snap: ChangeSnapshot,
    later: ChangeSnapshot,
    i: int,
    q: ReactiveQueryData,
    cursor: u32,
)
    requires
        0 <= i < before.len(),
        before.len() <= usize::MAX,
        before[i].reaction.system.param == ReactiveSystemParam::Query(q),
        before[i].reaction.system.state == Some(ParamState::Cursor(cursor)),
        q.changed_since(snap, cursor),
        after.len() == before.len(),
        forall|k: int| 0 <= k < before.len() ==> after[k] == swept(#[trigger] before[k], snap),
        forall|k: int|
            0 <= k < later.cells@.len() && #[trigger] q.reads_row(later.cells@, k) ==> age(
                later.cells@[k].changed,
                later.change_tick,
            ) >= age(snap.change_tick, later.change_tick),
    ensures
        due(before, snap).contains(i as usize),
        due(before, snap).no_duplicates(),
        !due(after, later).contains(i as usize),
{
    lemma_run_iff_changed(before, snap, i);
    assert(after[i] == swept(before[i], snap));
    assert(after[i].reaction.system.state == Some(ParamState::Cursor(snap.change_tick)));
    assert forall|k: int| 0 <= k < later.cells@.len() implies !#[trigger] q.row_changed(
        later.cells@,
        k,
        snap.change_tick,
        later.change_tick,
    ) by {
        if q.reads_row(later.cells@, k) {
            assert(!is_newer(later.cells@[k].changed, snap.change_tick, later.change_tick));
        }
    }
    assert(!q.changed_since(later, snap.change_tick));
    lemma_run_iff_changed(after, later, i);
}

/// A reaction over a pair of inputs is run by a sweep, once, if and only if
/// either member changed: changing only the second suffices, changing neither
/// does not, and changing both still runs it once.
pub proof fn lemma_pair_runs_on_either(
    rs: Seq<Attached>,
    snap: ChangeSnapshot,
    i: int,
    a: ReactiveSystemParam,
    b: ReactiveSystemParam,
    sa: ParamState,
    sb: ParamState,
)
    requires
        0 <= i < rs.len(),
        rs.len() <= usize::MAX,
        rs[i].reaction.system.param == ReactiveSystemParam::Pair(Box::new(a), Box::new(b)),
        rs[i].reaction.system.state == Some(ParamState::Pair(Box::new(sa), Box::new(sb))),
    ensures
        due(rs, snap).contains(i as usize) <==> (a.changed(snap, sa) || b.changed(snap, sb)),
        due(rs, snap).no_duplicates(),
{
    lemma_run_iff_changed(rs, snap, i);
}

/// A reaction that reads one resource is run by a sweep if and only if that
/// resource's own change flag is set.
pub proof fn lemma_resource_runs_iff_flag(rs: Seq<Attached>, snap: ChangeSnapshot, i: int, r: u64)
    requires
        0 <= i < rs.len(),
        rs.len() <= usize::MAX,
        rs[i].reaction.system.param == ReactiveSystemParam::Res(r),
        rs[i].reaction.system.state is Some,
    ensures
        due(rs, snap).contains(i as usize) <==> resource_changed(snap, r),
{
    lemma_run_iff_changed(rs, snap, i);
}

/// Writing a resource other than `r` does not change `r`'s change flag.
pub proof fn lemma_unrelated_resource_write(
    snap: ChangeSnapshot,
    written: ChangeSnapshot,
    r: u64,
    k: int,
    tick: u32,
)
    requires
        0 <= k < snap.resources@.len(),
        snap.resources@[k].resource != r,
        written.resources@ == snap.resources@.update(
            k,
            ResourceCell { resource: snap.resources@[k].resource, changed: tick },
        ),
        written.last_change_tick == snap.last_change_tick,
        written.change_tick == snap.change_tick,
    ensures
        resource_changed(written, r) == resource_changed(snap, r),
{
    if resource_changed(snap, r) {
        let j = choose|j: int|
            0 <= j < snap.resources@.len() && snap.resources@[j].resource == r && is_newer(
                snap.resources@[j].changed,
                snap.last_change_tick,
                snap.change_tick,
            );
        assert(written.resources@[j] == snap.resources@[j]);
    }
    if resource_changed(written, r) {
        let j = choose|j: int|
            0 <= j < written.resources@.len() && written.resources@[j].resource == r && is_newer(
                written.resources@[j].changed,
                written.last_change_tick,
                written.change_tick,
            );
        assert(written.resources@[j] == snap.resources@[j]);
    }
}

/// A reaction is initialised once: committing attachments initialises it if
/// it was not, a second commit leaves it as it is, and a sweep keeps it
/// initialised over the same inputs, so no later commit initialises it again.
pub proof fn lemma_init_once(a: Attached, first: ChangeSnapshot, sweep: ChangeSnapshot, second: ChangeSnapshot)
    ensures
        committed(a, first).reaction.system.state is Some,
        a.reaction.system.state is None ==> committed(a, first).reaction.system.state == Some(
            a.reaction.system.param.initial(first.change_tick),
        ),
        a.reaction.system.state is Some ==> committed(a, first) == a,
        committed(committed(a, first), second) == committed(a, first),
        swept(committed(a, first), sweep).reaction.system.param == a.reaction.system.param,
        committed(swept(committed(a, first), sweep), second) == swept(committed(a, first), sweep),
{
}

/// A reaction attached during a sweep waits for the commit: until then a
/// sweep neither runs it nor changes it, and the commit makes it ready with
/// the state built against the store of that moment.
pub proof fn lemma_attached_waits_for_commit(a: Attached, sweep: ChangeSnapshot, commit: ChangeSnapshot)
    requires
        a.reaction.system.state is None,
    ensures
        !a.reaction.system.triggers(sweep),
        swept(a, sweep) == a,
        committed(a, commit).reaction.system.state == Some(
            a.reaction.system.param.initial(commit.change_tick),
        ),
{
}

} // verus!
