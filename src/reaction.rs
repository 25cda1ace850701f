use vstd::prelude::*;
use crate::param::{ParamState, ParamView, ReactiveSystemParam};
use crate::store::{ChangeSnapshot, Scope};

verus! {

/// A reaction's inputs together with their persistent state, which is absent
/// until the reaction is initialised and present from then on.
#[derive(Debug)]
pub struct FunctionReactiveSystem {
    pub param: ReactiveSystemParam,
    pub state: Option<ParamState>,
}

impl FunctionReactiveSystem {
    /// A present state has the shape of the inputs.
    pub open spec fn wf(self) -> bool {
        match self.state {
            Some(s) => self.param.fits(s),
            None => true,
        }
    }

    /// The state is present: the system is ready to be checked and run.
    pub open spec fn is_ready(self) -> bool {
        self.state is Some
    }

    /// Whether a ready system's inputs changed in `snap`.
    pub open spec fn triggers(self, snap: ChangeSnapshot) -> bool {
        match self.state {
            Some(s) => self.param.changed(snap, s),
            None => false,
        }
    }

    /// The system after its inputs were checked or read in `snap`.
    pub open spec fn advanced(self, snap: ChangeSnapshot) -> FunctionReactiveSystem {
        match self.state {
            Some(s) => FunctionReactiveSystem {
                param: self.param,
                state: Some(self.param.advanced(s, snap.change_tick)),
            },
            None => self,
        }
    }

    /// A system that is not initialised yet.
    pub fn new(param: ReactiveSystemParam) -> (r: FunctionReactiveSystem)
        ensures
            r.param == param,
            r.state is None,
            r.wf(),
    {
        FunctionReactiveSystem { param, state: None }
    }

    /// Builds the persistent state against `snap`.
    pub fn init(&mut self, snap: &ChangeSnapshot)
        ensures
            final(self).param == old(self).param,
            final(self).state == Some(old(self).param.initial(snap.change_tick)),
            final(self).wf(),
    {
        let state = self.param.init(snap);
        self.state = Some(state);
    }

    /// Whether the inputs changed since they were last checked or read; the
    /// state advances to the snapshot's tick.
    pub fn is_changed(&mut self, snap: &ChangeSnapshot) -> (r: bool)
        requires
            old(self).wf(),
            old(self).is_ready(),
        ensures
            r == old(self).triggers(*snap),
            *final(self) == old(self).advanced(*snap),
            final(self).wf(),
            final(self).is_ready(),
    {
        let state = self.state.take().unwrap();
        let (changed, next) = self.param.is_changed(snap, state);
        self.state = Some(next);
        changed
    }

    /// Prepares one run of the logic: the scope of the reaction attached to
    /// `entity` and the inputs read fresh from `snap`. The state advances to
    /// the snapshot's tick.
    pub fn run(&mut self, snap: &ChangeSnapshot, entity: u64) -> (r: (Scope<()>, ParamView))
        requires
            old(self).wf(),
            old(self).is_ready(),
        ensures
            r.0.entity == entity,
            old(self).param.view_of(*snap, r.1),
            *final(self) == old(self).advanced(*snap),
            final(self).wf(),
            final(self).is_ready(),
    {
        let state = self.state.take().unwrap();
        let (view, next) = self.param.get(snap, state);
        self.state = Some(next);
        (Scope { entity, input: () }, view)
    }
}

/// A unit of logic that runs again when the data it reads has changed.
#[derive(Debug)]
pub struct Reaction {
    pub system: FunctionReactiveSystem,
}

impl Reaction {
    /// A reaction over `param`, not initialised until it is attached and the
    /// attachment is committed.
    pub fn new(param: ReactiveSystemParam) -> (r: Reaction)
        ensures
            r.system.param == param,
            r.system.state is None,
    {
        Reaction { system: FunctionReactiveSystem::new(param) }
    }
}

/// A reaction attached to an entity of the store.
#[derive(Debug)]
pub struct Attached {
    pub entity: u64,
    pub reaction: Reaction,
}

/// Every attached reaction's state has the shape of its inputs.
pub open spec fn all_wf(rs: Seq<Attached>) -> bool {
    forall|i: int| 0 <= i < rs.len() ==> (#[trigger] rs[i]).reaction.system.wf()
}

/// The positions, among the first `n`, of the ready reactions whose inputs
/// changed in `snap`, in order.
pub open spec fn due_upto(rs: Seq<Attached>, snap: ChangeSnapshot, n: nat) -> Seq<usize>
    decreases n,
{
    if n == 0 {
        Seq::empty()
    } else {
        let prev = due_upto(rs, snap, (n - 1) as nat);
        if rs[n - 1].reaction.system.triggers(snap) {
            prev.push((n - 1) as usize)
        } else {
            prev
        }
    }
}

/// The positions of the reactions that a sweep over `snap` runs.
pub open spec fn due(rs: Seq<Attached>, snap: ChangeSnapshot) -> Seq<usize> {
    due_upto(rs, snap, rs.len())
}

/// An attached reaction after a sweep over `snap`.
pub open spec fn swept(a: Attached, snap: ChangeSnapshot) -> Attached {
    Attached {
        entity: a.entity,
        reaction: Reaction { system: a.reaction.system.advanced(snap) },
    }
}

/// An attached reaction after the pending attachments were committed against
/// `snap`: initialised if it was not, untouched if it was.
pub open spec fn committed(a: Attached, snap: ChangeSnapshot) -> Attached {
    match a.reaction.system.state {
        Some(_) => a,
        None => Attached {
            entity: a.entity,
            reaction: Reaction {
                system: FunctionReactiveSystem {
                    param: a.reaction.system.param,
                    state: Some(a.reaction.system.param.initial(snap.change_tick)),
                },
            },
        },
    }
}

/// Attaches `reaction` to `entity`. It stays uninitialised until the
/// attachment is committed, so a sweep under way never sees it ready.
pub fn attach(rs: &mut Vec<Attached>, entity: u64, reaction: Reaction)
    ensures
        final(rs)@ == old(rs)@.push(Attached { entity, reaction }),
{
    rs.push(Attached { entity, reaction });
}

/// Commits the pending attachments: each reaction that is not initialised yet
/// builds its state against `snap`, once; the others are left as they are.
pub fn commit_attachments(rs: &mut Vec<Attached>, snap: &ChangeSnapshot)
    requires
        all_wf(old(rs)@),
    ensures
        final(rs)@.len() == old(rs)@.len(),
        forall|i: int| 0 <= i < old(rs)@.len() ==> final(rs)@[i] == committed(#[trigger] old(rs)@[i], *snap),
        all_wf(final(rs)@),
{
    let ghost start = rs@;
    let mut i: usize = 0;
    while i < rs.len()
        invariant
            i <= rs@.len(),
            rs@.len() == start.len(),
            forall|j: int| 0 <= j < i ==> rs@[j] == committed(#[trigger] start[j], *snap),
            forall|j: int| i <= j < rs@.len() ==> rs@[j] == #[trigger] start[j],
            all_wf(start),
            start == old(rs)@,
            all_wf(rs@),
        decreases rs@.len() - i,
    {
        if rs[i].reaction.system.state.is_none() {
            rs[i].reaction.system.init(snap);
        }
        i = i + 1;
    }
}

/// One sweep: every ready reaction is checked against `snap`, and the
/// positions of those whose inputs changed are returned, in order, for their
/// logic to run. Every ready reaction's state advances to the snapshot's tick;
/// reactions not initialised yet are skipped.
pub fn react(rs: &mut Vec<Attached>, snap: &ChangeSnapshot) -> (r: Vec<usize>)
    requires
        all_wf(old(rs)@),
    ensures
        r@ == due(old(rs)@, *snap),
        final(rs)@.len() == old(rs)@.len(),
        forall|i: int| 0 <= i < old(rs)@.len() ==> final(rs)@[i] == swept(#[trigger] old(rs)@[i], *snap),
        all_wf(final(rs)@),
{
    let ghost start = rs@;
    let mut out: Vec<usize> = Vec::new();
    let mut i: usize = 0;
    while i < rs.len()
        invariant
            i <= rs@.len(),
            rs@.len() == start.len(),
            out@ == due_upto(start, *snap, i as nat),
            forall|j: int| 0 <= j < i ==> rs@[j] == swept(#[trigger] start[j], *snap),
            forall|j: int| i <= j < rs@.len() ==> rs@[j] == #[trigger] start[j],
            all_wf(start),
            start == old(rs)@,
            all_wf(rs@),
        decreases rs@.len() - i,
    {
        if rs[i].reaction.system.state.is_some() {
            if rs[i].reaction.system.is_changed(snap) {
                out.push(i);
            }
        }
        i = i + 1;
    }
    out
}

} // verus!
