//! Reactions that re-run when the data they read has changed.
//!
//! The change markers of the store are held as plain values (ticks as `u32`,
//! entities as `u64`); comparing a marker against a cursor is left to bevy's
//! own `Tick` arithmetic. A reaction's inputs report whether they changed
//! since they were last checked, tuples of inputs by the logical or of their
//! members; a sweep lists the reactions whose inputs changed, and a reaction
//! builds its state once, when its attachment is committed.
mod laws;
mod param;
mod query;
mod reaction;
mod store;
mod tick;

pub use laws::{
    lemma_attached_waits_for_commit, lemma_init_once, lemma_pair_runs_on_either,
    lemma_quiet_reaction_not_run, lemma_resource_runs_iff_flag, lemma_run_iff_changed,
    lemma_single_query_runs_once, lemma_unrelated_resource_write,
};
pub use param::{ParamState, ParamView, ReactiveSystemParam};
pub use query::ReactiveQueryData;
pub use reaction::{attach, commit_attachments, react, Attached, FunctionReactiveSystem, Reaction};
pub use store::{
    contains_component, filter_passes, resource_is_changed, ChangeSnapshot, ComponentCell,
    ResourceCell, Scope,
};
pub use tick::{initial_cursor, MAX_CHANGE_AGE};
