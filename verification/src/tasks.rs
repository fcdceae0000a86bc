//! Handles of work that runs in the background, and the table that keeps one
//! search per agent.
//!
//! Nothing in this file is proved: each item says what is taken on trust from
//! the crates that make the handles and keep the table.

use vstd::prelude::*;
use ahash::AHashMap;
use ahash::RandomState;
use bevy::tasks::Task;
use crate::path_update::UpdatePathTask;

verus! {

/// `bevy::tasks::Task`: the handle of work that runs in the background. What
/// is inside is not looked at.
#[verifier::external_type_specification]
#[verifier::external_body]
#[verifier::reject_recursive_types(T)]
pub struct ExTask<T>(Task<T>);

/// `ahash::RandomState`: the hasher of the table. What is inside is not
/// looked at.
#[verifier::external_type_specification]
#[verifier::external_body]
pub struct ExRandomState(RandomState);

/// `ahash::AHashMap`: a hash map. What it holds is spoken of as the map from
/// its keys to their entries.
#[verifier::external_type_specification]
#[verifier::external_body]
#[verifier::reject_recursive_types(K)]
#[verifier::reject_recursive_types(V)]
#[verifier::reject_recursive_types(S)]
pub struct ExAHashMap<K, V, S>(AHashMap<K, V, S>);

/// The table of the searches in flight, by agent.
pub type PathTasks = AHashMap<u64, UpdatePathTask, RandomState>;

/// The entries of the table: the search that each agent has in it.
pub uninterp spec fn task_entries(tasks: PathTasks) -> Map<u64, UpdatePathTask>;

/// `AHashMap::new`: a table without entries.
#[verifier::external_body]
pub(crate) fn new_tasks() -> (tasks: PathTasks)
    ensures
        task_entries(tasks).dom() == Set::<u64>::empty(),
{
    AHashMap::new()
}

/// `AHashMap::insert`: afterwards the entry of `entity` is `task`, and the
/// entries of the other agents are what they were. The entry that `entity`
/// had before, if any, is returned.
#[verifier::external_body]
pub(crate) fn insert_task(tasks: &mut PathTasks, entity: u64, task: UpdatePathTask) -> (previous:
    Option<UpdatePathTask>)
    ensures
        task_entries(*final(tasks)) == task_entries(*old(tasks)).insert(entity, task),
        previous == (if task_entries(*old(tasks)).contains_key(entity) {
            Some(task_entries(*old(tasks))[entity])
        } else {
            None
        }),
{
    tasks.insert(entity, task)
}

/// `AHashMap::remove`: afterwards `entity` has no entry, and the entries of
/// the other agents are what they were. The entry that `entity` had, if any,
/// is returned.
#[verifier::external_body]
pub(crate) fn remove_task(tasks: &mut PathTasks, entity: u64) -> (removed: Option<UpdatePathTask>)
    ensures
        task_entries(*final(tasks)) == task_entries(*old(tasks)).remove(entity),
        removed == (if task_entries(*old(tasks)).contains_key(entity) {
            Some(task_entries(*old(tasks))[entity])
        } else {
            None
        }),
{
    tasks.remove(&entity)
}

/// `HashMap::contains_key`: whether `entity` has an entry.
#[verifier::external_body]
pub(crate) fn has_task(tasks: &PathTasks, entity: u64) -> (found: bool)
    ensures
        found == task_entries(*tasks).contains_key(entity),
{
    tasks.contains_key(&entity)
}

/// `HashMap::keys`, copied out: every agent with an entry, each once, in the
/// order in which the table is walked, which is not fixed.
#[verifier::external_body]
pub(crate) fn owners_of(tasks: &PathTasks) -> (owners: Vec<u64>)
    ensures
        owners@.no_duplicates(),
        owners@.to_set() == task_entries(*tasks).dom(),
{
    tasks.keys().copied().collect()
}

} // verus!
