//! When the path of an agent is searched, and what becomes of the outcome.
//!
//! One search at most is in flight for an agent. A search is started when the
//! agent is given a target, and again when the path finder was rebuilt and
//! the agent has not arrived yet. When a search has ended, its path replaces
//! the one the agent had; when it found none, the agent loses its path, and
//! its target too unless the target is permanent. Whether a search has ended
//! is for the caller to look: the look is handed in as a function.

use vstd::prelude::*;
use bevy::tasks::Task;
use crate::target::Path;
use crate::target::PathTarget;
use crate::target::Point;
use crate::tasks::insert_task;
use crate::tasks::new_tasks;
use crate::tasks::owners_of;
use crate::tasks::has_task;
use crate::tasks::remove_task;
use crate::tasks::task_entries;
use crate::tasks::PathTasks;

verus! {

/// The order to search a path for an agent towards a target, and to give the
/// agent that target.
#[derive(Copy, Clone, Debug, PartialEq, Eq, Structural, Hash)]
pub struct UpdateEntityPath {
    /// The agent whose path is to be searched.
    pub entity: u64,
    /// The desired target, and how the search is to be run.
    pub target: PathTarget,
}

impl UpdateEntityPath {
    /// # Arguments
    ///
    /// * `entity` - entity whose path should be updated / inserted.
    ///
    /// * `target` - desired path target & path searching query configuration.
    pub fn new(entity: u64, target: PathTarget) -> (order: Self)
        ensures
            order == (UpdateEntityPath { entity, target }),
    {
        Self { entity, target }
    }

    pub fn entity(&self) -> (entity: u64)
        ensures
            entity == self.entity,
    {
        self.entity
    }

    pub fn target(&self) -> (target: PathTarget)
        ensures
            target == self.target,
    {
        self.target
    }
}

/// An agent with a target, as it stands at one moment.
#[derive(Copy, Clone, Debug, PartialEq, Eq, Structural, Hash)]
pub struct Agent {
    pub entity: u64,
    /// Where the agent stands.
    pub position: Point,
    pub target: PathTarget,
    /// Whether the agent has a path.
    pub has_path: bool,
}

/// A search to be started: for whom, from where, and towards what.
#[derive(Copy, Clone, Debug, PartialEq, Eq, Structural, Hash)]
pub struct PathRequest {
    pub entity: u64,
    pub source: Point,
    pub target: PathTarget,
}

impl Agent {
    /// Whether the agent is searched for again after the finder was rebuilt:
    /// it has a path, which may lead through what is now an obstacle, or it
    /// has none and has not arrived.
    pub open spec fn searched_again(self) -> bool {
        self.has_path || !self.target.reached_from(self.position)
    }

    /// The search that is started for the agent after the finder was rebuilt,
    /// if any: from where it stands to its target, at whatever cost.
    pub open spec fn renewal(self) -> Option<PathRequest> {
        if self.searched_again() {
            Some(
                PathRequest {
                    entity: self.entity,
                    source: self.position,
                    target: self.target.unlimited(),
                },
            )
        } else {
            None
        }
    }

    /// Whether the agent gives up its target, where `pending` are the agents
    /// with a search in flight: it has no path, no search runs for it any
    /// more, and the target is not permanent.
    pub open spec fn gives_up(self, pending: Set<u64>) -> bool {
        !self.has_path && !pending.contains(self.entity) && !self.target.permanent
    }

    /// The agent, if it gives up its target.
    pub open spec fn released(self, pending: Set<u64>) -> Option<u64> {
        if self.gives_up(pending) {
            Some(self.entity)
        } else {
            None
        }
    }

    /// Decides whether a search is started for the agent after the finder was
    /// rebuilt, and which.
    pub fn renew(&self) -> (request: Option<PathRequest>)
        ensures
            request == self.renewal(),
    {
        if !self.has_path && self.target.is_reached_from(self.position) {
            None
        } else {
            Some(
                PathRequest {
                    entity: self.entity,
                    source: self.position,
                    target: self.target.with_unlimited_effort(),
                },
            )
        }
    }
}

/// The searches that are started after rebuilds of the finder were announced
/// `updates` times since the last look: none if there was no rebuild; else
/// one for each agent that is searched for again, in the order of the agents.
pub open spec fn renewals(updates: usize, agents: Seq<Agent>) -> Seq<PathRequest> {
    if updates == 0 {
        Seq::empty()
    } else {
        agents.filter_map(|agent: Agent| agent.renewal())
    }
}

/// Decides which searches are started after the finder was rebuilt. `agents`
/// are the agents that have a target.
pub fn update_existing_paths(updates: usize, agents: &Vec<Agent>) -> (requests: Vec<PathRequest>)
    ensures
        requests@ == renewals(updates, agents@),
{
    let mut requests: Vec<PathRequest> = Vec::new();
    if updates == 0 {
        return requests;
    }
    let ghost choice = |agent: Agent| agent.renewal();
    let mut i: usize = 0;
    while i < agents.len()
        invariant
            i <= agents.len(),
            choice == |agent: Agent| agent.renewal(),
            requests@ == agents@.take(i as int).filter_map(choice),
        decreases agents.len() - i,
    {
        proof {
            agents@.lemma_filter_map_take_succ(choice, i as int);
        }
        match agents[i].renew() {
            Some(request) => {
                requests.push(request);
            },
            None => {},
        }
        i += 1;
    }
    assert(agents@.take(agents.len() as int) =~= agents@);
    requests
}

/// The search that an order starts: none where the agent is not among those
/// that move, else one from where the agent stands to the target of the order.
pub open spec fn ordered_search(order: UpdateEntityPath, position: Option<Point>) -> Option<
    PathRequest,
> {
    match position {
        Some(source) => Some(PathRequest { entity: order.entity, source, target: order.target }),
        None => None,
    }
}

/// Decides which searches the orders start. Each order comes with the place
/// where its agent stands, or with `None` where the agent is not among those
/// that move. Each search that is returned also gives its agent its target.
pub fn update_requested_paths(orders: &Vec<(UpdateEntityPath, Option<Point>)>) -> (requests: Vec<
    PathRequest,
>)
    ensures
        requests@ == orders@.filter_map(
            |order: (UpdateEntityPath, Option<Point>)| ordered_search(order.0, order.1),
        ),
{
    let mut requests: Vec<PathRequest> = Vec::new();
    let ghost choice = |order: (UpdateEntityPath, Option<Point>)| ordered_search(order.0, order.1);
    let mut i: usize = 0;
    while i < orders.len()
        invariant
            i <= orders.len(),
            choice == |order: (UpdateEntityPath, Option<Point>)| ordered_search(order.0, order.1),
            requests@ == orders@.take(i as int).filter_map(choice),
        decreases orders.len() - i,
    {
        proof {
            orders@.lemma_filter_map_take_succ(choice, i as int);
        }
        let order: UpdateEntityPath = orders[i].0;
        match orders[i].1 {
            Some(source) => {
                requests.push(
                    PathRequest { entity: order.entity(), source, target: order.target() },
                );
            },
            None => {},
        }
        i += 1;
    }
    assert(orders@.take(orders.len() as int) =~= orders@);
    requests
}

/// The search of one agent that runs in the background.
pub struct UpdatePathTask(pub Task<Option<Path>>);

/// What a look at a search finds.
pub enum UpdatePathState {
    /// The search has ended, with a path or without.
    Resolved(Option<Path>),
    /// The search still runs.
    Processing(UpdatePathTask),
}

impl UpdatePathState {
    /// What a look at a search amounts to: `Ok` holds what the search has
    /// found, `Err` the search while it runs.
    pub open spec fn seen(outcome: Result<Option<Path>, Task<Option<Path>>>) -> UpdatePathState {
        match outcome {
            Ok(found) => UpdatePathState::Resolved(found),
            Err(task) => UpdatePathState::Processing(UpdatePathTask(task)),
        }
    }
}

impl UpdatePathTask {
    pub fn new(task: Task<Option<Path>>) -> (search: Self)
        ensures
            search.0 == task,
    {
        Self(task)
    }

    /// Has the caller look, without waiting, whether the search has ended.
    /// `look` gives `Ok` with what the search has found, or `Err` with the
    /// search itself while it runs.
    pub fn check<L>(self, look: L) -> (state: UpdatePathState)
        where
            L: FnOnce(Task<Option<Path>>) -> Result<Option<Path>, Task<Option<Path>>>,
        requires
            look.requires((self.0,)),
        ensures
            exists|outcome: Result<Option<Path>, Task<Option<Path>>>|
                #[trigger] look.ensures((self.0,), outcome) && state == UpdatePathState::seen(
                    outcome,
                ),
    {
        match look(self.0) {
            Ok(path) => UpdatePathState::Resolved(path),
            Err(task) => UpdatePathState::Processing(UpdatePathTask(task)),
        }
    }
}

/// What is done to an agent when its search has ended.
pub enum PathChange {
    /// The agent takes the path.
    Insert(u64, Path),
    /// The agent loses the path it has, if any.
    Remove(u64),
}

impl PathChange {
    /// The agent that the change is for.
    pub open spec fn agent(self) -> u64 {
        match self {
            PathChange::Insert(entity, _) => entity,
            PathChange::Remove(entity) => entity,
        }
    }

    /// What is done to `entity` when its search has ended with `found`.
    pub open spec fn settling(entity: u64, found: Option<Path>) -> PathChange {
        match found {
            Some(path) => PathChange::Insert(entity, path),
            None => PathChange::Remove(entity),
        }
    }

    pub fn entity(&self) -> (entity: u64)
        ensures
            entity == self.agent(),
    {
        match self {
            PathChange::Insert(entity, _) => *entity,
            PathChange::Remove(entity) => *entity,
        }
    }

    /// Decides what is done to `entity` when its search has ended with
    /// `found`.
    pub fn settle(entity: u64, found: Option<Path>) -> (change: PathChange)
        ensures
            change == PathChange::settling(entity, found),
    {
        match found {
            Some(path) => PathChange::Insert(entity, path),
            None => PathChange::Remove(entity),
        }
    }
}

/// The agents of a list of outcomes, in order.
pub open spec fn agents_of(results: Seq<(u64, Option<Path>)>) -> Seq<u64> {
    results.map_values(|result: (u64, Option<Path>)| result.0)
}

/// The searches in flight.
pub struct UpdatePathsState {
    tasks: PathTasks,
}

impl UpdatePathsState {
    /// The searches in flight, each under its agent.
    pub closed spec fn searches(&self) -> Map<u64, UpdatePathTask> {
        task_entries(self.tasks)
    }

    /// The agents with a search in flight.
    pub open spec fn pending(&self) -> Set<u64> {
        self.searches().dom()
    }

    /// Takes over the search that the caller has just started for `entity`.
    /// It takes the place of the one that was in flight for `entity`, if any.
    pub fn spawn_new(&mut self, entity: u64, task: Task<Option<Path>>)
        ensures
            final(self).searches() == old(self).searches().insert(entity, UpdatePathTask(task)),
    {
        let _ = insert_task(&mut self.tasks, entity, UpdatePathTask::new(task));
    }

    /// Files what a look at the search of `entity` has found, after the search
    /// was taken out of the table: an outcome goes to the end of `results`, a
    /// search that still runs goes back into the table.
    pub fn file(
        &mut self,
        entity: u64,
        state: UpdatePathState,
        results: &mut Vec<(u64, Option<Path>)>,
    )
        ensures
            match state {
                UpdatePathState::Resolved(found) => {
                    &&& final(results)@ == old(results)@.push((entity, found))
                    &&& final(self).searches() == old(self).searches()
                },
                UpdatePathState::Processing(search) => {
                    &&& final(results)@ == old(results)@
                    &&& final(self).searches() == old(self).searches().insert(entity, search)
                },
            },
    {
        match state {
            UpdatePathState::Resolved(found) => {
                results.push((entity, found));
            },
            UpdatePathState::Processing(search) => {
                let _ = insert_task(&mut self.tasks, entity, search);
            },
        }
    }

    /// Whether a search is in flight for `entity`.
    pub fn is_pending(&self, entity: u64) -> (pending: bool)
        ensures
            pending == self.pending().contains(entity),
    {
        has_task(&self.tasks, entity)
    }

    /// What a look has made of the search of `entity`, where `before` are the
    /// searches that were in flight, `results` the outcomes handed out and
    /// `after` the searches in flight afterwards: an outcome is among the
    /// results and the search has left; a search that still runs has stayed.
    pub open spec fn accounted<L: Fn(UpdatePathTask) -> UpdatePathState>(
        look: &L,
        entity: u64,
        before: Map<u64, UpdatePathTask>,
        results: Seq<(u64, Option<Path>)>,
        after: Map<u64, UpdatePathTask>,
    ) -> bool {
        exists|state: UpdatePathState| #[trigger]
            look.ensures((before[entity],), state) && match state {
                UpdatePathState::Resolved(found) => {
                    &&& results.contains((entity, found))
                    &&& !after.contains_key(entity)
                },
                UpdatePathState::Processing(search) => {
                    &&& !agents_of(results).contains(entity)
                    &&& after.contains_key(entity)
                    &&& after[entity] == search
                },
            }
    }

    /// Has the caller look once, without waiting, at every search in flight,
    /// and hands out the outcomes of those that have ended, each with its
    /// agent. `look` gives `Resolved` with what a search has found, or
    /// `Processing` with the search itself while it runs. The searches that
    /// have ended leave the table; the others stay in it as they were. The
    /// order of the outcomes is not fixed.
    pub fn check_results<L>(&mut self, look: &L) -> (results: Vec<(u64, Option<Path>)>)
        where
            L: Fn(UpdatePathTask) -> UpdatePathState,
        requires
            forall|search: UpdatePathTask| look.requires((search,)),
            forall|search: UpdatePathTask, running: UpdatePathTask|
                look.ensures((search,), UpdatePathState::Processing(running)) ==> running
                    == search,
        ensures
            agents_of(results@).no_duplicates(),
            agents_of(results@).to_set().subset_of(old(self).pending()),
            final(self).searches() == old(self).searches().remove_keys(
                agents_of(results@).to_set(),
            ),
            forall|entity: u64| #[trigger]
                old(self).searches().contains_key(entity) ==> Self::accounted(
                    look,
                    entity,
                    old(self).searches(),
                    results@,
                    final(self).searches(),
                ),
    {
        let mut results: Vec<(u64, Option<Path>)> = Vec::new();
        let owners: Vec<u64> = owners_of(&self.tasks);
        let ghost before = self.searches();
        let mut i: usize = 0;
        while i < owners.len()
            invariant
                i <= owners.len(),
                owners@.no_duplicates(),
                owners@.to_set() == before.dom(),
                forall|search: UpdatePathTask| look.requires((search,)),
                forall|search: UpdatePathTask, running: UpdatePathTask|
                    look.ensures((search,), UpdatePathState::Processing(running)) ==> running
                        == search,
                agents_of(results@).no_duplicates(),
                agents_of(results@).to_set().subset_of(owners@.take(i as int).to_set()),
                self.searches() == before.remove_keys(agents_of(results@).to_set()),
                forall|j: int|
                    0 <= j < i ==> Self::accounted(
                        look,
                        #[trigger] owners@[j],
                        before,
                        results@,
                        self.searches(),
                    ),
            decreases owners.len() - i,
        {
            let entity: u64 = owners[i];
            let ghost outcomes = results@;
            let ghost earlier = agents_of(results@);
            let ghost visited = owners@.take(i as int);
            let ghost held = self.searches();
            proof {
                assert(owners@.contains(entity));
                assert(owners@.take(i + 1) =~= visited.push(entity));
                visited.lemma_push_to_set_commute(entity);
                if visited.contains(entity) {
                    let j = choose|j: int| 0 <= j < visited.len() && visited[j] == entity;
                    assert(owners@[j] == owners@[i as int]);
                }
                assert(!earlier.to_set().contains(entity));
                assert(held.contains_key(entity));
            }
            match remove_task(&mut self.tasks, entity) {
                Some(search) => {
                    let state = look(search);
                    self.file(entity, state, &mut results);
                    proof {
                        assert(search == before[entity]);
                        if results@.len() == outcomes.len() {
                            assert(self.searches() =~= held);
                        } else {
                            assert(agents_of(results@) =~= earlier.push(entity));
                            earlier.lemma_push_to_set_commute(entity);
                            assert(self.searches() =~= before.remove_keys(
                                earlier.to_set().insert(entity),
                            ));
                            assert(results@.last() == (entity, state->Resolved_0));
                        }
                        assert(Self::accounted(look, entity, before, results@, self.searches()));
                        assert forall|j: int| 0 <= j < i implies Self::accounted(
                            look,
                            #[trigger] owners@[j],
                            before,
                            results@,
                            self.searches(),
                        ) by {
                            let other = owners@[j];
                            assert(other != entity);
                            assert(Self::accounted(look, other, before, outcomes, held));
                            let seen = choose|seen: UpdatePathState| #[trigger]
                                look.ensures((before[other],), seen) && match seen {
                                    UpdatePathState::Resolved(found) => {
                                        &&& outcomes.contains((other, found))
                                        &&& !held.contains_key(other)
                                    },
                                    UpdatePathState::Processing(search) => {
                                        &&& !agents_of(outcomes).contains(other)
                                        &&& held.contains_key(other)
                                        &&& held[other] == search
                                    },
                                };
                            match seen {
                                UpdatePathState::Resolved(found) => {
                                    let k = choose|k: int|
                                        0 <= k < outcomes.len() && outcomes[k] == (other, found);
                                    assert(results@[k] == (other, found));
                                },
                                UpdatePathState::Processing(search) => {
                                    if agents_of(results@).contains(other) {
                                        let k = choose|k: int|
                                            0 <= k < agents_of(results@).len() && agents_of(
                                                results@,
                                            )[k] == other;
                                        assert(k < earlier.len());
                                        assert(earlier[k] == other);
                                    }
                                },
                            }
                        }
                    }
                },
                None => {},
            }
            i += 1;
        }
        proof {
            assert(owners@.take(owners.len() as int) =~= owners@);
            assert forall|entity: u64| #[trigger]
                before.contains_key(entity) implies Self::accounted(
                look,
                entity,
                before,
                results@,
                self.searches(),
            ) by {
                assert(owners@.to_set().contains(entity));
                let j = choose|j: int| 0 <= j < owners@.len() && owners@[j] == entity;
                assert(Self::accounted(look, owners@[j], before, results@, self.searches()));
            }
        }
        results
    }
}

impl Default for UpdatePathsState {
    /// No search is in flight.
    fn default() -> (state: Self)
        ensures
            state.pending() == Set::<u64>::empty(),
    {
        Self { tasks: new_tasks() }
    }
}

/// The changes that a list of outcomes asks for, in order.
pub open spec fn changes_of(results: Seq<(u64, Option<Path>)>) -> Seq<PathChange> {
    results.map_values(|result: (u64, Option<Path>)| PathChange::settling(result.0, result.1))
}

/// Decides what is done to the agents whose searches have ended: an agent
/// whose search found a path takes it, the others lose the path they have.
pub fn path_changes(results: Vec<(u64, Option<Path>)>) -> (changes: Vec<PathChange>)
    ensures
        changes@ == changes_of(results@),
{
    let mut changes: Vec<PathChange> = Vec::new();
    let ghost all = results@;
    for result in iter: results
        invariant
            iter.seq() == all,
            changes@ == changes_of(all.take(iter.index() as int)),
    {
        proof {
            assert(all.take(iter.index() + 1) =~= all.take(iter.index() as int).push(result));
            assert(changes_of(all.take(iter.index() + 1)) =~= changes_of(
                all.take(iter.index() as int),
            ).push(PathChange::settling(result.0, result.1)));
        }
        changes.push(PathChange::settle(result.0, result.1));
    }
    assert(all.take(all.len() as int) =~= all);
    changes
}

/// The agents of a list of changes, in order.
pub open spec fn changed_agents(changes: Seq<PathChange>) -> Seq<u64> {
    changes.map_values(|change: PathChange| change.agent())
}

/// Has the caller look once, without waiting, at every search in flight, and
/// decides what is done to the agents whose searches have ended. `look` is as
/// for `check_results`. The searches that have ended leave the table; the
/// others stay in it as they were. The order of the changes is not fixed.
pub fn check_path_results<L>(state: &mut UpdatePathsState, look: &L) -> (changes: Vec<PathChange>)
    where
        L: Fn(UpdatePathTask) -> UpdatePathState,
    requires
        forall|search: UpdatePathTask| look.requires((search,)),
        forall|search: UpdatePathTask, running: UpdatePathTask|
            look.ensures((search,), UpdatePathState::Processing(running)) ==> running == search,
    ensures
        changed_agents(changes@).no_duplicates(),
        changed_agents(changes@).to_set().subset_of(old(state).pending()),
        final(state).searches() == old(state).searches().remove_keys(
            changed_agents(changes@).to_set(),
        ),
        exists|results: Seq<(u64, Option<Path>)>|
            {
                &&& changes@ == changes_of(results)
                &&& forall|entity: u64| #[trigger]
                    old(state).searches().contains_key(entity)
                        ==> UpdatePathsState::accounted(
                        look,
                        entity,
                        old(state).searches(),
                        results,
                        final(state).searches(),
                    )
            },
{
    let results = state.check_results(look);
    let ghost outcomes = results@;
    let changes = path_changes(results);
    assert(changed_agents(changes@) =~= agents_of(outcomes));
    changes
}

/// Decides which agents give up their target, in the order of the agents.
/// `agents` are the agents that have a target. An agent whose search is still
/// in flight keeps its target.
pub fn remove_path_targets(state: &UpdatePathsState, agents: &Vec<Agent>) -> (released: Vec<u64>)
    ensures
        released@ == agents@.filter_map(|agent: Agent| agent.released(state.pending())),
{
    let mut released: Vec<u64> = Vec::new();
    let ghost choice = |agent: Agent| agent.released(state.pending());
    let mut i: usize = 0;
    while i < agents.len()
        invariant
            i <= agents.len(),
            choice == |agent: Agent| agent.released(state.pending()),
            released@ == agents@.take(i as int).filter_map(choice),
        decreases agents.len() - i,
    {
        proof {
            agents@.lemma_filter_map_take_succ(choice, i as int);
        }
        if !agents[i].has_path && !agents[i].target.permanent() && !state.is_pending(
            agents[i].entity,
        ) {
            released.push(agents[i].entity);
        }
        i += 1;
    }
    assert(agents@.take(agents.len() as int) =~= agents@);
    released
}

/// Rebuilds of the finder that were announced since the last look count as
/// one: however many they were, the same searches are started.
pub proof fn lemma_rebuilds_coalesce(updates: usize, agents: Seq<Agent>)
    requires
        updates >= 1,
    ensures
        renewals(updates, agents) == renewals(1, agents),
{
}

/// After a rebuild a search is started for an agent exactly if the agent has
/// a path or has not arrived, and that search is for the agent's own target,
/// from where the agent stands, at whatever cost.
pub proof fn lemma_renewal_keeps_the_target(agent: Agent)
    ensures
        agent.renewal().is_some() <==> agent.has_path || !agent.target.reached_from(
            agent.position,
        ),
        agent.renewal().is_some() ==> {
            let request = agent.renewal().unwrap();
            &&& request.entity == agent.entity
            &&& request.source == agent.position
            &&& request.target.location == agent.target.location
            &&& request.target.properties.distance == agent.target.properties.distance
            &&& request.target.permanent == agent.target.permanent
            &&& request.target.properties.max_effort == crate::target::SearchEffort::Unlimited
        },
{
}

/// An agent whose search has found nothing loses its path. Once no search
/// runs for it, it gives up its target exactly if the target is not
/// permanent; while a search runs for it, it keeps the target.
pub proof fn lemma_no_path_releases(agent: Agent, pending: Set<u64>)
    ensures
        PathChange::settling(agent.entity, None) == PathChange::Remove(agent.entity),
        !pending.contains(agent.entity) ==> (Agent { has_path: false, ..agent }).released(pending)
            == if agent.target.permanent {
            None
        } else {
            Some(agent.entity)
        },
        pending.contains(agent.entity) ==> agent.released(pending).is_none(),
{
}

} // verus!
