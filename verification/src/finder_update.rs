//! When the path finder of a map is rebuilt.
//!
//! The finder goes stale whenever an obstacle appears, moves or disappears.
//! A stale finder is rebuilt in the background, one build at a time. Changes
//! that are signalled while a build runs only mark the finder stale again, so
//! that one more build follows the running one.

use vstd::prelude::*;
use bevy::tasks::Task;

verus! {

/// What the scheduler of finder builds knows between two steps.
pub struct FinderPhase {
    /// Obstacles have changed since the last build was started.
    pub stale: bool,
    /// A build is in flight.
    pub building: bool,
}

impl FinderPhase {
    /// The phase after a change of the obstacles was signalled.
    pub open spec fn signalled(self) -> FinderPhase {
        FinderPhase { stale: true, building: self.building }
    }

    /// Whether a build is to be started now.
    pub open spec fn wants_build(self) -> bool {
        self.stale && !self.building
    }

    /// The phase after a build was started.
    pub open spec fn started(self) -> FinderPhase {
        FinderPhase { stale: false, building: true }
    }

    /// The phase after the build in flight has ended. A build that failed
    /// leaves the finder stale.
    pub open spec fn finished(self, built: bool) -> FinderPhase {
        FinderPhase { stale: self.stale || !built, building: false }
    }
}

/// The scheduler of finder builds. `F` is the finder that a build produces; a
/// build that fails produces `None`.
#[verifier::reject_recursive_types(F)]
pub struct UpdateFinderState<F> {
    invalid: bool,
    task: Option<Task<Option<F>>>,
}

impl<F> View for UpdateFinderState<F> {
    type V = FinderPhase;

    open spec fn view(&self) -> FinderPhase {
        FinderPhase { stale: self.marked_stale(), building: self.in_flight().is_some() }
    }
}

impl<F> UpdateFinderState<F> {
    /// Whether obstacles have changed since the last build was started.
    pub closed spec fn marked_stale(&self) -> bool {
        self.invalid
    }

    /// The build in flight, if any.
    pub closed spec fn in_flight(&self) -> Option<Task<Option<F>>> {
        self.task
    }

    /// Notes that the obstacles have changed.
    pub fn invalidate(&mut self)
        ensures
            final(self)@ == old(self)@.signalled(),
            final(self).in_flight() == old(self).in_flight(),
    {
        self.invalid = true;
    }

    /// Whether a build is to be started now: the finder is stale and no build
    /// is in flight.
    pub fn should_update(&self) -> (start: bool)
        ensures
            start == self@.wants_build(),
    {
        self.invalid && self.task.is_none()
    }

    /// Takes over the build that the caller has just started.
    pub fn spawn_update(&mut self, task: Task<Option<F>>)
        requires
            !old(self)@.building,
        ensures
            final(self)@ == old(self)@.started(),
            final(self).in_flight() == Some(task),
    {
        self.task = Some(task);
        self.invalid = false;
    }

    /// Records how the build in flight has ended, and hands on what it built.
    pub fn finish_update(&mut self, built: Option<F>) -> (finder: Option<F>)
        ensures
            final(self)@ == old(self)@.finished(built.is_some()),
            finder == built,
    {
        self.task = None;
        if built.is_none() {
            self.invalid = true;
        }
        built
    }

    /// Records what a look at a build has found. A build that has ended is
    /// recorded as `finish_update` does, and what it built is handed on. A
    /// build that still runs is the build in flight from now on, and nothing
    /// else changes.
    pub fn settle(&mut self, outcome: Result<Option<F>, Task<Option<F>>>) -> (finder: Option<F>)
        ensures
            match outcome {
                Ok(built) => {
                    &&& finder == built
                    &&& final(self)@ == old(self)@.finished(built.is_some())
                },
                Err(task) => {
                    &&& finder.is_none()
                    &&& final(self)@ == (FinderPhase { stale: old(self)@.stale, building: true })
                    &&& final(self).in_flight() == Some(task)
                },
            },
    {
        match outcome {
            Ok(built) => self.finish_update(built),
            Err(task) => {
                self.task = Some(task);
                None
            },
        }
    }

    /// Has the caller look, without waiting, whether the build in flight has
    /// ended, and records what the look has found. `look` gives `Ok` with
    /// what the build produced, or `Err` with the build itself while it
    /// runs. The new finder is returned once, when its build has ended well.
    /// While the build runs nothing changes, and without a build in flight
    /// `look` is not called and nothing changes.
    pub fn check_result<L>(&mut self, look: L) -> (finder: Option<F>)
        where
            L: FnOnce(Task<Option<F>>) -> Result<Option<F>, Task<Option<F>>>,
        requires
            forall|task: Task<Option<F>>| look.requires((task,)),
            forall|task: Task<Option<F>>, running: Task<Option<F>>|
                look.ensures((task,), Err(running)) ==> running == task,
        ensures
            !old(self)@.building ==> finder.is_none() && final(self)@ == old(self)@,
            old(self)@.building ==> exists|outcome: Result<Option<F>, Task<Option<F>>>|
                {
                    &&& #[trigger] look.ensures((old(self).in_flight().unwrap(),), outcome)
                    &&& match outcome {
                        Ok(built) => {
                            &&& finder == built
                            &&& final(self)@ == old(self)@.finished(built.is_some())
                        },
                        Err(_) => {
                            &&& finder.is_none()
                            &&& final(self)@ == old(self)@
                            &&& final(self).in_flight() == old(self).in_flight()
                        },
                    }
                },
    {
        match self.task.take() {
            None => None,
            Some(task) => {
                let outcome = look(task);
                self.settle(outcome)
            },
        }
    }
}

impl<F> Default for UpdateFinderState<F> {
    /// Before the first build the finder counts as stale.
    fn default() -> (state: Self)
        ensures
            state@ == (FinderPhase { stale: true, building: false }),
    {
        Self { invalid: true, task: None }
    }
}

/// Marks the finder stale if any obstacle was removed since the last look.
pub fn check_removed<F>(state: &mut UpdateFinderState<F>, removed: usize)
    ensures
        final(state)@ == if removed > 0 {
            old(state)@.signalled()
        } else {
            old(state)@
        },
        final(state).in_flight() == old(state).in_flight(),
{
    if removed > 0 {
        state.invalidate();
    }
}

/// Marks the finder stale if any obstacle was added or moved since the last
/// look.
pub fn check_updated<F>(state: &mut UpdateFinderState<F>, changed: usize)
    ensures
        final(state)@ == if changed > 0 {
            old(state)@.signalled()
        } else {
            old(state)@
        },
        final(state).in_flight() == old(state).in_flight(),
{
    if changed > 0 {
        state.invalidate();
    }
}

/// Starts a build if one is to be started now: `spawn` is called to start it,
/// and the scheduler takes the build over. Otherwise nothing happens.
pub fn update<F, S>(state: &mut UpdateFinderState<F>, spawn: S) -> (started: bool)
    where
        S: FnOnce() -> Task<Option<F>>,
    requires
        old(state)@.wants_build() ==> spawn.requires(()),
    ensures
        started == old(state)@.wants_build(),
        final(state)@ == after_event(old(state)@, FinderEvent::Tick),
        !started ==> final(state).in_flight() == old(state).in_flight(),
        started ==> final(state).in_flight().is_some() && spawn.ensures(
            (),
            final(state).in_flight().unwrap(),
        ),
{
    if state.should_update() {
        let task = spawn();
        state.spawn_update(task);
        true
    } else {
        false
    }
}

/// Builds a path finder in three steps: `build` lays out the footprints of the
/// obstacles, `triangulate` cuts the area that they leave free into
/// triangles, and `assemble` makes the finder from both. Where the area
/// cannot be triangulated there is no finder: none is ever made from
/// triangles that `triangulate` did not give.
pub fn create_finder<E, T, F, B, G, A>(build: B, triangulate: G, assemble: A) -> (finder: Option<F>)
    where
        B: FnOnce() -> E,
        G: FnOnce(&E) -> Option<T>,
        A: FnOnce(T, E) -> F,
    requires
        build.requires(()),
        forall|exclusions: E| build.ensures((), exclusions) ==> triangulate.requires((&exclusions,)),
        forall|exclusions: E, triangles: T|
            build.ensures((), exclusions) && triangulate.ensures((&exclusions,), Some(triangles))
                ==> assemble.requires((triangles, exclusions)),
    ensures
        exists|exclusions: E|
            {
                &&& build.ensures((), exclusions)
                &&& match finder {
                    Some(made) => exists|triangles: T|
                        {
                            &&& triangulate.ensures((&exclusions,), Some(triangles))
                            &&& assemble.ensures((triangles, exclusions), made)
                        },
                    None => triangulate.ensures((&exclusions,), None),
                }
            },
{
    let exclusions = build();
    match triangulate(&exclusions) {
        Some(triangles) => Some(assemble(triangles, exclusions)),
        None => None,
    }
}

/// What can happen to the scheduler between two looks at it.
pub enum FinderEvent {
    /// A change of the obstacles is signalled.
    Changed,
    /// The scheduler is asked whether to build, and a build is started if so.
    Tick,
    /// The build in flight ends, well or not.
    Done(bool),
}

/// The phase after one event.
pub open spec fn after_event(phase: FinderPhase, event: FinderEvent) -> FinderPhase {
    match event {
        FinderEvent::Changed => phase.signalled(),
        FinderEvent::Tick => if phase.wants_build() {
            phase.started()
        } else {
            phase
        },
        FinderEvent::Done(built) => if phase.building {
            phase.finished(built)
        } else {
            phase
        },
    }
}

/// The phase after a run of events.
pub open spec fn after_events(phase: FinderPhase, events: Seq<FinderEvent>) -> FinderPhase
    decreases events.len(),
{
    if events.len() == 0 {
        phase
    } else {
        after_event(after_events(phase, events.drop_last()), events.last())
    }
}

/// How many builds are started in a run of events.
pub open spec fn builds_started(phase: FinderPhase, events: Seq<FinderEvent>) -> nat
    decreases events.len(),
{
    if events.len() == 0 {
        0
    } else {
        let before = after_events(phase, events.drop_last());
        let start: nat = if events.last() is Tick && before.wants_build() {
            1
        } else {
            0
        };
        builds_started(phase, events.drop_last()) + start
    }
}

/// A run of `count` events, all the same.
pub open spec fn repeated(event: FinderEvent, count: nat) -> Seq<FinderEvent> {
    Seq::new(count, |i: int| event)
}

/// A run of events followed by another gives the phase and the builds of the
/// first, then those of the second from where the first ended.
pub proof fn lemma_events_concat(phase: FinderPhase, first: Seq<FinderEvent>, second: Seq<FinderEvent>)
    ensures
        after_events(phase, first + second) == after_events(after_events(phase, first), second),
        builds_started(phase, first + second) == builds_started(phase, first) + builds_started(
            after_events(phase, first),
            second,
        ),
    decreases second.len(),
{
    if second.len() == 0 {
        assert(first + second =~= first);
    } else {
        assert((first + second).drop_last() =~= first + second.drop_last());
        assert((first + second).last() == second.last());
        lemma_events_concat(phase, first, second.drop_last());
    }
}

/// Any number of signalled changes, one at least, leave the scheduler where a
/// single one leaves it, and start no build.
pub proof fn lemma_changes_collapse(phase: FinderPhase, count: nat)
    requires
        count >= 1,
    ensures
        after_events(phase, repeated(FinderEvent::Changed, count)) == phase.signalled(),
        builds_started(phase, repeated(FinderEvent::Changed, count)) == 0,
    decreases count,
{
    let events = repeated(FinderEvent::Changed, count);
    let shorter = repeated(FinderEvent::Changed, (count - 1) as nat);
    assert(events.drop_last() =~= shorter);
    assert(events.last() == FinderEvent::Changed);
    if count > 1 {
        lemma_changes_collapse(phase, (count - 1) as nat);
    } else {
        assert(shorter.len() == 0);
        assert(after_events(phase, shorter) == phase);
        assert(builds_started(phase, shorter) == 0);
    }
}

/// However often the scheduler is asked in a row, it starts a build at most
/// once: one if it wanted a build and was asked at all, none otherwise.
pub proof fn lemma_ticks_start_once(phase: FinderPhase, count: nat)
    ensures
        builds_started(phase, repeated(FinderEvent::Tick, count)) == if phase.wants_build() && count
            >= 1 {
            1nat
        } else {
            0nat
        },
        after_events(phase, repeated(FinderEvent::Tick, count)) == if phase.wants_build() && count
            >= 1 {
            phase.started()
        } else {
            phase
        },
    decreases count,
{
    let events = repeated(FinderEvent::Tick, count);
    if count > 0 {
        let shorter = repeated(FinderEvent::Tick, (count - 1) as nat);
        assert(events.drop_last() =~= shorter);
        assert(events.last() == FinderEvent::Tick);
        lemma_ticks_start_once(phase, (count - 1) as nat);
    }
}

/// Changes that are signalled while a build is in flight are answered by one
/// build, however many they are: none is started before the build in flight
/// has ended, and exactly one once it has and the scheduler is asked again,
/// however often.
pub proof fn lemma_changes_coalesce(phase: FinderPhase, changes: nat, built: bool, ticks: nat)
    requires
        phase.building,
        changes >= 1,
        ticks >= 1,
    ensures
        builds_started(
            phase,
            repeated(FinderEvent::Changed, changes) + seq![FinderEvent::Done(built)] + repeated(
                FinderEvent::Tick,
                ticks,
            ),
        ) == 1,
        after_events(
            phase,
            repeated(FinderEvent::Changed, changes) + seq![FinderEvent::Done(built)] + repeated(
                FinderEvent::Tick,
                ticks,
            ),
        ) == (FinderPhase { stale: false, building: true }),
{
    let signals = repeated(FinderEvent::Changed, changes);
    let done = seq![FinderEvent::Done(built)];
    let asks = repeated(FinderEvent::Tick, ticks);
    lemma_changes_collapse(phase, changes);
    let marked = phase.signalled();
    assert(done.drop_last() =~= Seq::<FinderEvent>::empty());
    assert(done.last() == FinderEvent::Done(built));
    assert(after_events(marked, done.drop_last()) == marked);
    assert(after_events(marked, done) == marked.finished(built));
    assert(builds_started(marked, done.drop_last()) == 0);
    assert(builds_started(marked, done) == 0);
    lemma_events_concat(phase, signals, done);
    let ended = marked.finished(built);
    lemma_ticks_start_once(ended, ticks);
    lemma_events_concat(phase, signals + done, asks);
}

/// While a build is in flight, asking the scheduler starts no second one.
pub proof fn lemma_one_build_at_a_time(phase: FinderPhase, count: nat)
    requires
        phase.building,
    ensures
        builds_started(phase, repeated(FinderEvent::Tick, count)) == 0,
        after_events(phase, repeated(FinderEvent::Tick, count)) == phase,
{
    lemma_ticks_start_once(phase, count);
}

} // verus!
