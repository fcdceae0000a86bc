use bevy::tasks::TaskPool;
use pathing::path_update::{
    path_changes, remove_path_targets, update_existing_paths, update_requested_paths, Agent,
    PathChange, PathRequest, UpdateEntityPath, UpdatePathsState,
};
use pathing::target::{Path, PathQueryProps, PathTarget, Point, SearchEffort};

fn target_at(x: i32, y: i32, distance: u32, permanent: bool) -> PathTarget {
    PathTarget::new(
        Point::new(x, y),
        PathQueryProps::new(distance, SearchEffort::Limited(40_000)),
        permanent,
    )
}

#[test]
fn no_rebuild_starts_no_search() {
    let agents = vec![Agent {
        entity: 1,
        position: Point::new(0, 0),
        target: target_at(50_000, 0, 0, true),
        has_path: true,
    }];
    assert_eq!(update_existing_paths(0, &agents), vec![]);
}

#[test]
fn rebuild_searches_again_for_agents_on_their_way() {
    let arrived = Agent {
        entity: 1,
        position: Point::new(300, 0),
        target: target_at(0, 0, 500, false),
        has_path: false,
    };
    let walking = Agent {
        entity: 2,
        position: Point::new(1000, 0),
        target: target_at(0, 0, 500, false),
        has_path: true,
    };
    let stranded = Agent {
        entity: 3,
        position: Point::new(9000, 0),
        target: target_at(0, 0, 500, true),
        has_path: false,
    };
    let requests = update_existing_paths(3, &vec![arrived, walking, stranded]);
    assert_eq!(
        requests,
        vec![
            PathRequest {
                entity: 2,
                source: Point::new(1000, 0),
                target: PathTarget::new(
                    Point::new(0, 0),
                    PathQueryProps::new(500, SearchEffort::Unlimited),
                    false
                ),
            },
            PathRequest {
                entity: 3,
                source: Point::new(9000, 0),
                target: PathTarget::new(
                    Point::new(0, 0),
                    PathQueryProps::new(500, SearchEffort::Unlimited),
                    true
                ),
            },
        ]
    );
}

#[test]
fn rebuild_skips_an_agent_on_the_edge_of_the_arrival_distance() {
    let on_edge = Agent {
        entity: 7,
        position: Point::new(0, 500),
        target: target_at(0, 0, 500, false),
        has_path: false,
    };
    let beyond = Agent {
        entity: 8,
        position: Point::new(0, 501),
        target: target_at(0, 0, 500, false),
        has_path: false,
    };
    let requests = update_existing_paths(1, &vec![on_edge, beyond]);
    assert_eq!(requests.len(), 1);
    assert_eq!(requests[0].entity, 8);
}

#[test]
fn rebuild_searches_again_for_an_agent_just_outside_the_arrival_distance() {
    let near = Agent {
        entity: 9,
        position: Point::new(1500, 0),
        target: target_at(0, 0, 500, false),
        has_path: false,
    };
    let requests = update_existing_paths(2, &vec![near]);
    assert_eq!(requests.len(), 1);
    assert_eq!(requests[0].entity, 9);
    assert_eq!(requests[0].source, Point::new(1500, 0));
    assert_eq!(requests[0].target.properties().max_effort(), SearchEffort::Unlimited);
}

#[test]
fn orders_start_searches_for_agents_that_move() {
    let first = UpdateEntityPath::new(4, target_at(100, 100, 0, false));
    let second = UpdateEntityPath::new(5, target_at(-100, 100, 10, true));
    assert_eq!(first.entity(), 4);
    assert_eq!(second.target(), target_at(-100, 100, 10, true));
    let requests = update_requested_paths(&vec![
        (first, Some(Point::new(1, 2))),
        (second, None),
        (second, Some(Point::new(3, 4))),
    ]);
    assert_eq!(
        requests,
        vec![
            PathRequest {
                entity: 4,
                source: Point::new(1, 2),
                target: target_at(100, 100, 0, false)
            },
            PathRequest {
                entity: 5,
                source: Point::new(3, 4),
                target: target_at(-100, 100, 10, true)
            },
        ]
    );
}

#[test]
fn agents_without_path_give_up_targets_that_do_not_last() {
    let agents = vec![
        Agent {
            entity: 1,
            position: Point::new(0, 0),
            target: target_at(9, 9, 0, false),
            has_path: false,
        },
        Agent {
            entity: 2,
            position: Point::new(0, 0),
            target: target_at(9, 9, 0, true),
            has_path: false,
        },
        Agent {
            entity: 3,
            position: Point::new(0, 0),
            target: target_at(9, 9, 0, false),
            has_path: true,
        },
        Agent {
            entity: 4,
            position: Point::new(0, 0),
            target: target_at(9, 9, 0, false),
            has_path: false,
        },
    ];
    assert_eq!(remove_path_targets(&UpdatePathsState::default(), &agents), vec![1, 4]);
}

#[test]
fn agent_keeps_its_target_while_its_search_runs() {
    let pool = TaskPool::new();
    let mut state = UpdatePathsState::default();
    state.spawn_new(2, pool.spawn(futures_lite::future::pending::<Option<Path>>()));
    assert!(state.is_pending(2));
    assert!(!state.is_pending(1));
    let agents = vec![
        Agent {
            entity: 1,
            position: Point::new(0, 0),
            target: target_at(9, 9, 0, false),
            has_path: false,
        },
        Agent {
            entity: 2,
            position: Point::new(0, 0),
            target: target_at(9, 9, 0, false),
            has_path: false,
        },
    ];
    assert_eq!(remove_path_targets(&state, &agents), vec![1]);
}

#[test]
fn outcomes_become_changes_in_order() {
    let path = Path::new(vec![Point::new(0, 0), Point::new(10_000, 0)]);
    let changes = path_changes(vec![(3, None), (1, Some(path)), (2, None)]);
    assert_eq!(changes.len(), 3);
    assert!(matches!(changes[0], PathChange::Remove(3)));
    match &changes[1] {
        PathChange::Insert(entity, path) => {
            assert_eq!(*entity, 1);
            assert_eq!(path.waypoints(), &vec![Point::new(0, 0), Point::new(10_000, 0)]);
        }
        PathChange::Remove(_) => panic!("the search of agent 1 found a path"),
    }
    assert!(matches!(changes[2], PathChange::Remove(2)));
    assert_eq!(changes[0].entity(), 3);
    assert_eq!(changes[1].entity(), 1);
}

#[test]
fn agent_without_path_loses_a_target_that_does_not_last() {
    let mut path: Option<Path> = Some(Path::new(vec![Point::new(0, 0)]));
    let mut target: Option<PathTarget> = Some(target_at(5000, 5000, 0, false));
    for change in path_changes(vec![(11, None)]) {
        match change {
            PathChange::Insert(_, found) => path = Some(found),
            PathChange::Remove(_) => path = None,
        }
    }
    let agents = vec![Agent {
        entity: 11,
        position: Point::new(0, 0),
        target: target.unwrap(),
        has_path: path.is_some(),
    }];
    for entity in remove_path_targets(&UpdatePathsState::default(), &agents) {
        assert_eq!(entity, 11);
        target = None;
    }
    assert!(path.is_none());
    assert!(target.is_none());
}

#[test]
fn agent_without_path_keeps_a_permanent_target() {
    let changes = path_changes(vec![(11, None)]);
    assert!(matches!(changes[0], PathChange::Remove(11)));
    let agents = vec![Agent {
        entity: 11,
        position: Point::new(0, 0),
        target: target_at(5000, 5000, 0, true),
        has_path: false,
    }];
    assert_eq!(
        remove_path_targets(&UpdatePathsState::default(), &agents),
        Vec::<u64>::new()
    );
}
