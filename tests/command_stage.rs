use amethyst_navigation::agent::{NavAgent, NavAgentTarget, NavPathMode, NavQuery};
use amethyst_navigation::geometry::NavVec3;
use amethyst_navigation::systems::{
    apply_found_path, command_agent, path_request, to_world, CommandAgentsSystem, CommandSignal,
    PathRequest, PointerPos, SimpleNavDriverSystem, TaggedAgent, Viewport,
};

fn v(x: i32, y: i32, z: i32) -> NavVec3 {
    NavVec3::new(x, y, z)
}

fn screen() -> Viewport {
    Viewport { width: 800, height: 600 }
}

fn signal(primary: bool, secondary: bool, tertiary: bool, pointer: Option<(i32, i32)>) -> CommandSignal {
    CommandSignal {
        primary,
        secondary,
        tertiary,
        pointer: pointer.map(|(x, y)| PointerPos { x, y }),
    }
}

fn moving_agent() -> NavAgent {
    let mut agent = NavAgent::new(v(0, 0, 0));
    agent.set_speed(1);
    agent.set_destination(NavAgentTarget::Point(v(3, 4, 0)), NavQuery::Closest, NavPathMode::MidPoints, 9);
    agent.set_path(vec![v(0, 0, 0), v(3, 4, 0)]);
    agent.process_path(2);
    agent
}

#[test]
fn pointer_maps_to_world() {
    assert_eq!(to_world(screen(), 100, 150), v(100, 450, 0));
    assert_eq!(to_world(screen(), 900, -5), v(800, 600, 0));
    assert_eq!(to_world(screen(), -20, 700), v(0, 0, 0));
    assert_eq!(to_world(screen(), 800, 600), v(800, 0, 0));
}

#[test]
fn primary_sets_destination_on_first_mesh() {
    let mut agent = moving_agent();
    command_agent(&mut agent, &signal(true, true, true, Some((100, 150))), screen(), &vec![7, 8]);
    let d = agent.destination().unwrap();
    assert_eq!(d.target, NavAgentTarget::Point(v(100, 450, 0)));
    assert_eq!(d.query, NavQuery::Accuracy);
    assert_eq!(d.mode, NavPathMode::Accuracy);
    assert_eq!(d.mesh, 7);
    assert!(agent.needs_path());
    assert_eq!(agent.position(), v(1, 1, 0));
}

#[test]
fn primary_without_mesh_or_pointer_does_nothing() {
    let mut agent = moving_agent();
    command_agent(&mut agent, &signal(true, true, false, Some((100, 150))), screen(), &Vec::new());
    assert_eq!(agent.target(), Some(NavAgentTarget::Point(v(3, 4, 0))));
    assert_eq!(agent.path().cloned(), Some(vec![v(3, 4, 0)]));

    command_agent(&mut agent, &signal(true, true, false, None), screen(), &vec![1]);
    assert_eq!(agent.target(), Some(NavAgentTarget::Point(v(3, 4, 0))));
    assert_eq!(agent.path().cloned(), Some(vec![v(3, 4, 0)]));
    assert!(!agent.needs_path());
}

#[test]
fn secondary_clears_path() {
    let mut agent = moving_agent();
    command_agent(&mut agent, &signal(false, true, false, Some((10, 10))), screen(), &vec![1]);
    assert_eq!(agent.path(), None);
    assert_eq!(agent.target(), None);
    assert_eq!(agent.position(), v(1, 1, 0));

    let mut idle = NavAgent::new(v(5, 5, 0));
    command_agent(&mut idle, &signal(false, true, true, None), screen(), &Vec::new());
    assert_eq!(idle.path(), None);
}

#[test]
fn tertiary_teleports_without_touching_navigation() {
    let mut agent = moving_agent();
    command_agent(&mut agent, &signal(false, false, true, Some((1000, 100))), screen(), &vec![1]);
    assert_eq!(agent.position(), v(800, 500, 0));
    assert_eq!(agent.target(), Some(NavAgentTarget::Point(v(3, 4, 0))));
    assert_eq!(agent.path().cloned(), Some(vec![v(3, 4, 0)]));
    assert!(!agent.needs_path());
}

#[test]
fn no_button_leaves_agent_alone() {
    let mut agent = moving_agent();
    command_agent(&mut agent, &signal(false, false, false, Some((10, 10))), screen(), &vec![1]);
    assert_eq!(agent.position(), v(1, 1, 0));
    assert_eq!(agent.path().cloned(), Some(vec![v(3, 4, 0)]));
    command_agent(&mut agent, &signal(false, false, true, None), screen(), &vec![1]);
    assert_eq!(agent.position(), v(1, 1, 0));
}

fn tagged(agent: NavAgent, player: bool, simple_driver: bool) -> TaggedAgent {
    TaggedAgent { agent, player, simple_driver }
}

#[test]
fn driver_system_moves_tagged_agents_only() {
    let mut a = NavAgent::new(v(0, 0, 0));
    a.set_speed(5);
    a.set_path(vec![v(0, 0, 0), v(10, 0, 0)]);
    let mut b = NavAgent::new(v(0, 0, 0));
    b.set_speed(5);
    b.set_path(vec![v(0, 0, 0), v(10, 0, 0)]);
    let mut agents = vec![tagged(a, false, true), tagged(b, false, false)];
    SimpleNavDriverSystem.run(1, &mut agents);
    assert_eq!(agents[0].agent.position(), v(5, 0, 0));
    assert_eq!(agents[1].agent.position(), v(0, 0, 0));
}

#[test]
fn command_system_commands_players_only() {
    let mut agents = vec![
        tagged(NavAgent::new(v(1, 1, 0)), true, true),
        tagged(NavAgent::new(v(2, 2, 0)), false, true),
    ];
    CommandAgentsSystem.run(&signal(false, false, true, Some((50, 50))), screen(), &vec![1], &mut agents);
    assert_eq!(agents[0].agent.position(), v(50, 550, 0));
    assert_eq!(agents[1].agent.position(), v(2, 2, 0));
}

#[test]
fn path_requests_resolve_targets() {
    let mut follower = NavAgent::new(v(1, 1, 0));
    follower.set_destination(NavAgentTarget::Entity(1), NavQuery::Closest, NavPathMode::MidPoints, 4);
    let leader = NavAgent::new(v(9, 9, 0));
    let mut pointed = NavAgent::new(v(3, 3, 0));
    pointed.set_destination(NavAgentTarget::Point(v(6, 6, 0)), NavQuery::Accuracy, NavPathMode::Accuracy, 4);
    let mut selfish = NavAgent::new(v(0, 0, 0));
    selfish.set_destination(NavAgentTarget::Entity(3), NavQuery::Accuracy, NavPathMode::Accuracy, 4);
    let mut lost = NavAgent::new(v(0, 0, 0));
    lost.set_destination(NavAgentTarget::Point(v(6, 6, 0)), NavQuery::Accuracy, NavPathMode::Accuracy, 5);
    let agents = vec![
        tagged(follower, true, true),
        tagged(leader, false, true),
        tagged(pointed, false, true),
        tagged(selfish, false, true),
        tagged(lost, false, true),
    ];
    let meshes = vec![4];
    assert_eq!(
        path_request(&agents, 0, &meshes),
        Some(PathRequest { from: v(1, 1, 0), to: v(9, 9, 0), query: NavQuery::Closest, mode: NavPathMode::MidPoints, mesh: 4 })
    );
    assert_eq!(path_request(&agents, 1, &meshes), None);
    assert_eq!(
        path_request(&agents, 2, &meshes),
        Some(PathRequest { from: v(3, 3, 0), to: v(6, 6, 0), query: NavQuery::Accuracy, mode: NavPathMode::Accuracy, mesh: 4 })
    );
    assert_eq!(path_request(&agents, 3, &meshes), None);
    assert_eq!(path_request(&agents, 4, &meshes), None);
}

#[test]
fn found_paths_are_applied_and_misses_wait() {
    let mut agent = NavAgent::new(v(0, 0, 0));
    agent.set_destination(NavAgentTarget::Point(v(0, 8, 0)), NavQuery::Accuracy, NavPathMode::Accuracy, 1);
    apply_found_path(&mut agent, None);
    assert!(agent.needs_path());
    assert_eq!(agent.path(), None);
    apply_found_path(&mut agent, Some(vec![v(0, 0, 0), v(0, 8, 0)]));
    assert!(!agent.needs_path());
    assert_eq!(agent.path().cloned(), Some(vec![v(0, 0, 0), v(0, 8, 0)]));
}
