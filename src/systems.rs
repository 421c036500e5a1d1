use vstd::prelude::*;
use crate::geometry::NavVec3;
use crate::agent::{AgentView, NavAgent, NavAgentDestination, NavAgentTarget, NavPathMode, NavQuery};

verus! {

/// A pointer position in viewport pixels, `y` growing downward.
#[derive(Clone, Copy, Debug, PartialEq, Eq, Structural)]
pub struct PointerPos {
    pub x: i32,
    pub y: i32,
}

/// The buttons held and the pointer position, in viewport pixels, for one tick.
#[derive(Clone, Copy, Debug, PartialEq, Eq, Structural)]
pub struct CommandSignal {
    pub primary: bool,
    pub secondary: bool,
    pub tertiary: bool,
    pub pointer: Option<PointerPos>,
}

/// Size of the viewport in pixels; a pixel is one world unit, and world `y` grows upward.
#[derive(Clone, Copy, Debug, PartialEq, Eq, Structural)]
pub struct Viewport {
    pub width: u16,
    pub height: u16,
}

pub open spec fn clamp_spec(v: int, hi: int) -> int {
    if v < 0 {
        0
    } else if v > hi {
        hi
    } else {
        v
    }
}

/// The world point under the pointer at (`px`, `py`), clamped into the viewport.
pub open spec fn world_point(viewport: Viewport, px: int, py: int) -> NavVec3 {
    NavVec3 {
        x: clamp_spec(px, viewport.width as int) as i32,
        y: (viewport.height - clamp_spec(py, viewport.height as int)) as i32,
        z: 0,
    }
}

/// What the command signal makes of an agent: the primary button sends it to the pointer
/// on the first mesh, the secondary one stops it, the tertiary one puts it under the pointer.
pub open spec fn commanded(
    v: AgentView,
    signal: CommandSignal,
    viewport: Viewport,
    meshes: Seq<u64>,
) -> AgentView {
    if signal.primary {
        match signal.pointer {
            Some(p) => if meshes.len() > 0 {
                AgentView {
                    destination: Some(
                        NavAgentDestination {
                            target: NavAgentTarget::Point(world_point(viewport, p.x as int, p.y as int)),
                            query: NavQuery::Accuracy,
                            mode: NavPathMode::Accuracy,
                            mesh: meshes[0],
                        },
                    ),
                    dirty_path: true,
                    ..v
                }
            } else {
                v
            },
            None => v,
        }
    } else if signal.secondary {
        AgentView {
            anchor: v.position(),
            progress: 0,
            destination: None,
            path: Seq::empty(),
            dirty_path: false,
            ..v
        }
    } else if signal.tertiary {
        match signal.pointer {
            Some(p) => AgentView {
                anchor: world_point(viewport, p.x as int, p.y as int),
                progress: 0,
                ..v
            },
            None => v,
        }
    } else {
        v
    }
}

fn clamp_coord(v: i32, hi: u16) -> (r: i32)
    ensures
        r as int == clamp_spec(v as int, hi as int),
{
    if v < 0 {
        0
    } else if v > hi as i32 {
        hi as i32
    } else {
        v
    }
}

/// The world point under the pointer at (`px`, `py`), clamped into the viewport.
pub fn to_world(viewport: Viewport, px: i32, py: i32) -> (r: NavVec3)
    ensures
        r == world_point(viewport, px as int, py as int),
{
    NavVec3 {
        x: clamp_coord(px, viewport.width),
        y: viewport.height as i32 - clamp_coord(py, viewport.height),
        z: 0,
    }
}

/// Applies one tick's command signal to an agent. `meshes` lists the registered navigation
/// meshes; a destination is bound to the first of them.
pub fn command_agent(
    agent: &mut NavAgent,
    signal: &CommandSignal,
    viewport: Viewport,
    meshes: &Vec<u64>,
)
    requires
        old(agent).wf(),
    ensures
        final(agent).wf(),
        final(agent)@ == commanded(old(agent)@, *signal, viewport, meshes@),
        !signal.primary && signal.secondary ==> final(agent)@.path_opt() is None,
        !signal.primary && !signal.secondary && signal.tertiary ==> {
            &&& final(agent)@.destination == old(agent)@.destination
            &&& final(agent)@.path == old(agent)@.path
            &&& final(agent)@.dirty_path == old(agent)@.dirty_path
        },
{
    if signal.primary {
        if let Some(p) = signal.pointer {
            if meshes.len() > 0 {
                let point = to_world(viewport, p.x, p.y);
                agent.set_destination(
                    NavAgentTarget::Point(point),
                    NavQuery::Accuracy,
                    NavPathMode::Accuracy,
                    meshes[0],
                );
            }
        }
    } else if signal.secondary {
        agent.clear_path();
    } else if signal.tertiary {
        if let Some(p) = signal.pointer {
            let point = to_world(viewport, p.x, p.y);
            agent.set_position(point);
        }
    }
}

/// One agent of the simulation with the tags that select which stages act on it.
pub struct TaggedAgent {
    pub agent: NavAgent,
    /// The agent follows the user's commands.
    pub player: bool,
    /// The agent moves along its path by simple driving.
    pub simple_driver: bool,
}

/// Moves every agent tagged for simple driving along its path: straight segments at constant
/// speed, as far as its speed carries it in the elapsed time.
pub struct SimpleNavDriverSystem;

impl SimpleNavDriverSystem {
    pub fn run(&self, delta_time: u64, agents: &mut Vec<TaggedAgent>)
        requires
            forall|i: int| 0 <= i < old(agents)@.len() ==> old(agents)@[i].agent.wf(),
        ensures
            final(agents)@.len() == old(agents)@.len(),
            forall|i: int|
                0 <= i < final(agents)@.len() ==> {
                    &&& final(agents)@[i].agent.wf()
                    &&& final(agents)@[i].player == old(agents)@[i].player
                    &&& final(agents)@[i].simple_driver == old(agents)@[i].simple_driver
                    &&& final(agents)@[i].agent@ == if old(agents)@[i].simple_driver {
                        old(agents)@[i].agent@.driven(delta_time as nat)
                    } else {
                        old(agents)@[i].agent@
                    }
                },
    {
        let n = agents.len();
        for i in 0..n
            invariant
                n == agents@.len(),
                agents@.len() == old(agents)@.len(),
                forall|j: int|
                    0 <= j < n ==> {
                        &&& agents@[j].agent.wf()
                        &&& agents@[j].player == old(agents)@[j].player
                        &&& agents@[j].simple_driver == old(agents)@[j].simple_driver
                        &&& agents@[j].agent@ == if j < i && old(agents)@[j].simple_driver {
                            old(agents)@[j].agent@.driven(delta_time as nat)
                        } else {
                            old(agents)@[j].agent@
                        }
                    },
        {
            if agents[i].simple_driver {
                let entry = &mut agents[i];
                entry.agent.process_path(delta_time);
            }
        }
    }
}

/// Applies the user's commands to every agent tagged as a player.
pub struct CommandAgentsSystem;

impl CommandAgentsSystem {
    pub fn run(
        &self,
        signal: &CommandSignal,
        viewport: Viewport,
        meshes: &Vec<u64>,
        agents: &mut Vec<TaggedAgent>,
    )
        requires
            forall|i: int| 0 <= i < old(agents)@.len() ==> old(agents)@[i].agent.wf(),
        ensures
            final(agents)@.len() == old(agents)@.len(),
            forall|i: int|
                0 <= i < final(agents)@.len() ==> {
                    &&& final(agents)@[i].agent.wf()
                    &&& final(agents)@[i].player == old(agents)@[i].player
                    &&& final(agents)@[i].simple_driver == old(agents)@[i].simple_driver
                    &&& final(agents)@[i].agent@ == if old(agents)@[i].player {
                        commanded(old(agents)@[i].agent@, *signal, viewport, meshes@)
                    } else {
                        old(agents)@[i].agent@
                    }
                },
    {
        let n = agents.len();
        for i in 0..n
            invariant
                n == agents@.len(),
                agents@.len() == old(agents)@.len(),
                forall|j: int|
                    0 <= j < n ==> {
                        &&& agents@[j].agent.wf()
                        &&& agents@[j].player == old(agents)@[j].player
                        &&& agents@[j].simple_driver == old(agents)@[j].simple_driver
                        &&& agents@[j].agent@ == if j < i && old(agents)@[j].player {
                            commanded(old(agents)@[j].agent@, *signal, viewport, meshes@)
                        } else {
                            old(agents)@[j].agent@
                        }
                    },
        {
            if agents[i].player {
                let entry = &mut agents[i];
                command_agent(&mut entry.agent, signal, viewport, meshes);
            }
        }
    }
}

/// A path query for the navigation engine: from where the agent stands to where it goes.
#[derive(Clone, Copy, Debug, PartialEq, Eq, Structural)]
pub struct PathRequest {
    pub from: NavVec3,
    pub to: NavVec3,
    pub query: NavQuery,
    pub mode: NavPathMode,
    pub mesh: u64,
}

/// The query that agent `i` needs: it waits for a path, its mesh is registered, and its
/// target resolves to a point (a point target, or another agent of the collection).
pub open spec fn request_of(agents: Seq<TaggedAgent>, i: int, meshes: Seq<u64>) -> Option<
    PathRequest,
> {
    let a = agents[i].agent@;
    match a.destination {
        Some(d) => if a.dirty_path && meshes.contains(d.mesh) {
            match d.target {
                NavAgentTarget::Point(p) => Some(
                    PathRequest { from: a.position(), to: p, query: d.query, mode: d.mode, mesh: d.mesh },
                ),
                NavAgentTarget::Entity(e) => if e != i && e < agents.len() {
                    Some(
                        PathRequest {
                            from: a.position(),
                            to: agents[e as int].agent@.position(),
                            query: d.query,
                            mode: d.mode,
                            mesh: d.mesh,
                        },
                    )
                } else {
                    None
                },
            }
        } else {
            None
        },
        None => None,
    }
}

fn mesh_registered(meshes: &Vec<u64>, mesh: u64) -> (r: bool)
    ensures
        r == meshes@.contains(mesh),
{
    let mut k: usize = 0;
    while k < meshes.len()
        invariant
            k <= meshes@.len(),
            forall|j: int| 0 <= j < k ==> meshes@[j] != mesh,
        decreases meshes@.len() - k,
    {
        if meshes[k] == mesh {
            return true;
        }
        k = k + 1;
    }
    false
}

/// The path query that agent `i` needs on this maintenance pass, if any.
pub fn path_request(agents: &Vec<TaggedAgent>, i: usize, meshes: &Vec<u64>) -> (r: Option<
    PathRequest,
>)
    requires
        i < agents@.len(),
        forall|j: int| 0 <= j < agents@.len() ==> agents@[j].agent.wf(),
    ensures
        r == request_of(agents@, i as int, meshes@),
{
    let a = &agents[i].agent;
    match a.destination() {
        Some(d) => {
            if a.needs_path() && mesh_registered(meshes, d.mesh) {
                match d.target {
                    NavAgentTarget::Point(p) => Some(
                        PathRequest {
                            from: a.position(),
                            to: p,
                            query: d.query,
                            mode: d.mode,
                            mesh: d.mesh,
                        },
                    ),
                    NavAgentTarget::Entity(e) => {
                        if e != i as u64 && e < agents.len() as u64 {
                            let other = &agents[e as usize].agent;
                            Some(
                                PathRequest {
                                    from: a.position(),
                                    to: other.position(),
                                    query: d.query,
                                    mode: d.mode,
                                    mesh: d.mesh,
                                },
                            )
                        } else {
                            None
                        }
                    },
                }
            } else {
                None
            }
        },
        None => None,
    }
}

/// An agent whose destination was just set is asked a path for on the next maintenance
/// pass, from where it stands to its target point, as long as its mesh is registered.
pub proof fn lemma_destination_requests_path(
    agents: Seq<TaggedAgent>,
    i: int,
    meshes: Seq<u64>,
    target: NavVec3,
    query: NavQuery,
    mode: NavPathMode,
    mesh: u64,
)
    requires
        0 <= i < agents.len(),
        agents[i].agent@.destination == Some(
            NavAgentDestination { target: NavAgentTarget::Point(target), query, mode, mesh },
        ),
        agents[i].agent@.dirty_path,
        meshes.contains(mesh),
    ensures
        request_of(agents, i, meshes) == Some(
            PathRequest { from: agents[i].agent@.position(), to: target, query, mode, mesh },
        ),
{
}

/// Hands the navigation engine's answer to an agent: a found path replaces the old one, and
/// with none found the agent stays as it is and keeps waiting.
pub fn apply_found_path(agent: &mut NavAgent, found: Option<Vec<NavVec3>>)
    requires
        old(agent).wf(),
    ensures
        final(agent).wf(),
        match found {
            Some(p) => final(agent)@ == (AgentView {
                anchor: old(agent)@.position(),
                progress: 0,
                path: p@,
                dirty_path: false,
                ..old(agent)@
            }),
            None => final(agent)@ == old(agent)@,
        },
{
    if let Some(p) = found {
        agent.set_path(p);
    }
}

} // verus!
