use vstd::prelude::*;
use crate::geometry::{
    NavVec3, seg_len, point_along, segment_length, position_along, half_coord,
    lemma_seg_len_self, lemma_coord_halfway,
};

verus! {

/// Quality of the point query on a navigation mesh.
#[derive(Clone, Copy, Debug, PartialEq, Eq, Structural)]
pub enum NavQuery {
    /// Best quality, totally accurate.
    Accuracy,
    /// Medium quality, finds the point in the closest triangle.
    Closest,
    /// Low quality, finds the first triangle in range of the query.
    ClosestFirst,
}

/// Quality of path finding.
#[derive(Clone, Copy, Debug, PartialEq, Eq, Structural)]
pub enum NavPathMode {
    /// Best quality, finds the shortest path.
    Accuracy,
    /// Medium quality, finds the shortest path through triangle midpoints.
    MidPoints,
}

/// What an agent goes to.
#[derive(Clone, Copy, Debug, PartialEq, Eq, Structural)]
pub enum NavAgentTarget {
    /// A point in world space.
    Point(NavVec3),
    /// Another agent, followed wherever it stands; the value identifies it.
    Entity(u64),
}

/// Where an agent goes, and how the navigation engine is to find the way.
#[derive(Clone, Copy, Debug, PartialEq, Eq, Structural)]
pub struct NavAgentDestination {
    pub target: NavAgentTarget,
    pub query: NavQuery,
    pub mode: NavPathMode,
    /// Identifier of the navigation mesh the agent moves on.
    pub mesh: u64,
}

/// What an agent is, mathematically. The agent stands `progress` units along the segment
/// from `anchor` to the first waypoint of `path`; with no waypoint left it stands at `anchor`.
pub struct AgentView {
    pub anchor: NavVec3,
    pub progress: nat,
    pub speed: nat,
    pub destination: Option<NavAgentDestination>,
    pub path: Seq<NavVec3>,
    pub dirty_path: bool,
}

/// Moves along `path` from `progress` units past `anchor` by `d` units: each waypoint that
/// is reached becomes the new anchor and leaves the path.
pub open spec fn follow(anchor: NavVec3, path: Seq<NavVec3>, progress: nat, d: nat) -> (
    NavVec3,
    Seq<NavVec3>,
    nat,
)
    decreases path.len(),
{
    if d == 0 || path.len() == 0 {
        (anchor, path, progress)
    } else {
        let l = seg_len(anchor, path[0]);
        let rem: nat = if progress < l {
            (l - progress) as nat
        } else {
            0
        };
        if d < rem {
            (anchor, path, progress + d)
        } else {
            follow(path[0], path.drop_first(), 0, (d - rem) as nat)
        }
    }
}

impl AgentView {
    /// The agent never stands at or past the next waypoint, and stands at its anchor when
    /// it has no path.
    pub open spec fn wf(self) -> bool {
        self.progress == 0 || (self.path.len() > 0 && self.progress < seg_len(
            self.anchor,
            self.path[0],
        ))
    }

    pub open spec fn position(self) -> NavVec3 {
        if self.path.len() == 0 {
            self.anchor
        } else {
            point_along(self.anchor, self.path[0], self.progress)
        }
    }

    /// The path as the presentation sees it: none when no waypoint is left.
    pub open spec fn path_opt(self) -> Option<Seq<NavVec3>> {
        if self.path.len() == 0 {
            None
        } else {
            Some(self.path)
        }
    }

    /// The agent after covering `d` units of its path.
    pub open spec fn advanced(self, d: nat) -> AgentView {
        let (anchor, path, progress) = follow(self.anchor, self.path, self.progress, d);
        AgentView { anchor, path, progress, ..self }
    }

    /// The agent after `elapsed` time units of simple driving at its speed.
    pub open spec fn driven(self, elapsed: nat) -> AgentView {
        self.advanced(self.speed * elapsed)
    }

    /// The agent holds a destination, has no path left and waits for no new one.
    pub open spec fn arrived(self) -> bool {
        self.destination is Some && self.path.len() == 0 && !self.dirty_path
    }
}

/// A navigation agent: its position, speed, destination and current path.
pub struct NavAgent {
    anchor: NavVec3,
    progress: u64,
    speed: u64,
    destination: Option<NavAgentDestination>,
    path: Vec<NavVec3>,
    dirty_path: bool,
}

impl View for NavAgent {
    type V = AgentView;

    closed spec fn view(&self) -> AgentView {
        AgentView {
            anchor: self.anchor,
            progress: self.progress as nat,
            speed: self.speed as nat,
            destination: self.destination,
            path: self.path@,
            dirty_path: self.dirty_path,
        }
    }
}

impl NavAgent {
    pub open spec fn wf(&self) -> bool {
        self@.wf()
    }

    /// An agent standing at `position`, with speed 10, no destination and no path.
    pub fn new(position: NavVec3) -> (r: NavAgent)
        ensures
            r.wf(),
            r@.position() == position,
            r@.progress == 0,
            r@.speed == 10,
            r@.destination is None,
            r@.path.len() == 0,
            !r@.dirty_path,
    {
        NavAgent {
            anchor: position,
            progress: 0,
            speed: 10,
            destination: None,
            path: Vec::new(),
            dirty_path: false,
        }
    }

    /// Current position in world space.
    pub fn position(&self) -> (r: NavVec3)
        requires
            self.wf(),
        ensures
            r == self@.position(),
    {
        if self.path.len() == 0 {
            self.anchor
        } else {
            position_along(self.anchor, self.path[0], self.progress)
        }
    }

    /// Distance covered per time unit.
    pub fn speed(&self) -> (r: u64)
        ensures
            r == self@.speed,
    {
        self.speed
    }

    /// Advances the agent along its path by what its speed covers in `delta_time`.
    pub fn process_path(&mut self, delta_time: u64)
        requires
            old(self).wf(),
        ensures
            final(self).wf(),
            final(self)@ == old(self)@.driven(delta_time as nat),
            delta_time == 0 || old(self)@.path.len() == 0 ==> final(self)@ == old(self)@,
    {
        assert((self.speed as u128) * (delta_time as u128) <= 0xffff_ffff_ffff_ffff
            * 0xffff_ffff_ffff_ffff) by (nonlinear_arith)
            requires
                self.speed <= 0xffff_ffff_ffff_ffff,
                delta_time <= 0xffff_ffff_ffff_ffff,
        ;
        let mut d: u128 = self.speed as u128 * delta_time as u128;
        let ghost goal = old(self)@.driven(delta_time as nat);
        while d > 0 && self.path.len() > 0
            invariant
                self.wf(),
                self@.advanced(d as nat) == goal,
            decreases self.path.len(), d,
        {
            let ghost before = self@;
            let ghost d_before = d as nat;
            let l = segment_length(self.anchor, self.path[0]);
            let rem: u64 = if self.progress < l {
                l - self.progress
            } else {
                0
            };
            if d < rem as u128 {
                self.progress = self.progress + d as u64;
                d = 0;
                assert(before.advanced(d_before) == self@);
                assert(self@.advanced(0) == self@);
            } else {
                let next = self.path.remove(0);
                self.anchor = next;
                self.progress = 0;
                d = d - rem as u128;
                assert(self@.path =~= before.path.drop_first());
            }
        }
        assert(self@.advanced(d as nat) == self@);
        proof {
            let v = old(self)@;
            if delta_time == 0 {
                assert(v.speed * (delta_time as nat) == 0) by (nonlinear_arith)
                    requires
                        delta_time == 0,
                ;
                assert(v.advanced(0) == v);
            }
            if v.path.len() == 0 {
                assert(v.advanced(v.speed * (delta_time as nat)) == v);
            }
        }
    }

    /// Sets the distance covered per time unit.
    pub fn set_speed(&mut self, speed: u64)
        requires
            old(self).wf(),
        ensures
            final(self).wf(),
            final(self)@ == (AgentView { speed: speed as nat, ..old(self)@ }),
    {
        self.speed = speed;
    }

    /// Moves the agent to `position` at once, keeping its destination and path.
    pub fn set_position(&mut self, position: NavVec3)
        requires
            old(self).wf(),
        ensures
            final(self).wf(),
            final(self)@ == (AgentView { anchor: position, progress: 0, ..old(self)@ }),
            final(self)@.position() == position,
    {
        self.anchor = position;
        self.progress = 0;
    }

    /// The target of the current destination, if any.
    pub fn target(&self) -> (r: Option<NavAgentTarget>)
        ensures
            r == (match self@.destination {
                Some(d) => Some(d.target),
                None => None,
            }),
    {
        match self.destination {
            Some(d) => Some(d.target),
            None => None,
        }
    }

    /// The current destination, if any.
    pub fn destination(&self) -> (r: Option<NavAgentDestination>)
        ensures
            r == self@.destination,
    {
        self.destination
    }

    /// Whether the agent waits for the navigation engine to find it a new path.
    pub fn needs_path(&self) -> (r: bool)
        ensures
            r == self@.dirty_path,
    {
        self.dirty_path
    }

    /// Sets the destination to go to; the navigation engine finds the path on its next pass.
    pub fn set_destination(
        &mut self,
        target: NavAgentTarget,
        query: NavQuery,
        mode: NavPathMode,
        mesh: u64,
    )
        requires
            old(self).wf(),
        ensures
            final(self).wf(),
            final(self)@ == (AgentView {
                destination: Some(NavAgentDestination { target, query, mode, mesh }),
                dirty_path: true,
                ..old(self)@
            }),
            final(self)@.dirty_path,
            !final(self)@.arrived(),
    {
        self.destination = Some(NavAgentDestination { target, query, mode, mesh });
        self.dirty_path = true;
    }

    /// Drops the destination and the path; the agent stops where it stands.
    pub fn clear_path(&mut self)
        requires
            old(self).wf(),
        ensures
            final(self).wf(),
            final(self)@ == (AgentView {
                anchor: old(self)@.position(),
                progress: 0,
                destination: None,
                path: Seq::empty(),
                dirty_path: false,
                ..old(self)@
            }),
            final(self)@.path_opt() is None,
            final(self)@.position() == old(self)@.position(),
    {
        let here = self.position();
        self.anchor = here;
        self.progress = 0;
        self.destination = None;
        self.path = Vec::new();
        self.dirty_path = false;
    }

    /// Asks the navigation engine to find the path again on its next pass.
    pub fn recalculate_path(&mut self)
        requires
            old(self).wf(),
        ensures
            final(self).wf(),
            final(self)@ == (AgentView { dirty_path: true, ..old(self)@ }),
    {
        self.dirty_path = true;
    }

    /// The waypoints still ahead, or none when no path is left.
    pub fn path(&self) -> (r: Option<&Vec<NavVec3>>)
        ensures
            match r {
                Some(p) => self@.path_opt() == Some(p@),
                None => self@.path_opt() is None,
            },
    {
        if self.path.len() == 0 {
            None
        } else {
            Some(&self.path)
        }
    }

    /// Takes the path that the navigation engine found; it starts where the agent stands.
    pub fn set_path(&mut self, path: Vec<NavVec3>)
        requires
            old(self).wf(),
        ensures
            final(self).wf(),
            final(self)@ == (AgentView {
                anchor: old(self)@.position(),
                progress: 0,
                path: path@,
                dirty_path: false,
                ..old(self)@
            }),
            final(self)@.position() == old(self)@.position(),
    {
        let here = self.position();
        self.anchor = here;
        self.progress = 0;
        self.path = path;
        self.dirty_path = false;
    }
}

proof fn lemma_follow_additive(anchor: NavVec3, path: Seq<NavVec3>, progress: nat, a: nat, b: nat)
    requires
        progress == 0 || (path.len() > 0 && progress < seg_len(anchor, path[0])),
    ensures
        ({
            let (an, pa, pr) = follow(anchor, path, progress, a);
            follow(an, pa, pr, b)
        }) == follow(anchor, path, progress, a + b),
    decreases path.len(),
{
    if a == 0 || path.len() == 0 {
    } else {
        let l = seg_len(anchor, path[0]);
        let rem: nat = if progress < l {
            (l - progress) as nat
        } else {
            0
        };
        if a < rem {
        } else {
            lemma_follow_additive(path[0], path.drop_first(), 0, (a - rem) as nat, b);
            assert((a - rem) as nat + b == (a + b - rem) as nat);
        }
    }
}

/// Driving for `t1` and then for `t2` leaves the agent exactly as driving for `t1 + t2` at
/// once does, on a path that nothing changes in between.
pub proof fn lemma_driving_is_additive(v: AgentView, t1: nat, t2: nat)
    requires
        v.wf(),
    ensures
        v.driven(t1).driven(t2) == v.driven(t1 + t2),
        v.driven(t1).driven(t2).position() == v.driven(t1 + t2).position(),
{
    assert(v.speed * (t1 + t2) == v.speed * t1 + v.speed * t2) by (nonlinear_arith);
    lemma_follow_additive(v.anchor, v.path, v.progress, v.speed * t1, v.speed * t2);
}

/// An agent without a path stays as it is, however long it drives.
pub proof fn lemma_no_path_no_move(v: AgentView, t: nat)
    ensures
        v.path.len() == 0 ==> v.driven(t) == v,
{
}

/// On a straight path of two waypoints whose first is where the agent stands (as `set_path`
/// leaves it), driving for the time that the segment's length `l` takes at the agent's
/// speed brings it exactly to the end and leaves no path; driving for half that time brings
/// it exactly halfway, with the end still ahead.
pub proof fn lemma_straight_segment(v: AgentView, end: NavVec3, t: nat)
    requires
        v.progress == 0,
        v.path == seq![v.anchor, end],
        seg_len(v.anchor, end) > 0,
    ensures
        v.speed * t == seg_len(v.anchor, end) ==> {
            &&& v.driven(t).position() == end
            &&& v.driven(t).path_opt() is None
        },
        v.speed * t * 2 == seg_len(v.anchor, end) ==> {
            &&& v.driven(t).path == seq![end]
            &&& v.driven(t).progress == seg_len(v.anchor, end) / 2
            &&& v.driven(t).position() == (NavVec3 {
                x: half_coord(v.anchor.x as int, end.x as int) as i32,
                y: half_coord(v.anchor.y as int, end.y as int) as i32,
                z: half_coord(v.anchor.z as int, end.z as int) as i32,
            })
        },
{
    let start = v.anchor;
    let l = seg_len(start, end);
    lemma_seg_len_self(start);
    let d = v.speed * t;
    assert(v.path[0] == start);
    assert(v.path.drop_first() == seq![end]);
    assert(seq![end].drop_first() =~= Seq::<NavVec3>::empty());
    if d == l {
        assert(follow(start, v.path, 0, d) == follow(start, seq![end], 0, d));
        assert(follow(start, seq![end], 0, d) == follow(end, Seq::<NavVec3>::empty(), 0, 0));
    }
    if d * 2 == l {
        assert(follow(start, v.path, 0, d) == follow(start, seq![end], 0, d));
        assert(d == l / 2);
        assert(l % 2 == 0);
        lemma_coord_halfway(start.x as int, end.x as int, l);
        lemma_coord_halfway(start.y as int, end.y as int, l);
        lemma_coord_halfway(start.z as int, end.z as int, l);
    }
}

} // verus!
