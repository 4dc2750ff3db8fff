//! Reading overlap events into the two facts of a tick: how often the bird
//! scored, and whether it crashed.
//!
//! The physics engine reports, by the identifiers of the two bodies, each
//! overlap that began or ended in a tick. A registry says which identifiers
//! belong to the bird, to the score zones and to the pipes. An overlap that
//! began between the bird and a score zone is one point; one between the
//! bird and a pipe is a crash, and so is touching the ground, which no
//! event reports.

use vstd::prelude::*;
use crate::bird::{Bird, BIRD_RADIUS};
use crate::pipes::GameData;
use crate::GROUND_TOP;

verus! {

/// A change in the overlap of two bodies, named by their identifiers.
#[derive(Clone, Copy, Debug, PartialEq, Eq, Structural)]
pub enum CollisionEvent {
    /// The two bodies began to overlap.
    Started(u64, u64),
    /// The two bodies ceased to overlap.
    Stopped(u64, u64),
}

/// The identifiers of the bodies that play a part in the rules.
#[derive(Clone, Debug)]
pub struct Bodies {
    /// Bodies of the bird.
    pub birds: Vec<u64>,
    /// Sensors in the gaps of the pipe pairs.
    pub score_zones: Vec<u64>,
    /// Solid parts of the pipes.
    pub pipe_bodies: Vec<u64>,
}

impl Bodies {
    /// Whether `id` is registered as the bird.
    pub open spec fn is_bird(self, id: u64) -> bool {
        self.birds@.contains(id)
    }

    /// Whether `id` is registered as a score zone.
    pub open spec fn is_score_zone(self, id: u64) -> bool {
        self.score_zones@.contains(id)
    }

    /// Whether `id` is registered as a solid part of a pipe.
    pub open spec fn is_pipe_body(self, id: u64) -> bool {
        self.pipe_bodies@.contains(id)
    }

    /// One of the two bodies is the bird and the other a score zone.
    pub open spec fn bird_in_score_zone(self, a: u64, b: u64) -> bool {
        (self.is_bird(a) && self.is_score_zone(b)) || (self.is_bird(b) && self.is_score_zone(a))
    }

    /// One of the two bodies is the bird and the other a pipe.
    pub open spec fn bird_on_pipe(self, a: u64, b: u64) -> bool {
        (self.is_bird(a) && self.is_pipe_body(b)) || (self.is_bird(b) && self.is_pipe_body(a))
    }

    /// The event is the bird entering a score zone.
    pub open spec fn scores(self, event: CollisionEvent) -> bool {
        match event {
            CollisionEvent::Started(a, b) => self.bird_in_score_zone(a, b),
            CollisionEvent::Stopped(_, _) => false,
        }
    }

    /// The event is the bird running into a pipe.
    pub open spec fn hits_pipe(self, event: CollisionEvent) -> bool {
        match event {
            CollisionEvent::Started(a, b) => self.bird_on_pipe(a, b),
            CollisionEvent::Stopped(_, _) => false,
        }
    }

    /// Number of events among `events` that score. Each of them counts,
    /// however many arrive in one tick.
    pub open spec fn scoring_events(self, events: Seq<CollisionEvent>) -> nat
        decreases events.len(),
    {
        if events.len() == 0 {
            0
        } else {
            self.scoring_events(events.drop_last()) + if self.scores(events.last()) {
                1nat
            } else {
                0nat
            }
        }
    }

    /// Some event among `events` is the bird running into a pipe.
    pub open spec fn pipe_hit(self, events: Seq<CollisionEvent>) -> bool {
        exists|i: int| 0 <= i < events.len() && self.hits_pipe(#[trigger] events[i])
    }

    /// The bird crashed in this tick: it touches the ground at height `y`,
    /// or it ran into a pipe.
    pub open spec fn crashed(self, y: int, events: Seq<CollisionEvent>) -> bool {
        touches_ground(y) || self.pipe_hit(events)
    }

    /// A registry without bodies.
    pub fn new() -> (bodies: Bodies)
        ensures
            bodies.birds@ == Seq::<u64>::empty(),
            bodies.score_zones@ == Seq::<u64>::empty(),
            bodies.pipe_bodies@ == Seq::<u64>::empty(),
    {
        Bodies { birds: Vec::new(), score_zones: Vec::new(), pipe_bodies: Vec::new() }
    }

    /// Tells whether the overlap of `a` and `b` is the bird in a score
    /// zone, in either order.
    pub fn bird_entered_score_zone(&self, a: u64, b: u64) -> (entered: bool)
        ensures
            entered == self.bird_in_score_zone(a, b),
    {
        (listed(&self.birds, a) && listed(&self.score_zones, b)) || (listed(&self.birds, b)
            && listed(&self.score_zones, a))
    }

    /// Tells whether the overlap of `a` and `b` is the bird on a pipe, in
    /// either order.
    pub fn bird_hit_pipe(&self, a: u64, b: u64) -> (hit: bool)
        ensures
            hit == self.bird_on_pipe(a, b),
    {
        (listed(&self.birds, a) && listed(&self.pipe_bodies, b)) || (listed(&self.birds, b)
            && listed(&self.pipe_bodies, a))
    }
}

/// The bird's centre at height `y` is within a radius of the ground.
pub open spec fn touches_ground(y: int) -> bool {
    y <= GROUND_TOP + BIRD_RADIUS
}

/// The count of scoring events grows with the sequence: a prefix never
/// holds more of them than the whole.
pub proof fn lemma_scoring_events_prefix(bodies: Bodies, events: Seq<CollisionEvent>, n: int)
    requires
        0 <= n <= events.len(),
    ensures
        bodies.scoring_events(events.take(n)) <= bodies.scoring_events(events),
        bodies.scoring_events(events) <= events.len(),
    decreases events.len() - n,
{
    if n == events.len() {
        assert(events.take(n) =~= events);
        lemma_scoring_events_bounded(bodies, events);
    } else {
        lemma_scoring_events_prefix(bodies, events, n + 1);
        assert(events.take(n + 1).drop_last() =~= events.take(n));
    }
}

/// No more events score than there are events.
proof fn lemma_scoring_events_bounded(bodies: Bodies, events: Seq<CollisionEvent>)
    ensures
        bodies.scoring_events(events) <= events.len(),
    decreases events.len(),
{
    if events.len() > 0 {
        lemma_scoring_events_bounded(bodies, events.drop_last());
    }
}

/// Tells whether `id` occurs in `ids`.
fn listed(ids: &Vec<u64>, id: u64) -> (found: bool)
    ensures
        found == ids@.contains(id),
{
    let mut i: usize = 0;
    while i < ids.len()
        invariant
            i <= ids.len(),
            forall|j: int| 0 <= j < i ==> ids@[j] != id,
        decreases ids.len() - i,
    {
        if ids[i] == id {
            return true;
        }
        i = i + 1;
    }
    false
}

/// Adds one point to the score for every event of this tick that is the
/// bird entering a score zone, and returns how many there were.
pub fn check_bird_scored(events: &Vec<CollisionEvent>, bodies: &Bodies, data: &mut GameData) -> (scored:
    u16)
    requires
        old(data).score + bodies.scoring_events(events@) <= u16::MAX,
    ensures
        scored == bodies.scoring_events(events@),
        final(data).score == old(data).score + scored,
        final(data).last_pipe_y == old(data).last_pipe_y,
{
    let mut scored: u16 = 0;
    let mut i: usize = 0;
    while i < events.len()
        invariant
            i <= events.len(),
            scored == bodies.scoring_events(events@.take(i as int)),
            data.score == old(data).score + scored,
            data.last_pipe_y == old(data).last_pipe_y,
            old(data).score + bodies.scoring_events(events@) <= u16::MAX,
        decreases events.len() - i,
    {
        proof {
            lemma_scoring_events_prefix(*bodies, events@, i + 1);
            assert(events@.take(i + 1).drop_last() =~= events@.take(i as int));
        }
        match events[i] {
            CollisionEvent::Started(a, b) => {
                if bodies.bird_entered_score_zone(a, b) {
                    data.score = data.score + 1;
                    scored = scored + 1;
                }
            },
            CollisionEvent::Stopped(_, _) => {},
        }
        i = i + 1;
    }
    proof {
        assert(events@.take(events.len() as int) =~= events@);
    }
    scored
}

/// Tells whether the bird crashed in this tick. The ground is looked at
/// first, and the events only when the bird is clear of it.
pub fn check_bird_crashed(bird: &Bird, events: &Vec<CollisionEvent>, bodies: &Bodies) -> (crashed:
    bool)
    ensures
        crashed == bodies.crashed(bird.y as int, events@),
{
    if bird.y <= GROUND_TOP + BIRD_RADIUS {
        return true;
    }
    let mut i: usize = 0;
    while i < events.len()
        invariant
            i <= events.len(),
            forall|j: int| 0 <= j < i ==> !bodies.hits_pipe(#[trigger] events@[j]),
        decreases events.len() - i,
    {
        match events[i] {
            CollisionEvent::Started(a, b) => {
                if bodies.bird_hit_pipe(a, b) {
                    return true;
                }
            },
            CollisionEvent::Stopped(_, _) => {},
        }
        i = i + 1;
    }
    false
}

} // verus!
