//! The session: the game state, the score, the bird and the pipes, and the
//! tick that advances all of them.
//!
//! A tick handles its input in a fixed order. First the taps: a tap in
//! `Ready` starts the flight, a tap in `Lost` starts a new episode once the
//! bird lies on the ground. A transition takes effect at once, so the rest
//! of the tick runs in the state that the taps led to. Then the bird moves.
//! Then, while playing, the pipes scroll, the overlap events are read, each
//! scoring event adds a point, and a crash ends the flight.

use vstd::prelude::*;
use crate::bird::{
    at_rest,
    bird_movement,
    enter_playing,
    exit_playing,
    reset_bird,
    updated,
    with_speed,
    Bird,
    BIRD_CEILING,
    BIRD_JUMP_SPEED,
    BIRD_MAX_TILT,
    BIRD_MIN_TILT,
    BIRD_OFFSET_X,
};
use crate::camera::{CameraShake, LOST_TRAUMA};
use crate::collision::{check_bird_crashed, check_bird_scored, Bodies, CollisionEvent};
use crate::pipes::{
    lemma_reset_in_place,
    lemma_scrolled_in_place,
    pipe_movement,
    pipes_in_place,
    pipes_reset,
    pipes_scrolled,
    reset_pipes,
    settled,
    spawn_pipe,
    GameData,
    PipePair,
    PIPE_COUNT,
};
use crate::state::{
    check_state_transition,
    resets_on_tap,
    starts_on_tap,
    state_after_taps,
    GameState,
};
use crate::{GROUND_TOP, SCREEN_MID};

verus! {

/// Everything a session owns.
#[derive(Clone, Copy, Debug, PartialEq, Eq)]
pub struct Game {
    /// The state of the episode.
    pub state: GameState,
    /// The score and the walk of the gaps.
    pub data: GameData,
    /// The bird.
    pub bird: Bird,
    /// The pool of pipe pairs.
    pub pipes: [PipePair; PIPE_COUNT],
}

/// The input of one tick.
#[derive(Clone, Debug)]
pub struct TickInput {
    /// Microseconds since the last tick.
    pub dt: u32,
    /// Number of taps that arrived; any number above zero is one tap.
    pub taps: usize,
    /// The overlap events of this tick.
    pub events: Vec<CollisionEvent>,
}

/// What happened in one tick, for the layers that react to it.
#[derive(Clone, Copy, Debug, PartialEq, Eq, Structural)]
pub struct TickReport {
    /// The flight started: `Ready` was left for `Playing`.
    pub started: bool,
    /// A new episode started: `Lost` was left for `Ready`.
    pub reset: bool,
    /// Points added to the score.
    pub scored: u16,
    /// The bird crashed: `Playing` was left for `Lost`.
    pub crashed: bool,
}

impl TickInput {
    /// The taps of a tick, coalesced.
    pub open spec fn tapped(self) -> bool {
        self.taps > 0
    }
}

impl Game {
    /// The state in which the tick runs once its taps have been handled.
    pub open spec fn state_in_tick(self, input: TickInput) -> GameState {
        state_after_taps(self.state, input.tapped(), self.bird.y as int)
    }

    /// The taps of the tick start a new episode.
    pub open spec fn resets(self, input: TickInput) -> bool {
        resets_on_tap(self.state, input.tapped(), self.bird.y as int)
    }

    /// The taps of the tick start the flight.
    pub open spec fn starts(self, input: TickInput) -> bool {
        starts_on_tap(self.state, input.tapped())
    }

    /// The bird once the taps have been handled: given its first flap when
    /// the flight starts, put to rest when a new episode starts.
    pub open spec fn bird_after_taps(self, input: TickInput) -> Bird {
        if self.starts(input) {
            with_speed(self.bird, BIRD_JUMP_SPEED)
        } else if self.resets(input) {
            at_rest()
        } else {
            self.bird
        }
    }

    /// The bird once it has moved.
    pub open spec fn bird_moved(self, input: TickInput) -> Bird {
        updated(
            self.bird_after_taps(input),
            input.dt as int,
            input.tapped(),
            self.state_in_tick(input),
        )
    }

    /// The bird crashes in this tick: the game is on and the bird, having
    /// moved, touches the ground or ran into a pipe.
    pub open spec fn crashes(self, input: TickInput, bodies: Bodies) -> bool {
        self.state_in_tick(input) == GameState::Playing && bodies.crashed(
            self.bird_moved(input).y as int,
            input.events@,
        )
    }

    /// Points scored in this tick: one for each scoring event while the
    /// game is on, none otherwise.
    pub open spec fn points(self, input: TickInput, bodies: Bodies) -> nat {
        if self.state_in_tick(input) == GameState::Playing {
            bodies.scoring_events(input.events@)
        } else {
            0
        }
    }

    /// The score to which the points of this tick are added.
    pub open spec fn score_in_tick(self, input: TickInput) -> int {
        if self.resets(input) {
            0
        } else {
            self.data.score as int
        }
    }

    /// The score after this tick fits its type.
    pub open spec fn score_fits(self, input: TickInput, bodies: Bodies) -> bool {
        self.score_in_tick(input) + self.points(input, bodies) <= u16::MAX
    }

    /// What one tick does. State, bird and score are functions of the
    /// input. The pipes are laid out afresh when a new episode starts,
    /// scroll while the game is on, and stand still otherwise; their fresh
    /// gaps are the only part that chance decides.
    pub open spec fn ticked(self, input: TickInput, bodies: Bodies, after: Game) -> bool {
        &&& after.state == if self.crashes(input, bodies) {
            GameState::Lost
        } else {
            self.state_in_tick(input)
        }
        &&& after.bird == if self.crashes(input, bodies) {
            with_speed(self.bird_moved(input), 0)
        } else {
            self.bird_moved(input)
        }
        &&& after.data.score == self.score_in_tick(input) + self.points(input, bodies)
        &&& if self.resets(input) {
            pipes_reset(after.pipes@, after.data.last_pipe_y as int)
        } else if self.state_in_tick(input) == GameState::Playing {
            pipes_scrolled(
                self.pipes@,
                self.data.last_pipe_y as int,
                input.dt as int,
                after.pipes@,
                after.data.last_pipe_y as int,
            )
        } else {
            after.pipes@ == self.pipes@ && after.data.last_pipe_y == self.data.last_pipe_y
        }
    }

    /// What a tick reports.
    pub open spec fn report(self, input: TickInput, bodies: Bodies) -> TickReport {
        TickReport {
            started: self.starts(input),
            reset: self.resets(input),
            scored: self.points(input, bodies) as u16,
            crashed: self.crashes(input, bodies),
        }
    }

    /// The invariant of a session: the bird within its limits and at its
    /// column; every pipe pair between the left bound and the farthest
    /// slot; every gap centre, and the last one generated, on a whole pixel
    /// within the heights that the walk reaches; and in `Ready` the bird at
    /// rest and the score at zero.
    pub open spec fn wf(self) -> bool {
        &&& BIRD_MIN_TILT <= self.bird.angle <= BIRD_MAX_TILT
        &&& GROUND_TOP <= self.bird.y <= BIRD_CEILING
        &&& self.bird.x == BIRD_OFFSET_X
        &&& settled(self.data.last_pipe_y as int)
        &&& pipes_in_place(self.pipes@)
        &&& self.state == GameState::Ready ==> self.bird == at_rest() && self.data.score == 0
    }

    /// Sets up a session: the walk of the gaps starts at the screen
    /// midpoint, the pipes are created off screen, and the first episode is
    /// made ready.
    pub fn new() -> (game: Game)
        ensures
            game.state == GameState::Ready,
            game.data.score == 0,
            game.bird == at_rest(),
            pipes_reset(game.pipes@, game.data.last_pipe_y as int),
            game.wf(),
    {
        let mut data = GameData { score: 0, last_pipe_y: SCREEN_MID };
        let first = spawn_pipe(&mut data, 0);
        let second = spawn_pipe(&mut data, 1);
        let mut game = Game {
            state: GameState::Ready,
            data,
            bird: Bird::new(),
            pipes: [first, second],
        };
        game.enter_ready();
        game
    }

    /// Enters `Ready`: the score returns to zero, the bird to rest, and the
    /// pipes to a fresh layout.
    pub fn enter_ready(&mut self)
        ensures
            final(self).state == GameState::Ready,
            final(self).data.score == 0,
            final(self).bird == at_rest(),
            pipes_reset(final(self).pipes@, final(self).data.last_pipe_y as int),
            final(self).wf(),
    {
        self.state = GameState::Ready;
        reset_bird(&mut self.bird, &mut self.data);
        reset_pipes(&mut self.pipes, &mut self.data);
        proof {
            lemma_reset_in_place(self.pipes@, self.data.last_pipe_y as int);
        }
    }

    /// Advances the session by one tick.
    pub fn tick(&mut self, input: &TickInput, bodies: &Bodies) -> (report: TickReport)
        requires
            old(self).score_fits(*input, *bodies),
        ensures
            old(self).ticked(*input, *bodies, *final(self)),
            report == old(self).report(*input, *bodies),
            old(self).wf() ==> final(self).wf(),
            BIRD_MIN_TILT <= final(self).bird.angle <= BIRD_MAX_TILT,
            GROUND_TOP <= final(self).bird.y <= BIRD_CEILING,
    {
        let tapped = input.taps > 0;
        let mut started = false;
        let mut reset = false;
        match check_state_transition(self.state, tapped, self.bird.y) {
            Some(GameState::Playing) => {
                self.state = GameState::Playing;
                enter_playing(&mut self.bird);
                started = true;
            },
            Some(GameState::Ready) => {
                self.enter_ready();
                reset = true;
            },
            _ => {},
        }
        bird_movement(self.state, tapped, input.dt, &mut self.bird);
        let mut scored: u16 = 0;
        let mut crashed = false;
        if self.state == GameState::Playing {
            let ghost last = self.data.last_pipe_y as int;
            pipe_movement(&mut self.pipes, &mut self.data, input.dt);
            proof {
                if old(self).wf() {
                    lemma_scrolled_in_place(
                        old(self).pipes@,
                        last,
                        input.dt as int,
                        self.pipes@,
                        self.data.last_pipe_y as int,
                    );
                }
            }
            scored = check_bird_scored(&input.events, bodies, &mut self.data);
            crashed = check_bird_crashed(&self.bird, &input.events, bodies);
            if crashed {
                exit_playing(&mut self.bird);
                self.state = GameState::Lost;
            }
        }
        TickReport { started, reset, scored, crashed }
    }
}

/// Entering `Lost` shakes the camera.
pub fn enter_lost(shake: &mut CameraShake)
    ensures
        final(shake).trauma == crate::camera::trauma_added(
            old(shake).trauma as int,
            LOST_TRAUMA as int,
        ),
        final(shake).decay == old(shake).decay,
        final(shake).max_angle == old(shake).max_angle,
        final(shake).max_offset == old(shake).max_offset,
        final(shake).noise_scale == old(shake).noise_scale,
{
    shake.add_trauma(LOST_TRAUMA);
}

/// Within a tick the score never falls unless a new episode starts, it
/// rises by exactly the number of scoring events, and it changes only in a
/// tick that runs in `Playing` or starts a new episode.
pub proof fn lemma_score_monotonic(before: Game, input: TickInput, bodies: Bodies, after: Game)
    requires
        before.ticked(input, bodies, after),
    ensures
        !before.resets(input) ==> after.data.score >= before.data.score,
        !before.resets(input) ==> after.data.score - before.data.score == before.points(
            input,
            bodies,
        ),
        before.resets(input) ==> after.data.score == 0,
        after.data.score != before.data.score ==> before.resets(input) || before.state_in_tick(
            input,
        ) == GameState::Playing,
{
}

/// A run of the game: each state follows from the one before by the tick
/// on the input of the same number.
pub open spec fn is_run(states: Seq<Game>, inputs: Seq<TickInput>, bodies: Bodies) -> bool {
    &&& states.len() == inputs.len() + 1
    &&& forall|k: int|
        0 <= k < inputs.len() ==> (#[trigger] states[k]).ticked(inputs[k], bodies, states[k + 1])
}

/// Over any stretch of a run in which no new episode starts, the score at
/// the end is no lower than at the beginning.
pub proof fn lemma_score_never_decreases(
    states: Seq<Game>,
    inputs: Seq<TickInput>,
    bodies: Bodies,
    i: int,
    j: int,
)
    requires
        is_run(states, inputs, bodies),
        0 <= i <= j < states.len(),
        forall|k: int| i <= k < j ==> !(#[trigger] states[k]).resets(inputs[k]),
    ensures
        states[i].data.score <= states[j].data.score,
    decreases j - i,
{
    if i < j {
        lemma_score_never_decreases(states, inputs, bodies, i, j - 1);
        assert(states[j - 1].ticked(inputs[j - 1], bodies, states[j]));
        assert(!states[j - 1].resets(inputs[j - 1]));
    }
}

/// From `Ready`, a tick without a tap stays in `Ready`, and a tick with a
/// tap, however many, leaves it for `Playing`: the flight is on at the end
/// of the tick unless the bird crashed in that same tick.
pub proof fn lemma_ready_reaches_playing(
    before: Game,
    input: TickInput,
    bodies: Bodies,
    after: Game,
)
    requires
        before.ticked(input, bodies, after),
        before.state == GameState::Ready,
    ensures
        input.taps == 0 ==> after.state == GameState::Ready,
        input.taps > 0 ==> before.state_in_tick(input) == GameState::Playing,
        input.taps > 0 && !before.crashes(input, bodies) ==> after.state == GameState::Playing,
        input.taps > 0 && before.crashes(input, bodies) ==> after.state == GameState::Lost,
        input.taps > 0 ==> before.bird_after_taps(input).speed == BIRD_JUMP_SPEED,
{
}

/// From `Playing`, touching the ground or running into a pipe leads to
/// `Lost` in the same tick and stops the bird; nothing else leaves
/// `Playing`.
pub proof fn lemma_playing_reaches_lost(
    before: Game,
    input: TickInput,
    bodies: Bodies,
    after: Game,
)
    requires
        before.ticked(input, bodies, after),
        before.state == GameState::Playing,
    ensures
        bodies.crashed(before.bird_moved(input).y as int, input.events@) ==> after.state
            == GameState::Lost && after.bird.speed == 0,
        !bodies.crashed(before.bird_moved(input).y as int, input.events@) ==> after.state
            == GameState::Playing,
{
}

/// From `Lost`, a tap leads to `Ready` exactly when the bird has reached
/// the ground; any other tick stays in `Lost`.
pub proof fn lemma_lost_reaches_ready(
    before: Game,
    input: TickInput,
    bodies: Bodies,
    after: Game,
)
    requires
        before.ticked(input, bodies, after),
        before.state == GameState::Lost,
    ensures
        after.state == GameState::Ready <==> input.taps > 0 && before.bird.y <= GROUND_TOP,
        after.state != GameState::Ready ==> after.state == GameState::Lost,
        after.state == GameState::Ready ==> after.bird == at_rest() && after.data.score == 0,
{
}

} // verus!
