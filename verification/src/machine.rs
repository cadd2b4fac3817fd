//! The red hat boy's state machine: one variant per typestate, the events
//! that drive it, and the table of transitions that it follows.

use vstd::prelude::*;

use crate::states::{
    dead_name, fits_i16, idle_name, jump_name, run_name, slide_name, Falling, FallingEndState,
    Idle, Jumping, JumpingEndState, KnockedOut, RedHatBoyContext, RedHatBoyState, Running,
    Sliding, SlidingEndState, FALLING_FRAMES, FLOOR, GRAVITY, HEIGHT, IDLE_FRAMES,
    JUMPING_FRAMES, JUMPING_SPEED, PLAYER_HEIGHT, RUNNING_FRAMES, RUNNING_SPEED, SLIDING_FRAMES,
    TERMINAL_VELOCITY,
};

verus! {

/// What can happen to the boy: a key press, a collision, or a game tick.
/// `Land` carries the height, in whole pixels, on which his feet come to
/// rest.
#[derive(Clone, Copy)]
pub enum Event {
    Jump,
    KnockOut,
    Land(i16),
    Run,
    Slide,
    Update,
}

/// The typestate a state machine is in, as a plain value.
#[derive(Clone, Copy, PartialEq, Eq, Structural, Debug)]
pub enum Phase {
    Falling,
    Idle,
    Jumping,
    KnockedOut,
    Running,
    Sliding,
}

/// The boy in one of his typestates.
#[derive(Clone, Copy)]
pub enum RedHatBoyStateMachine {
    Falling(RedHatBoyState<Falling>),
    Idle(RedHatBoyState<Idle>),
    Jumping(RedHatBoyState<Jumping>),
    KnockedOut(RedHatBoyState<KnockedOut>),
    Running(RedHatBoyState<Running>),
    Sliding(RedHatBoyState<Sliding>),
}

impl View for RedHatBoyStateMachine {
    type V = (Phase, RedHatBoyContext);

    open spec fn view(&self) -> (Phase, RedHatBoyContext) {
        match self {
            RedHatBoyStateMachine::Falling(s) => (Phase::Falling, s.ctx()),
            RedHatBoyStateMachine::Idle(s) => (Phase::Idle, s.ctx()),
            RedHatBoyStateMachine::Jumping(s) => (Phase::Jumping, s.ctx()),
            RedHatBoyStateMachine::KnockedOut(s) => (Phase::KnockedOut, s.ctx()),
            RedHatBoyStateMachine::Running(s) => (Phase::Running, s.ctx()),
            RedHatBoyStateMachine::Sliding(s) => (Phase::Sliding, s.ctx()),
        }
    }
}

/// The name of the animation that shows a phase.
pub open spec fn phase_name(phase: Phase) -> Seq<char> {
    match phase {
        Phase::Falling => dead_name(),
        Phase::Idle => idle_name(),
        Phase::Jumping => jump_name(),
        Phase::KnockedOut => dead_name(),
        Phase::Running => run_name(),
        Phase::Sliding => slide_name(),
    }
}

/// The transition table: the phase and context that `event` leads to from
/// `phase` with context `c`. A pair that the table does not name leaves the
/// boy as he is.
pub open spec fn step(phase: Phase, c: RedHatBoyContext, event: Event) -> (Phase, RedHatBoyContext) {
    match (phase, event) {
        (Phase::Falling, Event::Update) => {
            let next = c.after_update(FALLING_FRAMES);
            if next.frame >= FALLING_FRAMES {
                (Phase::KnockedOut, next)
            } else {
                (Phase::Falling, next)
            }
        },
        (Phase::Idle, Event::Run) => (Phase::Running, c.with_frame_reset().with_run_right()),
        (Phase::Idle, Event::Update) => (Phase::Idle, c.after_update(IDLE_FRAMES)),
        (Phase::Jumping, Event::KnockOut) => (Phase::Falling, c.with_frame_reset().stopped()),
        (Phase::Jumping, Event::Land(p)) => (Phase::Running, c.with_frame_reset().placed_on(p)),
        (Phase::Jumping, Event::Update) => {
            let next = c.after_update(JUMPING_FRAMES);
            if next.position.y >= FLOOR {
                (Phase::Running, next.with_frame_reset().placed_on(HEIGHT))
            } else {
                (Phase::Jumping, next)
            }
        },
        (Phase::Running, Event::Jump) => (
            Phase::Jumping,
            c.with_vertical_velocity(JUMPING_SPEED).with_frame_reset(),
        ),
        (Phase::Running, Event::Land(p)) => (Phase::Running, c.placed_on(p)),
        (Phase::Running, Event::KnockOut) => (Phase::Falling, c.with_frame_reset().stopped()),
        (Phase::Running, Event::Slide) => (Phase::Sliding, c.with_frame_reset()),
        (Phase::Running, Event::Update) => (Phase::Running, c.after_update(RUNNING_FRAMES)),
        (Phase::Sliding, Event::KnockOut) => (Phase::Falling, c.with_frame_reset().stopped()),
        (Phase::Sliding, Event::Land(p)) => (Phase::Sliding, c.placed_on(p)),
        (Phase::Sliding, Event::Update) => {
            let next = c.after_update(SLIDING_FRAMES);
            if next.frame >= SLIDING_FRAMES {
                (Phase::Running, next.with_frame_reset())
            } else {
                (Phase::Sliding, next)
            }
        },
        _ => (phase, c),
    }
}

/// Whether `event` can be applied in `phase` with context `c` without an
/// `i16` overflow: starting to run adds to the horizontal speed, landing
/// subtracts the boy's height, and an update moves him vertically.
pub open spec fn step_defined(phase: Phase, c: RedHatBoyContext, event: Event) -> bool {
    match (phase, event) {
        (Phase::Idle, Event::Run) => c.velocity.x + RUNNING_SPEED <= i16::MAX,
        (Phase::Jumping, Event::Land(p)) => fits_i16(p - PLAYER_HEIGHT),
        (Phase::Running, Event::Land(p)) => fits_i16(p - PLAYER_HEIGHT),
        (Phase::Sliding, Event::Land(p)) => fits_i16(p - PLAYER_HEIGHT),
        (Phase::KnockedOut, _) => true,
        (_, Event::Update) => c.can_update(),
        _ => true,
    }
}

impl RedHatBoyStateMachine {
    /// The context of the current state.
    pub fn context(&self) -> (c: &RedHatBoyContext)
        ensures
            *c == self@.1,
    {
        match self {
            RedHatBoyStateMachine::Falling(state) => state.context(),
            RedHatBoyStateMachine::Idle(state) => state.context(),
            RedHatBoyStateMachine::Jumping(state) => state.context(),
            RedHatBoyStateMachine::KnockedOut(state) => state.context(),
            RedHatBoyStateMachine::Running(state) => state.context(),
            RedHatBoyStateMachine::Sliding(state) => state.context(),
        }
    }

    /// The name of the animation of the current state.
    pub fn frame_name(&self) -> (name: &str)
        ensures
            name@ == phase_name(self@.0),
    {
        match self {
            RedHatBoyStateMachine::Falling(state) => state.frame_name(),
            RedHatBoyStateMachine::Idle(state) => state.frame_name(),
            RedHatBoyStateMachine::Jumping(state) => state.frame_name(),
            RedHatBoyStateMachine::KnockedOut(state) => state.frame_name(),
            RedHatBoyStateMachine::Running(state) => state.frame_name(),
            RedHatBoyStateMachine::Sliding(state) => state.frame_name(),
        }
    }

    /// Applies `event` to the boy, as the transition table says.
    pub fn transition(self, event: Event) -> (next: Self)
        requires
            step_defined(self@.0, self@.1, event),
        ensures
            next@ == step(self@.0, self@.1, event),
    {
        match (self, event) {
            (RedHatBoyStateMachine::Falling(state), Event::Update) => state.update().into(),
            (RedHatBoyStateMachine::Idle(state), Event::Run) => state.run().into(),
            (RedHatBoyStateMachine::Idle(state), Event::Update) => state.update().into(),
            (RedHatBoyStateMachine::Jumping(state), Event::KnockOut) => state.knock_out().into(),
            (RedHatBoyStateMachine::Jumping(state), Event::Land(position)) => {
                state.land_on(position).into()
            },
            (RedHatBoyStateMachine::Jumping(state), Event::Update) => state.update().into(),
            (RedHatBoyStateMachine::Running(state), Event::Jump) => state.jump().into(),
            (RedHatBoyStateMachine::Running(state), Event::Land(position)) => {
                state.land_on(position).into()
            },
            (RedHatBoyStateMachine::Running(state), Event::KnockOut) => state.knock_out().into(),
            (RedHatBoyStateMachine::Running(state), Event::Slide) => state.slide().into(),
            (RedHatBoyStateMachine::Running(state), Event::Update) => state.update().into(),
            (RedHatBoyStateMachine::Sliding(state), Event::KnockOut) => state.knock_out().into(),
            (RedHatBoyStateMachine::Sliding(state), Event::Land(position)) => {
                state.land_on(position).into()
            },
            (RedHatBoyStateMachine::Sliding(state), Event::Update) => state.update().into(),
            _ => self,
        }
    }

    /// Whether `event` can be applied now without an `i16` overflow.
    pub fn accepts(&self, event: Event) -> (ok: bool)
        ensures
            ok == step_defined(self@.0, self@.1, event),
    {
        let c = self.context();
        let next_vy: i32 = if c.velocity.y < TERMINAL_VELOCITY {
            c.velocity.y as i32 + GRAVITY as i32
        } else {
            c.velocity.y as i32
        };
        let moved: i32 = c.position.y as i32 + next_vy;
        let can_update = i16::MIN as i32 <= moved && moved <= i16::MAX as i32;
        match (self, event) {
            (RedHatBoyStateMachine::Idle(_), Event::Run) => {
                c.velocity.x as i32 + RUNNING_SPEED as i32 <= i16::MAX as i32
            },
            (RedHatBoyStateMachine::Jumping(_), Event::Land(p))
            | (RedHatBoyStateMachine::Running(_), Event::Land(p))
            | (RedHatBoyStateMachine::Sliding(_), Event::Land(p)) => {
                i16::MIN as i32 <= p as i32 - PLAYER_HEIGHT as i32
            },
            (RedHatBoyStateMachine::KnockedOut(_), _) => true,
            (_, Event::Update) => can_update,
            _ => true,
        }
    }

    /// One game tick.
    pub fn update(self) -> (next: Self)
        requires
            step_defined(self@.0, self@.1, Event::Update),
        ensures
            next@ == step(self@.0, self@.1, Event::Update),
    {
        self.transition(Event::Update)
    }
}

impl From<FallingEndState> for RedHatBoyStateMachine {
    fn from(end_state: FallingEndState) -> (m: Self) {
        match end_state {
            FallingEndState::Falling(falling_state) => falling_state.into(),
            FallingEndState::KnockedOut(knockedout_state) => knockedout_state.into(),
        }
    }
}

impl vstd::std_specs::convert::FromSpecImpl<FallingEndState> for RedHatBoyStateMachine {
    open spec fn obeys_from_spec() -> bool {
        true
    }

    open spec fn from_spec(end_state: FallingEndState) -> Self {
        match end_state {
            FallingEndState::Falling(s) => RedHatBoyStateMachine::Falling(s),
            FallingEndState::KnockedOut(s) => RedHatBoyStateMachine::KnockedOut(s),
        }
    }
}

impl From<JumpingEndState> for RedHatBoyStateMachine {
    fn from(end_state: JumpingEndState) -> (m: Self) {
        match end_state {
            JumpingEndState::Complete(running_state) => running_state.into(),
            JumpingEndState::Jumping(jumping_state) => jumping_state.into(),
        }
    }
}

impl vstd::std_specs::convert::FromSpecImpl<JumpingEndState> for RedHatBoyStateMachine {
    open spec fn obeys_from_spec() -> bool {
        true
    }

    open spec fn from_spec(end_state: JumpingEndState) -> Self {
        match end_state {
            JumpingEndState::Complete(s) => RedHatBoyStateMachine::Running(s),
            JumpingEndState::Jumping(s) => RedHatBoyStateMachine::Jumping(s),
        }
    }
}

impl From<RedHatBoyState<Falling>> for RedHatBoyStateMachine {
    fn from(state: RedHatBoyState<Falling>) -> (m: Self) {
        RedHatBoyStateMachine::Falling(state)
    }
}

impl vstd::std_specs::convert::FromSpecImpl<RedHatBoyState<Falling>> for RedHatBoyStateMachine {
    open spec fn obeys_from_spec() -> bool {
        true
    }

    open spec fn from_spec(state: RedHatBoyState<Falling>) -> Self {
        RedHatBoyStateMachine::Falling(state)
    }
}

impl From<RedHatBoyState<Idle>> for RedHatBoyStateMachine {
    fn from(state: RedHatBoyState<Idle>) -> (m: Self) {
        RedHatBoyStateMachine::Idle(state)
    }
}

impl vstd::std_specs::convert::FromSpecImpl<RedHatBoyState<Idle>> for RedHatBoyStateMachine {
    open spec fn obeys_from_spec() -> bool {
        true
    }

    open spec fn from_spec(state: RedHatBoyState<Idle>) -> Self {
        RedHatBoyStateMachine::Idle(state)
    }
}

impl From<RedHatBoyState<Jumping>> for RedHatBoyStateMachine {
    fn from(state: RedHatBoyState<Jumping>) -> (m: Self) {
        RedHatBoyStateMachine::Jumping(state)
    }
}

impl vstd::std_specs::convert::FromSpecImpl<RedHatBoyState<Jumping>> for RedHatBoyStateMachine {
    open spec fn obeys_from_spec() -> bool {
        true
    }

    open spec fn from_spec(state: RedHatBoyState<Jumping>) -> Self {
        RedHatBoyStateMachine::Jumping(state)
    }
}

impl From<RedHatBoyState<KnockedOut>> for RedHatBoyStateMachine {
    fn from(state: RedHatBoyState<KnockedOut>) -> (m: Self) {
        RedHatBoyStateMachine::KnockedOut(state)
    }
}

impl vstd::std_specs::convert::FromSpecImpl<RedHatBoyState<KnockedOut>> for RedHatBoyStateMachine {
    open spec fn obeys_from_spec() -> bool {
        true
    }

    open spec fn from_spec(state: RedHatBoyState<KnockedOut>) -> Self {
        RedHatBoyStateMachine::KnockedOut(state)
    }
}

impl From<RedHatBoyState<Running>> for RedHatBoyStateMachine {
    fn from(state: RedHatBoyState<Running>) -> (m: Self) {
        RedHatBoyStateMachine::Running(state)
    }
}

impl vstd::std_specs::convert::FromSpecImpl<RedHatBoyState<Running>> for RedHatBoyStateMachine {
    open spec fn obeys_from_spec() -> bool {
        true
    }

    open spec fn from_spec(state: RedHatBoyState<Running>) -> Self {
        RedHatBoyStateMachine::Running(state)
    }
}

impl From<RedHatBoyState<Sliding>> for RedHatBoyStateMachine {
    fn from(state: RedHatBoyState<Sliding>) -> (m: Self) {
        RedHatBoyStateMachine::Sliding(state)
    }
}

impl vstd::std_specs::convert::FromSpecImpl<RedHatBoyState<Sliding>> for RedHatBoyStateMachine {
    open spec fn obeys_from_spec() -> bool {
        true
    }

    open spec fn from_spec(state: RedHatBoyState<Sliding>) -> Self {
        RedHatBoyStateMachine::Sliding(state)
    }
}

impl From<SlidingEndState> for RedHatBoyStateMachine {
    fn from(end_state: SlidingEndState) -> (m: Self) {
        match end_state {
            SlidingEndState::Complete(running_state) => running_state.into(),
            SlidingEndState::Sliding(sliding_state) => sliding_state.into(),
        }
    }
}

impl vstd::std_specs::convert::FromSpecImpl<SlidingEndState> for RedHatBoyStateMachine {
    open spec fn obeys_from_spec() -> bool {
        true
    }

    open spec fn from_spec(end_state: SlidingEndState) -> Self {
        match end_state {
            SlidingEndState::Complete(s) => RedHatBoyStateMachine::Running(s),
            SlidingEndState::Sliding(s) => RedHatBoyStateMachine::Sliding(s),
        }
    }
}

} // verus!
