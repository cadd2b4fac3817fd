//! The typestates of the red hat boy: one marker type per animation, the
//! context (frame, position, velocity) that every state carries, and the
//! moves that lead from one typestate to the next.

use vstd::prelude::*;

use crate::geometry::Point;

verus! {

/// The height of the playing field; a jump ends with the boy's feet on it.
pub const HEIGHT: i16 = 600;
/// The last frame of the falling animation.
pub const FALLING_FRAMES: u8 = 29;
/// The y coordinate of the boy's top while he stands on the ground.
pub const FLOOR: i16 = 479;
/// What one update adds to the vertical velocity.
pub const GRAVITY: i16 = 1;
/// The last frame of the idle animation.
pub const IDLE_FRAMES: u8 = 29;
/// The last frame of the jumping animation.
pub const JUMPING_FRAMES: u8 = 35;
/// The vertical velocity with which a jump starts (upwards is negative).
pub const JUMPING_SPEED: i16 = -25;
/// The boy's height: the distance between his top and his feet.
pub const PLAYER_HEIGHT: i16 = HEIGHT - FLOOR;
/// The last frame of the running animation.
pub const RUNNING_FRAMES: u8 = 23;
/// What starting to run adds to the horizontal velocity.
pub const RUNNING_SPEED: i16 = 4;
/// The last frame of the sliding animation.
pub const SLIDING_FRAMES: u8 = 14;
/// The x coordinate at which the boy starts.
pub const STARTING_POINT: i16 = -20;
/// Gravity stops speeding the boy up once his vertical velocity reaches this.
pub const TERMINAL_VELOCITY: i16 = 20;

/// Whether an integer can be held in an `i16`.
pub open spec fn fits_i16(v: int) -> bool {
    i16::MIN <= v <= i16::MAX
}

/// The vertical velocity after one update: gravity pulls until the terminal
/// velocity is reached.
pub open spec fn velocity_after_update(vy: i16) -> int {
    if vy < TERMINAL_VELOCITY {
        vy + GRAVITY
    } else {
        vy as int
    }
}

/// The animation frame after one update: the next one, or back to the first
/// once `frame_count` is reached.
pub open spec fn frame_after_update(frame: u8, frame_count: u8) -> int {
    if frame < frame_count {
        frame + 1
    } else {
        0
    }
}

/// The smaller of two integers.
pub open spec fn min_int(a: int, b: int) -> int {
    if a <= b {
        a
    } else {
        b
    }
}

/// The context of the boy as the game starts: idle at the starting point,
/// on the floor, not moving, at the first frame.
pub open spec fn initial_context() -> RedHatBoyContext {
    RedHatBoyContext {
        frame: 0,
        position: Point { x: STARTING_POINT, y: FLOOR },
        velocity: Point { x: 0, y: 0 },
    }
}

/// The boy falls.
#[derive(Clone, Copy)]
pub struct Falling;

/// How a falling boy's update ends: still falling, or knocked out once the
/// animation has run through.
#[derive(Clone, Copy)]
pub enum FallingEndState {
    Falling(RedHatBoyState<Falling>),
    KnockedOut(RedHatBoyState<KnockedOut>),
}

/// The boy stands still.
#[derive(Clone, Copy)]
pub struct Idle;

/// What every state of the boy carries: the animation frame, where he is
/// and how fast he moves.
#[derive(Clone, Copy)]
pub struct RedHatBoyContext {
    pub frame: u8,
    pub position: Point,
    pub velocity: Point,
}

impl RedHatBoyContext {
    /// The context with its animation frame set back to the first one.
    pub open spec fn with_frame_reset(self) -> RedHatBoyContext {
        RedHatBoyContext { frame: 0, ..self }
    }

    /// The context once the boy has started to run to the right.
    pub open spec fn with_run_right(self) -> RedHatBoyContext {
        RedHatBoyContext {
            velocity: Point { x: (self.velocity.x + RUNNING_SPEED) as i16, ..self.velocity },
            ..self
        }
    }

    /// The context with the boy's feet put on the height `position`.
    pub open spec fn placed_on(self, position: i16) -> RedHatBoyContext {
        RedHatBoyContext {
            position: Point { y: (position - PLAYER_HEIGHT) as i16, ..self.position },
            ..self
        }
    }

    /// The context with the vertical velocity set to `y`.
    pub open spec fn with_vertical_velocity(self, y: i16) -> RedHatBoyContext {
        RedHatBoyContext { velocity: Point { y, ..self.velocity }, ..self }
    }

    /// The context with the boy brought to a standstill.
    pub open spec fn stopped(self) -> RedHatBoyContext {
        RedHatBoyContext { velocity: Point { x: 0, y: 0 }, ..self }
    }

    /// Whether an update can move the boy without leaving the `i16` range.
    pub open spec fn can_update(self) -> bool {
        fits_i16(self.position.y + velocity_after_update(self.velocity.y))
    }

    /// The context after one update of an animation whose last frame is
    /// `frame_count`: gravity, the next frame, the vertical move, and the
    /// floor that stops the boy.
    pub open spec fn after_update(self, frame_count: u8) -> RedHatBoyContext {
        RedHatBoyContext {
            frame: frame_after_update(self.frame, frame_count) as u8,
            position: Point {
                x: self.position.x,
                y: min_int(
                    self.position.y + velocity_after_update(self.velocity.y),
                    FLOOR as int,
                ) as i16,
            },
            velocity: Point { x: self.velocity.x, y: velocity_after_update(self.velocity.y) as i16 },
        }
    }

    fn reset_frame(self) -> (c: Self)
        ensures
            c == self.with_frame_reset(),
    {
        let mut next = self;
        next.frame = 0;
        next
    }

    fn run_right(self) -> (c: Self)
        requires
            self.velocity.x + RUNNING_SPEED <= i16::MAX,
        ensures
            c == self.with_run_right(),
    {
        let mut next = self;
        next.velocity.x = next.velocity.x + RUNNING_SPEED;
        next
    }

    fn set_on(self, position: i16) -> (c: Self)
        requires
            fits_i16(position - PLAYER_HEIGHT),
        ensures
            c == self.placed_on(position),
    {
        let position = position - PLAYER_HEIGHT;
        let mut next = self;
        next.position.y = position;
        next
    }

    fn set_vertical_velocity(self, y: i16) -> (c: Self)
        ensures
            c == self.with_vertical_velocity(y),
    {
        let mut next = self;
        next.velocity.y = y;
        next
    }

    fn stop(self) -> (c: Self)
        ensures
            c == self.stopped(),
    {
        let mut next = self;
        next.velocity.x = 0;
        next.velocity.y = 0;
        next
    }

    /// Advances the context by one game tick for an animation whose last
    /// frame is `frame_count`.
    pub fn update(self, frame_count: u8) -> (c: Self)
        requires
            self.can_update(),
        ensures
            c == self.after_update(frame_count),
            c.frame <= frame_count,
            c.position.y <= FLOOR,
    {
        let mut next = self;
        if next.velocity.y < TERMINAL_VELOCITY {
            next.velocity.y = next.velocity.y + GRAVITY;
        }
        if next.frame < frame_count {
            next.frame = next.frame + 1;
        } else {
            next.frame = 0;
        }
        next.position.y = next.position.y + next.velocity.y;
        if next.position.y > FLOOR {
            next.position.y = FLOOR;
        }
        next
    }
}

/// The boy in the typestate `S`, with his context.
#[derive(Clone, Copy)]
pub struct RedHatBoyState<S> {
    context: RedHatBoyContext,
    _state: S,
}

impl<S> RedHatBoyState<S> {
    /// The context that this state carries.
    pub closed spec fn ctx(self) -> RedHatBoyContext {
        self.context
    }

    pub fn context(&self) -> (c: &RedHatBoyContext)
        ensures
            *c == self.ctx(),
    {
        &self.context
    }
}

/// The characters of the frame name of the falling and knocked-out
/// animations.
pub open spec fn dead_name() -> Seq<char> {
    seq!['D', 'e', 'a', 'd']
}

/// The characters of the frame name of the idle animation.
pub open spec fn idle_name() -> Seq<char> {
    seq!['I', 'd', 'l', 'e']
}

/// The characters of the frame name of the jumping animation.
pub open spec fn jump_name() -> Seq<char> {
    seq!['J', 'u', 'm', 'p']
}

/// The characters of the frame name of the running animation.
pub open spec fn run_name() -> Seq<char> {
    seq!['R', 'u', 'n']
}

/// The characters of the frame name of the sliding animation.
pub open spec fn slide_name() -> Seq<char> {
    seq!['S', 'l', 'i', 'd', 'e']
}

impl RedHatBoyState<Falling> {
    pub fn frame_name(&self) -> (name: &str)
        ensures
            name@ == dead_name(),
    {
        proof {
            reveal_strlit("Dead");
        }
        "Dead"
    }

    /// The fall is over: the boy lies knocked out, where he fell.
    pub fn knock_out(self) -> (s: RedHatBoyState<KnockedOut>)
        ensures
            s.ctx() == self.ctx(),
    {
        RedHatBoyState { context: self.context, _state: KnockedOut {} }
    }

    /// One tick of the fall; once the falling animation has run through, the
    /// boy is knocked out.
    pub fn update(self) -> (end: FallingEndState)
        requires
            self.ctx().can_update(),
        ensures
            ({
                let c = self.ctx().after_update(FALLING_FRAMES);
                match end {
                    FallingEndState::KnockedOut(s) => c.frame >= FALLING_FRAMES && s.ctx() == c,
                    FallingEndState::Falling(s) => c.frame < FALLING_FRAMES && s.ctx() == c,
                }
            }),
    {
        let mut state = self;
        state.context = state.context.update(FALLING_FRAMES);
        if state.context.frame >= FALLING_FRAMES {
            FallingEndState::KnockedOut(state.knock_out())
        } else {
            FallingEndState::Falling(state)
        }
    }
}

impl RedHatBoyState<Idle> {
    pub fn frame_name(&self) -> (name: &str)
        ensures
            name@ == idle_name(),
    {
        proof {
            reveal_strlit("Idle");
        }
        "Idle"
    }

    /// The boy as the game starts.
    pub fn new() -> (s: Self)
        ensures
            s.ctx() == initial_context(),
    {
        RedHatBoyState {
            context: RedHatBoyContext {
                frame: 0,
                position: Point { x: STARTING_POINT, y: FLOOR },
                velocity: Point { x: 0, y: 0 },
            },
            _state: Idle {},
        }
    }

    /// The boy starts to run.
    pub fn run(self) -> (s: RedHatBoyState<Running>)
        requires
            self.ctx().velocity.x + RUNNING_SPEED <= i16::MAX,
        ensures
            s.ctx() == self.ctx().with_frame_reset().with_run_right(),
    {
        RedHatBoyState { context: self.context.reset_frame().run_right(), _state: Running {} }
    }

    pub fn update(self) -> (s: Self)
        requires
            self.ctx().can_update(),
        ensures
            s.ctx() == self.ctx().after_update(IDLE_FRAMES),
    {
        let mut state = self;
        state.context = state.context.update(IDLE_FRAMES);
        state
    }
}

impl RedHatBoyState<Jumping> {
    pub fn frame_name(&self) -> (name: &str)
        ensures
            name@ == jump_name(),
    {
        proof {
            reveal_strlit("Jump");
        }
        "Jump"
    }

    /// The boy is hit in mid-air: he stops and starts to fall.
    pub fn knock_out(self) -> (s: RedHatBoyState<Falling>)
        ensures
            s.ctx() == self.ctx().with_frame_reset().stopped(),
    {
        RedHatBoyState { context: self.context.reset_frame().stop(), _state: Falling {} }
    }

    /// The boy lands with his feet on the height `position` and runs on.
    pub fn land_on(self, position: i16) -> (s: RedHatBoyState<Running>)
        requires
            fits_i16(position - PLAYER_HEIGHT),
        ensures
            s.ctx() == self.ctx().with_frame_reset().placed_on(position),
    {
        RedHatBoyState { context: self.context.reset_frame().set_on(position), _state: Running {} }
    }

    /// One tick of the jump; once the boy is back on the floor, he runs on.
    pub fn update(self) -> (end: JumpingEndState)
        requires
            self.ctx().can_update(),
        ensures
            ({
                let c = self.ctx().after_update(JUMPING_FRAMES);
                match end {
                    JumpingEndState::Complete(s) => c.position.y >= FLOOR && s.ctx()
                        == c.with_frame_reset().placed_on(HEIGHT),
                    JumpingEndState::Jumping(s) => c.position.y < FLOOR && s.ctx() == c,
                }
            }),
    {
        let mut state = self;
        state.context = state.context.update(JUMPING_FRAMES);
        if state.context.position.y >= FLOOR {
            JumpingEndState::Complete(state.land_on(HEIGHT))
        } else {
            JumpingEndState::Jumping(state)
        }
    }
}

impl RedHatBoyState<KnockedOut> {
    pub fn frame_name(&self) -> (name: &str)
        ensures
            name@ == dead_name(),
    {
        proof {
            reveal_strlit("Dead");
        }
        "Dead"
    }
}

impl RedHatBoyState<Running> {
    pub fn frame_name(&self) -> (name: &str)
        ensures
            name@ == run_name(),
    {
        proof {
            reveal_strlit("Run");
        }
        "Run"
    }

    /// The boy jumps: upwards at the jumping speed, from the first frame.
    pub fn jump(self) -> (s: RedHatBoyState<Jumping>)
        ensures
            s.ctx() == self.ctx().with_vertical_velocity(JUMPING_SPEED).with_frame_reset(),
    {
        RedHatBoyState {
            context: self.context.set_vertical_velocity(JUMPING_SPEED).reset_frame(),
            _state: Jumping {},
        }
    }

    /// The boy runs into something: he stops and starts to fall.
    pub fn knock_out(self) -> (s: RedHatBoyState<Falling>)
        ensures
            s.ctx() == self.ctx().with_frame_reset().stopped(),
    {
        RedHatBoyState { context: self.context.reset_frame().stop(), _state: Falling {} }
    }

    /// The boy is put on the height `position` and runs on.
    pub fn land_on(self, position: i16) -> (s: RedHatBoyState<Running>)
        requires
            fits_i16(position - PLAYER_HEIGHT),
        ensures
            s.ctx() == self.ctx().placed_on(position),
    {
        RedHatBoyState { context: self.context.set_on(position), _state: Running {} }
    }

    /// The boy starts to slide.
    pub fn slide(self) -> (s: RedHatBoyState<Sliding>)
        ensures
            s.ctx() == self.ctx().with_frame_reset(),
    {
        RedHatBoyState { context: self.context.reset_frame(), _state: Sliding {} }
    }

    pub fn update(self) -> (s: Self)
        requires
            self.ctx().can_update(),
        ensures
            s.ctx() == self.ctx().after_update(RUNNING_FRAMES),
    {
        let mut state = self;
        state.context = state.context.update(RUNNING_FRAMES);
        state
    }
}

impl RedHatBoyState<Sliding> {
    pub fn frame_name(&self) -> (name: &str)
        ensures
            name@ == slide_name(),
    {
        proof {
            reveal_strlit("Slide");
        }
        "Slide"
    }

    /// The boy slides into something: he stops and starts to fall.
    pub fn knock_out(self) -> (s: RedHatBoyState<Falling>)
        ensures
            s.ctx() == self.ctx().with_frame_reset().stopped(),
    {
        RedHatBoyState { context: self.context.reset_frame().stop(), _state: Falling {} }
    }

    /// The boy is put on the height `position` and slides on.
    pub fn land_on(self, position: i16) -> (s: RedHatBoyState<Sliding>)
        requires
            fits_i16(position - PLAYER_HEIGHT),
        ensures
            s.ctx() == self.ctx().placed_on(position),
    {
        RedHatBoyState { context: self.context.set_on(position), _state: Sliding {} }
    }

    /// The slide is over: the boy stands up and runs on.
    pub fn stand(self) -> (s: RedHatBoyState<Running>)
        ensures
            s.ctx() == self.ctx().with_frame_reset(),
    {
        RedHatBoyState { context: self.context.reset_frame(), _state: Running }
    }

    /// One tick of the slide; once the sliding animation has run through, the
    /// boy stands up.
    pub fn update(self) -> (end: SlidingEndState)
        requires
            self.ctx().can_update(),
        ensures
            ({
                let c = self.ctx().after_update(SLIDING_FRAMES);
                match end {
                    SlidingEndState::Complete(s) => c.frame >= SLIDING_FRAMES && s.ctx()
                        == c.with_frame_reset(),
                    SlidingEndState::Sliding(s) => c.frame < SLIDING_FRAMES && s.ctx() == c,
                }
            }),
    {
        let mut state = self;
        state.context = state.context.update(SLIDING_FRAMES);
        if state.context.frame >= SLIDING_FRAMES {
            SlidingEndState::Complete(state.stand())
        } else {
            SlidingEndState::Sliding(state)
        }
    }
}

/// The boy jumps.
#[derive(Clone, Copy)]
pub struct Jumping;

/// How a jumping boy's update ends: back on the floor and running, or still
/// in the air.
#[derive(Clone, Copy)]
pub enum JumpingEndState {
    Complete(RedHatBoyState<Running>),
    Jumping(RedHatBoyState<Jumping>),
}

/// The boy lies knocked out.
#[derive(Clone, Copy)]
pub struct KnockedOut;

/// The boy runs.
#[derive(Clone, Copy)]
pub struct Running;

/// The boy slides.
#[derive(Clone, Copy)]
pub struct Sliding;

/// How a sliding boy's update ends: standing up and running again, or still
/// sliding.
#[derive(Clone, Copy)]
pub enum SlidingEndState {
    Complete(RedHatBoyState<Running>),
    Sliding(RedHatBoyState<Sliding>),
}

} // verus!
