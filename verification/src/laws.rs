//! What holds of the red hat boy's state machine beyond each single
//! transition: the states he can reach stay consistent, the knocked-out
//! state is final, falls, slides and jumps run their course, and a game that
//! lands him within reach never overflows.

use vstd::prelude::*;

use crate::machine::{step, step_defined, Event, Phase};
use crate::states::{
    initial_context, velocity_after_update, RedHatBoyContext, FALLING_FRAMES, FLOOR,
    IDLE_FRAMES, JUMPING_FRAMES, JUMPING_SPEED, PLAYER_HEIGHT, RUNNING_FRAMES, RUNNING_SPEED,
    SLIDING_FRAMES, TERMINAL_VELOCITY,
};

verus! {

/// What holds of every state that the boy can reach from the start: his
/// vertical speed lies between the jumping speed and the terminal velocity,
/// he either stands or runs at the running speed (and stands while idle), and
/// his animation frame lies within the animation of his phase; a knocked-out
/// boy shows the last frame of the fall.
pub open spec fn consistent(phase: Phase, c: RedHatBoyContext) -> bool {
    &&& JUMPING_SPEED <= c.velocity.y <= TERMINAL_VELOCITY
    &&& (c.velocity.x == 0 || c.velocity.x == RUNNING_SPEED)
    &&& (phase == Phase::Idle ==> c.velocity.x == 0)
    &&& match phase {
        Phase::Falling => c.frame < FALLING_FRAMES,
        Phase::Idle => c.frame <= IDLE_FRAMES,
        Phase::Jumping => c.frame <= JUMPING_FRAMES,
        Phase::KnockedOut => c.frame == FALLING_FRAMES,
        Phase::Running => c.frame <= RUNNING_FRAMES,
        Phase::Sliding => c.frame < SLIDING_FRAMES,
    }
}

/// The phase and context after `n` game ticks.
pub open spec fn after_updates(phase: Phase, c: RedHatBoyContext, n: nat) -> (
    Phase,
    RedHatBoyContext,
)
    decreases n,
{
    if n == 0 {
        (phase, c)
    } else {
        let next = step(phase, c, Event::Update);
        after_updates(next.0, next.1, (n - 1) as nat)
    }
}

/// Whether `n` game ticks in a row can be applied without an overflow.
pub open spec fn updates_defined(phase: Phase, c: RedHatBoyContext, n: nat) -> bool
    decreases n,
{
    n == 0 || (step_defined(phase, c, Event::Update) && {
        let next = step(phase, c, Event::Update);
        updates_defined(next.0, next.1, (n - 1) as nat)
    })
}

/// The boy starts in a consistent state.
pub proof fn lemma_initial_consistent()
    ensures
        consistent(Phase::Idle, initial_context()),
{
}

/// The boy starts at the first frame, 20 pixels left of the screen, with
/// his feet at the bottom of the 600-pixel field (his top at 479), standing
/// still.
pub proof fn lemma_start_position()
    ensures
        initial_context().frame == 0,
        initial_context().position.x == -20,
        initial_context().position.y + PLAYER_HEIGHT == 600,
        initial_context().position.y == 479,
        initial_context().velocity.x == 0,
        initial_context().velocity.y == 0,
{
}

/// Every transition keeps the boy consistent.
pub proof fn lemma_step_keeps_consistent(phase: Phase, c: RedHatBoyContext, event: Event)
    requires
        consistent(phase, c),
        step_defined(phase, c, event),
    ensures
        consistent(step(phase, c, event).0, step(phase, c, event).1),
{
}

/// A knocked-out boy stays knocked out, and nothing about him changes,
/// whatever happens.
pub proof fn lemma_knocked_out_is_final(c: RedHatBoyContext, event: Event)
    ensures
        step_defined(Phase::KnockedOut, c, event),
        step(Phase::KnockedOut, c, event) == (Phase::KnockedOut, c),
{
}

/// Starting to run is something only an idle boy does: an idle boy runs at
/// the running speed from the first frame of his animation, where he stood;
/// in every other phase the run key changes nothing.
pub proof fn lemma_only_an_idle_boy_starts_to_run(phase: Phase, c: RedHatBoyContext)
    requires
        step_defined(phase, c, Event::Run),
    ensures
        phase != Phase::Idle ==> step(phase, c, Event::Run) == (phase, c),
        phase == Phase::Idle ==> {
            let next = step(phase, c, Event::Run);
            &&& next.0 == Phase::Running
            &&& next.1.frame == 0
            &&& next.1.position == c.position
            &&& next.1.velocity.x == c.velocity.x + RUNNING_SPEED
            &&& next.1.velocity.y == c.velocity.y
        },
{
}

/// Sliding is something only a running boy starts: he slides from the first
/// frame, where he was and as fast as he was; in every other phase (a boy
/// who already slides among them) the slide key changes nothing.
pub proof fn lemma_only_a_running_boy_starts_to_slide(phase: Phase, c: RedHatBoyContext)
    ensures
        phase != Phase::Running ==> step(phase, c, Event::Slide) == (phase, c),
        phase == Phase::Running ==> {
            let next = step(phase, c, Event::Slide);
            &&& next.0 == Phase::Sliding
            &&& next.1.frame == 0
            &&& next.1.position == c.position
            &&& next.1.velocity == c.velocity
        },
{
}

/// Jumping is something only a running boy starts: he leaves the ground
/// upwards at the jumping speed, from the first frame, where he was and as
/// fast forwards as he was; in every other phase (a boy who already jumps
/// among them) the jump key changes nothing.
pub proof fn lemma_only_a_running_boy_jumps(phase: Phase, c: RedHatBoyContext)
    ensures
        phase != Phase::Running ==> step(phase, c, Event::Jump) == (phase, c),
        phase == Phase::Running ==> {
            let next = step(phase, c, Event::Jump);
            &&& next.0 == Phase::Jumping
            &&& next.1.frame == 0
            &&& next.1.position == c.position
            &&& next.1.velocity.x == c.velocity.x
            &&& next.1.velocity.y == JUMPING_SPEED
        },
{
}

/// A knock-out stops a moving boy where he is: a running, jumping or sliding
/// boy starts to fall from the first frame, at the same position, with no
/// speed at all; an idle, falling or knocked-out boy is not changed.
pub proof fn lemma_knock_out_stops_the_boy_where_he_is(phase: Phase, c: RedHatBoyContext)
    ensures
        (phase == Phase::Running || phase == Phase::Jumping || phase == Phase::Sliding) ==> {
            let next = step(phase, c, Event::KnockOut);
            &&& next.0 == Phase::Falling
            &&& next.1.frame == 0
            &&& next.1.position == c.position
            &&& next.1.velocity.x == 0
            &&& next.1.velocity.y == 0
        },
        (phase == Phase::Idle || phase == Phase::Falling || phase == Phase::KnockedOut) ==> step(
            phase,
            c,
            Event::KnockOut,
        ) == (phase, c),
{
}

/// Landing puts the feet of a running, jumping or sliding boy on the given
/// height, keeping him where he was horizontally and as fast as he was; a
/// jumping boy runs on from the first frame, a running or sliding boy goes on
/// as he was. An idle, falling or knocked-out boy is not changed.
pub proof fn lemma_landing_puts_the_feet_on_the_height(
    phase: Phase,
    c: RedHatBoyContext,
    height: i16,
)
    requires
        step_defined(phase, c, Event::Land(height)),
    ensures
        (phase == Phase::Running || phase == Phase::Jumping || phase == Phase::Sliding) ==> {
            let next = step(phase, c, Event::Land(height));
            &&& next.1.position.y + PLAYER_HEIGHT == height
            &&& next.1.position.x == c.position.x
            &&& next.1.velocity == c.velocity
            &&& next.0 == (if phase == Phase::Sliding {
                Phase::Sliding
            } else {
                Phase::Running
            })
            &&& next.1.frame == (if phase == Phase::Jumping {
                0
            } else {
                c.frame
            })
        },
        (phase == Phase::Idle || phase == Phase::Falling || phase == Phase::KnockedOut) ==> step(
            phase,
            c,
            Event::Land(height),
        ) == (phase, c),
{
}

/// The last frame of the animation that a phase shows.
pub open spec fn last_frame(phase: Phase) -> int {
    match phase {
        Phase::Falling => 29,
        Phase::Idle => 29,
        Phase::Jumping => 35,
        Phase::KnockedOut => 29,
        Phase::Running => 23,
        Phase::Sliding => 14,
    }
}

/// A game tick: gravity adds one to the vertical speed until it reaches 20,
/// the boy moves down by his new vertical speed but not below the floor, his
/// horizontal position and speed stay; the animation moves on by one frame,
/// or back to the first after its last one. A fall ends, knocked out, when it
/// reaches frame 29; a slide ends, running again from the first frame, when
/// it reaches frame 14; a jump ends, running on the floor from the first
/// frame, when the boy reaches the floor. Idle and running boys stay as they
/// are.
pub proof fn lemma_tick(phase: Phase, c: RedHatBoyContext)
    requires
        phase != Phase::KnockedOut,
        step_defined(phase, c, Event::Update),
    ensures
        ({
            let next = step(phase, c, Event::Update);
            let vy = if c.velocity.y < 20 {
                c.velocity.y + 1
            } else {
                c.velocity.y as int
            };
            let moved = c.position.y + vy;
            let frame = if c.frame < last_frame(phase) {
                c.frame + 1
            } else {
                0
            };
            let ends = match phase {
                Phase::Falling => frame == 29,
                Phase::Sliding => frame == 14,
                Phase::Jumping => moved >= 479,
                _ => false,
            };
            &&& next.1.position.x == c.position.x
            &&& next.1.velocity.x == c.velocity.x
            &&& next.1.velocity.y == vy
            &&& next.1.position.y == if moved > 479 {
                479
            } else {
                moved
            }
            &&& next.0 == if !ends {
                phase
            } else if phase == Phase::Falling {
                Phase::KnockedOut
            } else {
                Phase::Running
            }
            &&& next.1.frame == if ends && phase != Phase::Falling {
                0
            } else {
                frame
            }
        }),
{
}

/// Only a game tick or a landing moves the boy: every other event leaves his
/// position as it was.
pub proof fn lemma_only_ticks_and_landings_move_the_boy(
    phase: Phase,
    c: RedHatBoyContext,
    event: Event,
)
    requires
        step_defined(phase, c, event),
        !(event is Update),
        !(event is Land),
    ensures
        step(phase, c, event).1.position == c.position,
{
}

/// A jump that ends puts the boy back on the floor, running from the first
/// frame of his animation.
pub proof fn lemma_jump_ends_on_floor(c: RedHatBoyContext)
    requires
        step(Phase::Jumping, c, Event::Update).0 == Phase::Running,
    ensures
        step(Phase::Jumping, c, Event::Update).1.position.y == FLOOR,
        step(Phase::Jumping, c, Event::Update).1.frame == 0,
{
}

/// How many ticks a fall at frame `frame` still lasts.
pub open spec fn fall_ticks_left(frame: u8) -> nat {
    if frame < FALLING_FRAMES {
        (FALLING_FRAMES - frame) as nat
    } else {
        (FALLING_FRAMES + 1) as nat
    }
}

/// How many ticks a slide at frame `frame` still lasts.
pub open spec fn slide_ticks_left(frame: u8) -> nat {
    if frame < SLIDING_FRAMES {
        (SLIDING_FRAMES - frame) as nat
    } else {
        (SLIDING_FRAMES + 1) as nat
    }
}

proof fn lemma_fall_runs_out(phase: Phase, c: RedHatBoyContext, n: nat)
    requires
        phase == Phase::Falling || phase == Phase::KnockedOut,
        0 <= c.velocity.y <= TERMINAL_VELOCITY,
        c.position.y <= FLOOR,
        phase == Phase::Falling ==> n >= fall_ticks_left(c.frame),
    ensures
        updates_defined(phase, c, n),
        after_updates(phase, c, n).0 == Phase::KnockedOut,
    decreases n,
{
    if n > 0 {
        let next = step(phase, c, Event::Update);
        lemma_fall_runs_out(next.0, next.1, (n - 1) as nat);
    }
}

/// A falling boy who does not rise, falls no faster than the terminal
/// velocity and is not below the floor lies knocked out once the falling
/// animation has run through: after at most one tick more than it has
/// frames.
pub proof fn lemma_fall_ends_knocked_out(c: RedHatBoyContext)
    requires
        0 <= c.velocity.y <= TERMINAL_VELOCITY,
        c.position.y <= FLOOR,
    ensures
        updates_defined(Phase::Falling, c, fall_ticks_left(c.frame)),
        after_updates(Phase::Falling, c, fall_ticks_left(c.frame)).0 == Phase::KnockedOut,
        fall_ticks_left(c.frame) <= FALLING_FRAMES + 1,
{
    lemma_fall_runs_out(Phase::Falling, c, fall_ticks_left(c.frame));
}

proof fn lemma_slide_runs_out(phase: Phase, c: RedHatBoyContext, n: nat)
    requires
        phase == Phase::Sliding || phase == Phase::Running,
        0 <= c.velocity.y <= TERMINAL_VELOCITY,
        c.position.y <= FLOOR,
        phase == Phase::Sliding ==> n >= slide_ticks_left(c.frame),
    ensures
        updates_defined(phase, c, n),
        after_updates(phase, c, n).0 == Phase::Running,
    decreases n,
{
    if n > 0 {
        let next = step(phase, c, Event::Update);
        lemma_slide_runs_out(next.0, next.1, (n - 1) as nat);
    }
}

/// A sliding boy who does not rise, falls no faster than the terminal
/// velocity and is not below the floor stands up and runs again once the
/// sliding animation has run through: after at most one tick more than it
/// has frames.
pub proof fn lemma_slide_ends_running(c: RedHatBoyContext)
    requires
        0 <= c.velocity.y <= TERMINAL_VELOCITY,
        c.position.y <= FLOOR,
    ensures
        updates_defined(Phase::Sliding, c, slide_ticks_left(c.frame)),
        after_updates(Phase::Sliding, c, slide_ticks_left(c.frame)).0 == Phase::Running,
        slide_ticks_left(c.frame) <= SLIDING_FRAMES + 1,
{
    lemma_slide_runs_out(Phase::Sliding, c, slide_ticks_left(c.frame));
}


proof fn lemma_after_updates_last(phase: Phase, c: RedHatBoyContext, n: nat)
    ensures
        after_updates(phase, c, n + 1) == step(
            after_updates(phase, c, n).0,
            after_updates(phase, c, n).1,
            Event::Update,
        ),
        updates_defined(phase, c, n + 1) == (updates_defined(phase, c, n) && step_defined(
            after_updates(phase, c, n).0,
            after_updates(phase, c, n).1,
            Event::Update,
        )),
    decreases n,
{
    let next = step(phase, c, Event::Update);
    assert(after_updates(phase, c, n + 1) == after_updates(next.0, next.1, n));
    assert(updates_defined(phase, c, n + 1) == (step_defined(phase, c, Event::Update)
        && updates_defined(next.0, next.1, n)));
    if n > 0 {
        lemma_after_updates_last(next.0, next.1, (n - 1) as nat);
        assert(after_updates(phase, c, n) == after_updates(next.0, next.1, (n - 1) as nat));
        assert(((n - 1) as nat) + 1 == n);
    }
}

/// The height of the boy's top `k` ticks into a jump from the floor, while
/// he is in the air, doubled: he rises ever slower, then falls ever faster
/// until he reaches the terminal velocity after 45 ticks.
pub open spec fn doubled_jump_height(k: int) -> int {
    if k <= 45 {
        2 * FLOOR + k * k - 49 * k
    } else {
        2 * (389 + TERMINAL_VELOCITY * (k - 45))
    }
}

proof fn lemma_jump_arc(k: int)
    requires
        1 <= k <= 45,
    ensures
        k * k - 49 * k == (k - 1) * (k - 1) - 49 * (k - 1) + 2 * (k + JUMPING_SPEED),
        -600 <= k * k - 49 * k < 0,
{
    assert(k * k - 49 * k == (k - 1) * (k - 1) - 49 * (k - 1) + 2 * (k + JUMPING_SPEED))
        by (nonlinear_arith);
    assert(k * k - 49 * k < 0) by (nonlinear_arith)
        requires
            1 <= k <= 45,
    ;
    assert(-600 <= k * k - 49 * k) by (nonlinear_arith)
        requires
            1 <= k <= 45,
    {
        assert((2 * k - 49) * (2 * k - 49) >= 1) by (nonlinear_arith)
            requires
                1 <= k <= 45,
        ;
    }
}

proof fn lemma_jump_in_air(c: RedHatBoyContext, k: nat)
    requires
        c.position.y == FLOOR,
        c.velocity.y == JUMPING_SPEED,
        k < 50,
    ensures
        updates_defined(Phase::Jumping, c, k),
        after_updates(Phase::Jumping, c, k).0 == Phase::Jumping,
        2 * after_updates(Phase::Jumping, c, k).1.position.y == doubled_jump_height(k as int),
        after_updates(Phase::Jumping, c, k).1.velocity.y == if k <= 45 {
            JUMPING_SPEED + k
        } else {
            TERMINAL_VELOCITY as int
        },
        1 <= k ==> after_updates(Phase::Jumping, c, k).1.position.y < FLOOR,
    decreases k,
{
    if k > 0 {
        let j = (k - 1) as nat;
        lemma_jump_in_air(c, j);
        lemma_after_updates_last(Phase::Jumping, c, j);
        assert(j + 1 == k);
        let m = after_updates(Phase::Jumping, c, j);
        let moved = m.1.position.y + velocity_after_update(m.1.velocity.y);
        let ji = j as int;
        if j < 45 {
            lemma_jump_arc(k as int);
            assert(ji * ji == (k - 1) * (k - 1));
        } else if j == 45 {
            assert(ji * ji == 2025) by (nonlinear_arith)
                requires
                    ji == 45,
            ;
        }
        assert(moved < FLOOR);
        assert(m.1.after_update(JUMPING_FRAMES).position.y == moved);
    }
}

/// A jump from the floor lasts fifty ticks: the boy is in the air for the
/// first forty-nine, and after the fiftieth he runs on the floor again.
pub proof fn lemma_jump_from_floor_lasts_fifty_ticks(c: RedHatBoyContext, k: nat)
    requires
        c.position.y == FLOOR,
        c.velocity.y == JUMPING_SPEED,
    ensures
        updates_defined(Phase::Jumping, c, 50),
        1 <= k < 50 ==> after_updates(Phase::Jumping, c, k).0 == Phase::Jumping
            && after_updates(Phase::Jumping, c, k).1.position.y < FLOOR,
        after_updates(Phase::Jumping, c, 50).0 == Phase::Running,
        after_updates(Phase::Jumping, c, 50).1.position.y == FLOOR,
{
    lemma_jump_in_air(c, 49);
    lemma_after_updates_last(Phase::Jumping, c, 49);
    if 1 <= k < 50 {
        lemma_jump_in_air(c, k);
    }
}


/// How far the boy still rises before gravity turns him around, when his
/// vertical velocity is `v` (upwards is negative): the sum of the moves he
/// still makes upwards, as a negative number.
pub open spec fn rise_ahead(v: int) -> int
    decreases (if v < 0 {
        -v
    } else {
        0
    }),
{
    if v < -1 {
        (v + 1) + rise_ahead(v + 1)
    } else {
        0
    }
}

/// The highest point (the smallest y) the boy's top reaches before he comes
/// down again, if nothing stops him.
pub open spec fn summit(c: RedHatBoyContext) -> int {
    c.position.y + rise_ahead(c.velocity.y as int)
}

/// Whether the boy is in a phase that may have started with a jump and not
/// ended on the ground yet.
pub open spec fn airborne(phase: Phase) -> bool {
    phase == Phase::Jumping || phase == Phase::Falling || phase == Phase::KnockedOut
}

/// The rise of a jump: how far a jump lifts the boy.
pub open spec fn jump_rise() -> int {
    -rise_ahead(JUMPING_SPEED as int)
}

/// A state from which the game can go on without an overflow, when no summit
/// of the boy on the ground lies above `ceiling`: he is consistent, his top
/// lies low enough that an update cannot overflow, and his summit lies no
/// higher than `ceiling`, or than `ceiling` less one jump while he is in the
/// air.
pub open spec fn playable(phase: Phase, c: RedHatBoyContext, ceiling: int) -> bool {
    &&& consistent(phase, c)
    &&& c.position.y <= i16::MAX - PLAYER_HEIGHT
    &&& summit(c) >= ceiling - (if airborne(phase) {
        jump_rise()
    } else {
        0
    })
}

/// Whether an event lands the boy no higher than a summit of `ceiling`
/// allows: with his top one jump below `ceiling`.
pub open spec fn lands_within(event: Event, ceiling: int) -> bool {
    match event {
        Event::Land(p) => p - PLAYER_HEIGHT >= ceiling + jump_rise(),
        _ => true,
    }
}

proof fn lemma_rise_ahead_bounds(v: int)
    requires
        JUMPING_SPEED <= v,
    ensures
        -jump_rise() <= rise_ahead(v) <= 0,
        jump_rise() == 300,
    decreases (if v < 0 {
        -v
    } else {
        0
    }),
{
    reveal_with_fuel(rise_ahead, 25);
    if v < -1 {
        lemma_rise_ahead_bounds(v + 1);
    }
}

/// The boy can start the game without an overflow ahead, for every ceiling
/// between the lowest one that leaves room for a jump and the one that the
/// floor, one jump up, allows.
pub proof fn lemma_start_is_playable(ceiling: int)
    requires
        i16::MIN + jump_rise() <= ceiling <= FLOOR - jump_rise(),
    ensures
        playable(Phase::Idle, initial_context(), ceiling),
{
    lemma_rise_ahead_bounds(0);
}

/// From a playable state, every event that lands the boy within the ceiling
/// can be applied without an overflow, and leads to a playable state again:
/// a game that only lands the boy that high never overflows.
pub proof fn lemma_step_keeps_playable(
    phase: Phase,
    c: RedHatBoyContext,
    event: Event,
    ceiling: int,
)
    requires
        i16::MIN + jump_rise() <= ceiling <= FLOOR - jump_rise(),
        playable(phase, c, ceiling),
        lands_within(event, ceiling),
    ensures
        step_defined(phase, c, event),
        playable(step(phase, c, event).0, step(phase, c, event).1, ceiling),
{
    lemma_rise_ahead_bounds(JUMPING_SPEED as int);
    lemma_rise_ahead_bounds(c.velocity.y as int);
    let vy = c.velocity.y as int;
    if vy < TERMINAL_VELOCITY {
        lemma_rise_ahead_bounds(vy + 1);
        assert(rise_ahead(vy) == (if vy < -1 { (vy + 1) + rise_ahead(vy + 1) } else { 0 }));
    }
    assert(step_defined(phase, c, event));
    lemma_step_keeps_consistent(phase, c, event);
    let next = step(phase, c, event);
    lemma_rise_ahead_bounds(next.1.velocity.y as int);
}

} // verus!
