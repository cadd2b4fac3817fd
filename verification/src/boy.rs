//! The red hat boy as the game sees him: his state machine together with
//! his sprite sheet, the name of the sprite he shows, and the boxes in which
//! he is drawn and can be hit.

use vstd::prelude::*;
use vstd::string::StringExecFns;

use crate::geometry::Rect;
use crate::laws::consistent;
use crate::machine::{phase_name, step, step_defined, Event, Phase, RedHatBoyStateMachine};
use crate::sheet::{Cell, Sheet};
use crate::states::{fits_i16, initial_context, RedHatBoyContext, RedHatBoyState};

verus! {

/// The character of a decimal digit.
pub open spec fn digit_char(d: int) -> char {
    if d == 0 {
        '0'
    } else if d == 1 {
        '1'
    } else if d == 2 {
        '2'
    } else if d == 3 {
        '3'
    } else if d == 4 {
        '4'
    } else if d == 5 {
        '5'
    } else if d == 6 {
        '6'
    } else if d == 7 {
        '7'
    } else if d == 8 {
        '8'
    } else {
        '9'
    }
}

/// The decimal notation of a natural number, without leading zeros.
pub open spec fn decimal(n: nat) -> Seq<char>
    decreases n,
{
    if n < 10 {
        seq![digit_char(n as int)]
    } else {
        decimal(n / 10) + seq![digit_char((n % 10) as int)]
    }
}

/// The name of the sprite that shows the boy in `phase` at animation frame
/// `frame`: each picture of an animation is held for three frames, and the
/// pictures are counted from one, as in `"Run (4).png"`.
pub open spec fn sprite_name(phase: Phase, frame: u8) -> Seq<char> {
    phase_name(phase) + seq![' ', '('] + decimal((frame / 3 + 1) as nat) + seq![
        ')',
        '.',
        'p',
        'n',
        'g',
    ]
}

/// How many pictures the animation of a phase has.
pub open spec fn pictures(phase: Phase) -> int {
    match phase {
        Phase::Falling => 10,
        Phase::Idle => 10,
        Phase::Jumping => 12,
        Phase::KnockedOut => 10,
        Phase::Running => 8,
        Phase::Sliding => 5,
    }
}

/// In every state the boy can reach, the sprite he shows is one of the
/// pictures of his animation: its number lies between one and the number of
/// pictures.
pub proof fn lemma_sprite_is_a_picture_of_the_animation(phase: Phase, c: RedHatBoyContext)
    requires
        consistent(phase, c),
    ensures
        1 <= c.frame / 3 + 1 <= pictures(phase),
{
}

/// Where a sprite `cell` is drawn when the boy's context is `c`: its visible
/// part, moved by the boy's position.
pub open spec fn destination_of(c: RedHatBoyContext, cell: Cell) -> Rect {
    Rect {
        x: (c.position.x + cell.sprite_source_size.x) as i32,
        y: (c.position.y + cell.sprite_source_size.y) as i32,
        width: cell.sprite_source_size.w as i32,
        height: cell.sprite_source_size.h as i32,
    }
}

/// The part of a drawn sprite in which the boy can be hit: the sprite without
/// its empty margins (18 pixels on the left, 10 on the right, 14 on top).
pub open spec fn collision_box_of(d: Rect) -> Rect {
    Rect {
        x: (d.x + 18) as i32,
        y: (d.y + 14) as i32,
        width: (d.width - 28) as i32,
        height: (d.height - 14) as i32,
    }
}

/// The value of a decimal digit character.
pub open spec fn digit_value(c: char) -> int {
    if c == '1' {
        1
    } else if c == '2' {
        2
    } else if c == '3' {
        3
    } else if c == '4' {
        4
    } else if c == '5' {
        5
    } else if c == '6' {
        6
    } else if c == '7' {
        7
    } else if c == '8' {
        8
    } else if c == '9' {
        9
    } else {
        0
    }
}

/// The number that a string of decimal digits denotes.
pub open spec fn decimal_value(s: Seq<char>) -> int
    decreases s.len(),
{
    if s.len() == 0 {
        0
    } else {
        10 * decimal_value(s.drop_last()) + digit_value(s.last())
    }
}

/// Reading the decimal notation of a number gives the number back.
pub proof fn lemma_decimal_reads_back(n: nat)
    ensures
        decimal_value(decimal(n)) == n,
        decimal(n).len() >= 1,
    decreases n,
{
    let s = decimal(n);
    if n >= 10 {
        lemma_decimal_reads_back(n / 10);
        assert(s.drop_last() =~= decimal(n / 10));
        assert(s.last() == digit_char((n % 10) as int));
        assert(digit_value(digit_char((n % 10) as int)) == n % 10);
        assert(10 * (n / 10) + n % 10 == n);
    } else {
        assert(s.drop_last() =~= Seq::<char>::empty());
        assert(decimal_value(Seq::<char>::empty()) == 0);
        assert(digit_value(digit_char(n as int)) == n);
    }
}

/// The number written in a sprite name: what stands between the animation
/// name and `" ("` on the left and `").png"` on the right.
pub open spec fn sprite_number_text(phase: Phase, name: Seq<char>) -> Seq<char> {
    name.subrange(phase_name(phase).len() + 2int, name.len() - 5)
}

/// The name of the sprite that shows the boy is his animation's name, then
/// `" ("`, then, in decimal digits, the number of the picture, which is the
/// animation frame divided by three, plus one, then `").png"`.
pub proof fn lemma_sprite_name_counts_pictures(phase: Phase, frame: u8)
    ensures
        sprite_name(phase, frame).subrange(0, phase_name(phase).len() as int) == phase_name(
            phase,
        ),
        sprite_name(phase, frame).subrange(
            phase_name(phase).len() as int,
            phase_name(phase).len() + 2int,
        ) == seq![' ', '('],
        sprite_name(phase, frame).subrange(
            sprite_name(phase, frame).len() - 5,
            sprite_name(phase, frame).len() as int,
        ) == seq![')', '.', 'p', 'n', 'g'],
        decimal_value(sprite_number_text(phase, sprite_name(phase, frame))) == frame / 3 + 1,
{
    let n = (frame / 3 + 1) as nat;
    lemma_decimal_reads_back(n);
    let name = sprite_name(phase, frame);
    let p = phase_name(phase);
    assert(name.subrange(0, p.len() as int) =~= p);
    assert(name.subrange(p.len() as int, p.len() + 2int) =~= seq![' ', '(']);
    assert(name.subrange(name.len() - 5, name.len() as int) =~= seq![')', '.', 'p', 'n', 'g']);
    assert(sprite_number_text(phase, name) =~= decimal(n));
}

/// Two frames of one animation are shown by the same sprite exactly when they
/// belong to the same picture, that is, when they agree once divided by
/// three: every picture of the animation has a name of its own.
pub proof fn lemma_sprite_names_tell_pictures_apart(phase: Phase, f1: u8, f2: u8)
    ensures
        (sprite_name(phase, f1) == sprite_name(phase, f2)) <==> (f1 / 3 == f2 / 3),
{
    lemma_sprite_name_counts_pictures(phase, f1);
    lemma_sprite_name_counts_pictures(phase, f2);
    if sprite_name(phase, f1) == sprite_name(phase, f2) {
        assert(sprite_number_text(phase, sprite_name(phase, f1)) == sprite_number_text(
            phase,
            sprite_name(phase, f2),
        ));
    }
}

/// The box in which the boy is drawn is the visible part of his sprite moved
/// by exactly his position, and as large as that part; so two boys who show
/// the same sprite are drawn as far apart as they stand.
pub proof fn lemma_drawn_box_follows_the_boy(c1: RedHatBoyContext, c2: RedHatBoyContext, cell: Cell)
    requires
        fits_i16(c1.position.x + cell.sprite_source_size.x),
        fits_i16(c1.position.y + cell.sprite_source_size.y),
        fits_i16(c2.position.x + cell.sprite_source_size.x),
        fits_i16(c2.position.y + cell.sprite_source_size.y),
    ensures
        destination_of(c1, cell).x - c1.position.x == cell.sprite_source_size.x,
        destination_of(c1, cell).y - c1.position.y == cell.sprite_source_size.y,
        destination_of(c1, cell).width == cell.sprite_source_size.w,
        destination_of(c1, cell).height == cell.sprite_source_size.h,
        destination_of(c2, cell).x - destination_of(c1, cell).x == c2.position.x - c1.position.x,
        destination_of(c2, cell).y - destination_of(c1, cell).y == c2.position.y - c1.position.y,
{
}

/// The box in which the boy can be hit lies inside the box in which he is
/// drawn: 18 pixels in from its left edge, 10 in from its right edge, 14 down
/// from its top, and sharing its bottom edge.
pub proof fn lemma_hit_box_lies_inside_the_drawn_box(c: RedHatBoyContext, cell: Cell)
    requires
        fits_i16(c.position.x + cell.sprite_source_size.x),
        fits_i16(c.position.y + cell.sprite_source_size.y),
    ensures
        ({
            let d = destination_of(c, cell);
            let h = collision_box_of(d);
            &&& h.x == d.x + 18
            &&& h.x + h.width == d.x + d.width - 10
            &&& h.y == d.y + 14
            &&& h.y + h.height == d.y + d.height
        }),
{
}

fn digit_str(d: u8) -> (s: &'static str)
    requires
        d < 10,
    ensures
        s@ == seq![digit_char(d as int)],
{
    if d == 0 {
        proof {
            reveal_strlit("0");
        }
        "0"
    } else if d == 1 {
        proof {
            reveal_strlit("1");
        }
        "1"
    } else if d == 2 {
        proof {
            reveal_strlit("2");
        }
        "2"
    } else if d == 3 {
        proof {
            reveal_strlit("3");
        }
        "3"
    } else if d == 4 {
        proof {
            reveal_strlit("4");
        }
        "4"
    } else if d == 5 {
        proof {
            reveal_strlit("5");
        }
        "5"
    } else if d == 6 {
        proof {
            reveal_strlit("6");
        }
        "6"
    } else if d == 7 {
        proof {
            reveal_strlit("7");
        }
        "7"
    } else if d == 8 {
        proof {
            reveal_strlit("8");
        }
        "8"
    } else {
        proof {
            reveal_strlit("9");
        }
        "9"
    }
}

/// The decimal notation of `n`.
pub fn decimal_string(n: u8) -> (s: String)
    ensures
        s@ == decimal(n as nat),
{
    let mut s = String::new();
    if n >= 100 {
        s.append(digit_str(n / 100));
    }
    if n >= 10 {
        s.append(digit_str((n / 10) % 10));
    }
    s.append(digit_str(n % 10));
    proof {
        reveal_with_fuel(decimal, 3);
        if n >= 10 {
            assert((n as nat / 10) % 10 == (n / 10) % 10);
            if n >= 100 {
                assert(n as nat / 10 / 10 == n / 100);
            }
        }
    }
    s
}

/// The red hat boy: his state machine and the sprite sheet he is drawn
/// from.
pub struct RedHatBoy {
    state_machine: RedHatBoyStateMachine,
    sprite_sheet: Sheet,
}

impl RedHatBoy {
    /// The boy's phase.
    pub closed spec fn phase(&self) -> Phase {
        self.state_machine@.0
    }

    /// The boy's context.
    pub closed spec fn ctx(&self) -> RedHatBoyContext {
        self.state_machine@.1
    }

    /// The cells of the boy's sprite sheet, by frame name.
    pub closed spec fn frames(&self) -> Map<Seq<char>, Cell> {
        self.sprite_sheet.frames@
    }

    /// The name of the sprite that shows the boy now.
    pub open spec fn current_sprite_name(&self) -> Seq<char> {
        sprite_name(self.phase(), self.ctx().frame)
    }

    /// The cell that shows the boy now, if his sheet has one.
    pub open spec fn sprite(&self) -> Option<Cell> {
        if self.frames().contains_key(self.current_sprite_name()) {
            Some(self.frames()[self.current_sprite_name()])
        } else {
            None
        }
    }

    /// Whether the boy can be placed on the screen: his sheet has the cell
    /// that shows him now, and moving it by his position stays within the
    /// `i16` range.
    pub open spec fn placeable(&self) -> bool {
        &&& self.sprite() is Some
        &&& fits_i16(self.ctx().position.x + self.sprite().unwrap().sprite_source_size.x)
        &&& fits_i16(self.ctx().position.y + self.sprite().unwrap().sprite_source_size.y)
    }

    /// The boy as the game starts: idle, drawn from `sheet`.
    pub fn new(sheet: Sheet) -> (boy: Self)
        ensures
            boy.phase() == Phase::Idle,
            boy.ctx() == initial_context(),
            boy.frames() == sheet.frames@,
    {
        RedHatBoy {
            state_machine: RedHatBoyStateMachine::Idle(RedHatBoyState::new()),
            sprite_sheet: sheet,
        }
    }

    /// The name of the sprite that shows the boy now.
    pub fn frame_name(&self) -> (name: String)
        ensures
            name@ == self.current_sprite_name(),
    {
        let mut name = String::new();
        name.append(self.state_machine.frame_name());
        proof {
            reveal_strlit(" (");
            reveal_strlit(").png");
        }
        name.append(" (");
        let number = decimal_string(self.state_machine.context().frame / 3 + 1);
        name.append(number.as_str());
        name.append(").png");
        name
    }

    /// The cell that shows the boy now, if his sheet has one.
    pub fn current_sprite(&self) -> (cell: Option<&Cell>)
        ensures
            match cell {
                Some(c) => self.sprite() == Some(*c),
                None => self.sprite() is None,
            },
    {
        let name = self.frame_name();
        self.sprite_sheet.frames.get(name.as_str())
    }

    /// Whether the boy can be placed on the screen now.
    pub fn can_place(&self) -> (ok: bool)
        ensures
            ok == self.placeable(),
    {
        match self.current_sprite() {
            Some(sprite) => {
                let position = self.state_machine.context().position;
                let x = position.x as i32 + sprite.sprite_source_size.x as i32;
                let y = position.y as i32 + sprite.sprite_source_size.y as i32;
                i16::MIN as i32 <= x && x <= i16::MAX as i32 && i16::MIN as i32 <= y && y
                    <= i16::MAX as i32
            },
            None => false,
        }
    }

    /// Where the boy is drawn: the visible part of his current sprite, at his
    /// position.
    pub fn destination_box(&self) -> (r: Rect)
        requires
            self.placeable(),
        ensures
            r == destination_of(self.ctx(), self.sprite().unwrap()),
    {
        let sprite = self.current_sprite().unwrap();
        let position = self.state_machine.context().position;
        Rect {
            x: (position.x + sprite.sprite_source_size.x) as i32,
            y: (position.y + sprite.sprite_source_size.y) as i32,
            width: sprite.sprite_source_size.w as i32,
            height: sprite.sprite_source_size.h as i32,
        }
    }

    /// Where the boy can be hit: his drawn sprite without its empty margins.
    pub fn bounding_box(&self) -> (r: Rect)
        requires
            self.placeable(),
        ensures
            r == collision_box_of(destination_of(self.ctx(), self.sprite().unwrap())),
    {
        let destination = self.destination_box();
        Rect {
            x: destination.x + 18,
            y: destination.y + 14,
            width: destination.width - 28,
            height: destination.height - 14,
        }
    }

    /// Whether `event` can be applied to the boy now without an overflow.
    pub fn accepts(&self, event: Event) -> (ok: bool)
        ensures
            ok == step_defined(self.phase(), self.ctx(), event),
    {
        self.state_machine.accepts(event)
    }

    fn apply(&mut self, event: Event)
        requires
            step_defined(old(self).phase(), old(self).ctx(), event),
        ensures
            (final(self).phase(), final(self).ctx()) == step(
                old(self).phase(),
                old(self).ctx(),
                event,
            ),
            final(self).frames() == old(self).frames(),
    {
        self.state_machine = self.state_machine.transition(event);
    }

    /// The jump key was pressed.
    pub fn jump(&mut self)
        requires
            step_defined(old(self).phase(), old(self).ctx(), Event::Jump),
        ensures
            (final(self).phase(), final(self).ctx()) == step(
                old(self).phase(),
                old(self).ctx(),
                Event::Jump,
            ),
            final(self).frames() == old(self).frames(),
    {
        self.apply(Event::Jump);
    }

    /// The boy ran into something.
    pub fn knock_out(&mut self)
        requires
            step_defined(old(self).phase(), old(self).ctx(), Event::KnockOut),
        ensures
            (final(self).phase(), final(self).ctx()) == step(
                old(self).phase(),
                old(self).ctx(),
                Event::KnockOut,
            ),
            final(self).frames() == old(self).frames(),
    {
        self.apply(Event::KnockOut);
    }

    /// The boy comes to rest with his feet on the height `position`.
    pub fn land_on(&mut self, position: i16)
        requires
            step_defined(old(self).phase(), old(self).ctx(), Event::Land(position)),
        ensures
            (final(self).phase(), final(self).ctx()) == step(
                old(self).phase(),
                old(self).ctx(),
                Event::Land(position),
            ),
            final(self).frames() == old(self).frames(),
    {
        self.apply(Event::Land(position));
    }

    /// The run key was pressed.
    pub fn run_right(&mut self)
        requires
            step_defined(old(self).phase(), old(self).ctx(), Event::Run),
        ensures
            (final(self).phase(), final(self).ctx()) == step(
                old(self).phase(),
                old(self).ctx(),
                Event::Run,
            ),
            final(self).frames() == old(self).frames(),
    {
        self.apply(Event::Run);
    }

    /// The slide key was pressed.
    pub fn slide(&mut self)
        requires
            step_defined(old(self).phase(), old(self).ctx(), Event::Slide),
        ensures
            (final(self).phase(), final(self).ctx()) == step(
                old(self).phase(),
                old(self).ctx(),
                Event::Slide,
            ),
            final(self).frames() == old(self).frames(),
    {
        self.apply(Event::Slide);
    }

    /// One game tick.
    pub fn update(&mut self)
        requires
            step_defined(old(self).phase(), old(self).ctx(), Event::Update),
        ensures
            (final(self).phase(), final(self).ctx()) == step(
                old(self).phase(),
                old(self).ctx(),
                Event::Update,
            ),
            final(self).frames() == old(self).frames(),
    {
        self.state_machine = self.state_machine.update();
    }

    /// The boy has hit a platform whose collision box has its top at `top`,
    /// and whose position is `platform_y`: falling onto it from above, he
    /// lands on its top; otherwise he has run into it and is knocked out.
    pub fn land_or_knock_out(&mut self, top: i16, platform_y: i16)
        requires
            old(self).ctx().velocity.y > 0 && old(self).ctx().position.y < platform_y
                ==> step_defined(old(self).phase(), old(self).ctx(), Event::Land(top)),
        ensures
            (final(self).phase(), final(self).ctx()) == step(
                old(self).phase(),
                old(self).ctx(),
                if old(self).ctx().velocity.y > 0 && old(self).ctx().position.y < platform_y {
                    Event::Land(top)
                } else {
                    Event::KnockOut
                },
            ),
            final(self).frames() == old(self).frames(),
    {
        if self.velocity_y() > 0 && self.pos_y() < platform_y {
            self.land_on(top);
        } else {
            self.knock_out();
        }
    }

    /// The height of the boy's top.
    pub fn pos_y(&self) -> (y: i16)
        ensures
            y == self.ctx().position.y,
    {
        self.state_machine.context().position.y
    }

    /// The boy's vertical velocity (downwards is positive).
    pub fn velocity_y(&self) -> (vy: i16)
        ensures
            vy == self.ctx().velocity.y,
    {
        self.state_machine.context().velocity.y
    }

    /// The boy's horizontal velocity.
    pub fn walking_speed(&self) -> (vx: i16)
        ensures
            vx == self.ctx().velocity.x,
    {
        self.state_machine.context().velocity.x
    }
}

} // verus!
