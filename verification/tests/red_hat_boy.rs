use walk_the_dog::boy::{decimal_string, RedHatBoy};
use walk_the_dog::geometry::{Point, Rect};
use walk_the_dog::machine::{Event, RedHatBoyStateMachine};
use walk_the_dog::platform::Platform;
use walk_the_dog::sheet::{Cell, Sheet, SheetRect};
use walk_the_dog::states::{RedHatBoyContext, RedHatBoyState, FLOOR, HEIGHT, PLAYER_HEIGHT};

fn start() -> RedHatBoyStateMachine {
    RedHatBoyStateMachine::Idle(RedHatBoyState::new())
}

fn ctx(m: &RedHatBoyStateMachine) -> (u8, i16, i16, i16, i16) {
    let c = m.context();
    (c.frame, c.position.x, c.position.y, c.velocity.x, c.velocity.y)
}

fn rect(x: i16, y: i16, w: i16, h: i16) -> SheetRect {
    SheetRect { x, y, w, h }
}

fn boy_sheet() -> Sheet {
    let mut sheet = Sheet::new();
    sheet.insert(
        "Idle (1).png".to_string(),
        Cell { frame: rect(117, 120, 160, 136), sprite_source_size: rect(45, 10, 160, 136) },
    );
    sheet
}

#[test]
fn player_height_puts_feet_on_the_field_edge() {
    assert_eq!(PLAYER_HEIGHT, 121);
    assert_eq!(HEIGHT - PLAYER_HEIGHT, FLOOR);
}

#[test]
fn new_boy_stands_idle_at_the_start() {
    let m = start();
    assert!(matches!(m, RedHatBoyStateMachine::Idle(_)));
    assert_eq!(ctx(&m), (0, -20, 479, 0, 0));
    assert_eq!(m.frame_name(), "Idle");
}

#[test]
fn idle_update_advances_frame_and_stays_on_floor() {
    let m = start().update();
    assert!(matches!(m, RedHatBoyStateMachine::Idle(_)));
    assert_eq!(ctx(&m), (1, -20, 479, 0, 1));
}

#[test]
fn run_starts_running_at_running_speed() {
    let m = start().transition(Event::Run);
    assert!(matches!(m, RedHatBoyStateMachine::Running(_)));
    assert_eq!(ctx(&m), (0, -20, 479, 4, 0));
    assert_eq!(m.frame_name(), "Run");
}

#[test]
fn idle_ignores_jump_slide_land_and_knock_out() {
    for event in [Event::Jump, Event::Slide, Event::Land(420), Event::KnockOut] {
        let m = start().transition(event);
        assert!(matches!(m, RedHatBoyStateMachine::Idle(_)));
        assert_eq!(ctx(&m), (0, -20, 479, 0, 0));
    }
}

#[test]
fn jump_goes_up_at_jumping_speed() {
    let m = start().transition(Event::Run).transition(Event::Jump);
    assert!(matches!(m, RedHatBoyStateMachine::Jumping(_)));
    assert_eq!(ctx(&m), (0, -20, 479, 4, -25));
    assert_eq!(m.frame_name(), "Jump");
    let m = m.update();
    assert_eq!(ctx(&m), (1, -20, 455, 4, -24));
    let m = m.update();
    assert_eq!(ctx(&m), (2, -20, 432, 4, -23));
}

#[test]
fn jump_from_floor_lands_after_fifty_ticks() {
    let mut m = start().transition(Event::Run).transition(Event::Jump);
    for tick in 1..50 {
        m = m.update();
        assert!(matches!(m, RedHatBoyStateMachine::Jumping(_)), "tick {}", tick);
        if tick == 25 {
            assert_eq!(ctx(&m), (25, -20, 179, 4, 0));
        }
    }
    assert_eq!(ctx(&m), (13, -20, 469, 4, 20));
    m = m.update();
    assert!(matches!(m, RedHatBoyStateMachine::Running(_)));
    assert_eq!(ctx(&m), (0, -20, FLOOR, 4, 20));
}

#[test]
fn landing_from_a_jump_runs_on_the_platform_top() {
    let m = start().transition(Event::Run).transition(Event::Jump).update();
    let m = m.transition(Event::Land(420));
    assert!(matches!(m, RedHatBoyStateMachine::Running(_)));
    assert_eq!(ctx(&m), (0, -20, 299, 4, -24));
}

#[test]
fn landing_while_running_keeps_the_frame() {
    let m = start().transition(Event::Run).update().update();
    let m = m.transition(Event::Land(420));
    assert!(matches!(m, RedHatBoyStateMachine::Running(_)));
    assert_eq!(ctx(&m), (2, -20, 299, 4, 2));
}

#[test]
fn landing_while_sliding_keeps_sliding() {
    let m = start().transition(Event::Run).transition(Event::Slide).update();
    let m = m.transition(Event::Land(500));
    assert!(matches!(m, RedHatBoyStateMachine::Sliding(_)));
    assert_eq!(ctx(&m), (1, -20, 379, 4, 1));
}

#[test]
fn knock_out_stops_and_falls() {
    for m in [
        start().transition(Event::Run),
        start().transition(Event::Run).transition(Event::Jump),
        start().transition(Event::Run).transition(Event::Slide),
    ] {
        let m = m.update().transition(Event::KnockOut);
        assert!(matches!(m, RedHatBoyStateMachine::Falling(_)));
        let (frame, _, _, vx, vy) = ctx(&m);
        assert_eq!((frame, vx, vy), (0, 0, 0));
        assert_eq!(m.frame_name(), "Dead");
    }
}

#[test]
fn fall_ends_knocked_out_after_twenty_nine_ticks() {
    let mut m = start().transition(Event::Run).transition(Event::KnockOut);
    for _ in 1..29 {
        m = m.update();
        assert!(matches!(m, RedHatBoyStateMachine::Falling(_)));
    }
    assert_eq!(ctx(&m), (28, -20, 479, 0, 20));
    m = m.update();
    assert!(matches!(m, RedHatBoyStateMachine::KnockedOut(_)));
    assert_eq!(ctx(&m), (29, -20, 479, 0, 20));
    assert_eq!(m.frame_name(), "Dead");
}

#[test]
fn knocked_out_boy_ignores_every_event() {
    let mut m = start().transition(Event::Run).transition(Event::KnockOut);
    for _ in 0..29 {
        m = m.update();
    }
    let before = ctx(&m);
    for event in [
        Event::Jump,
        Event::KnockOut,
        Event::Land(420),
        Event::Run,
        Event::Slide,
        Event::Update,
    ] {
        let next = m.transition(event);
        assert!(matches!(next, RedHatBoyStateMachine::KnockedOut(_)));
        assert_eq!(ctx(&next), before);
    }
}

#[test]
fn slide_ends_running_after_fourteen_ticks() {
    let mut m = start().transition(Event::Run).transition(Event::Slide);
    assert_eq!(m.frame_name(), "Slide");
    for _ in 1..14 {
        m = m.update();
        assert!(matches!(m, RedHatBoyStateMachine::Sliding(_)));
    }
    assert_eq!(ctx(&m), (13, -20, 479, 4, 13));
    m = m.update();
    assert!(matches!(m, RedHatBoyStateMachine::Running(_)));
    assert_eq!(ctx(&m), (0, -20, 479, 4, 14));
}

#[test]
fn context_update_wraps_frame_caps_velocity_and_stops_at_floor() {
    let c = RedHatBoyContext {
        frame: 23,
        position: Point { x: 3, y: 100 },
        velocity: Point { x: 4, y: 20 },
    };
    let next = c.update(23);
    assert_eq!(next.frame, 0);
    assert_eq!(next.velocity, Point { x: 4, y: 20 });
    assert_eq!(next.position, Point { x: 3, y: 120 });

    let c = RedHatBoyContext {
        frame: 5,
        position: Point { x: 0, y: 470 },
        velocity: Point { x: 0, y: 15 },
    };
    let next = c.update(23);
    assert_eq!(next.frame, 6);
    assert_eq!(next.velocity.y, 16);
    assert_eq!(next.position.y, FLOOR);
}

#[test]
fn accepts_reports_overflowing_events() {
    let running = start().transition(Event::Run);
    assert!(running.accepts(Event::Land(420)));
    assert!(running.accepts(Event::Land(i16::MIN + 121)));
    assert!(!running.accepts(Event::Land(i16::MIN + 120)));
    assert!(start().accepts(Event::Land(i16::MIN)));
    assert!(running.accepts(Event::Update));
    let high = running.transition(Event::Land(i16::MIN + 121));
    assert!(high.accepts(Event::Update));
    let up = start().transition(Event::Run).transition(Event::Jump);
    let up = up.transition(Event::Land(i16::MIN + 121)).transition(Event::Jump);
    assert!(!up.accepts(Event::Update));
    assert!(up.accepts(Event::KnockOut));
}

#[test]
fn decimal_string_writes_without_leading_zeros() {
    assert_eq!(decimal_string(0), "0");
    assert_eq!(decimal_string(7), "7");
    assert_eq!(decimal_string(10), "10");
    assert_eq!(decimal_string(86), "86");
    assert_eq!(decimal_string(100), "100");
    assert_eq!(decimal_string(255), "255");
}

#[test]
fn frame_name_counts_pictures_of_three_frames() {
    let mut boy = RedHatBoy::new(boy_sheet());
    assert_eq!(boy.frame_name(), "Idle (1).png");
    boy.update();
    boy.update();
    assert_eq!(boy.frame_name(), "Idle (1).png");
    boy.update();
    assert_eq!(boy.frame_name(), "Idle (2).png");
    boy.run_right();
    assert_eq!(boy.frame_name(), "Run (1).png");
    boy.knock_out();
    for _ in 0..29 {
        boy.update();
    }
    assert_eq!(boy.frame_name(), "Dead (10).png");
}

#[test]
fn current_sprite_looks_up_the_frame_name() {
    let mut boy = RedHatBoy::new(boy_sheet());
    let cell = boy.current_sprite().expect("the idle sprite");
    assert_eq!(cell.frame.x, 117);
    assert_eq!(cell.sprite_source_size.x, 45);
    boy.run_right();
    assert!(boy.current_sprite().is_none());
    assert!(!boy.can_place());
}

#[test]
fn boy_boxes_follow_his_sprite_and_position() {
    let boy = RedHatBoy::new(boy_sheet());
    assert!(boy.can_place());
    assert_eq!(boy.destination_box(), Rect { x: 25, y: 489, width: 160, height: 136 });
    assert_eq!(boy.bounding_box(), Rect { x: 43, y: 503, width: 132, height: 122 });
}

#[test]
fn boy_getters_read_his_context() {
    let mut boy = RedHatBoy::new(boy_sheet());
    boy.run_right();
    boy.jump();
    boy.update();
    assert_eq!(boy.pos_y(), 455);
    assert_eq!(boy.velocity_y(), -24);
    assert_eq!(boy.walking_speed(), 4);
    assert!(boy.accepts(Event::Update));
}

#[test]
fn boy_lands_when_falling_onto_a_platform() {
    let mut boy = RedHatBoy::new(boy_sheet());
    boy.run_right();
    boy.jump();
    for _ in 0..30 {
        boy.update();
    }
    assert!(boy.velocity_y() > 0);
    let y = boy.pos_y();
    assert!(y < 420);
    boy.land_or_knock_out(420, 420);
    assert_eq!(boy.pos_y(), 299);
    assert_eq!(boy.frame_name(), "Run (1).png");
}

#[test]
fn boy_is_knocked_out_when_running_into_a_platform() {
    let mut boy = RedHatBoy::new(boy_sheet());
    boy.run_right();
    boy.land_or_knock_out(420, 420);
    assert_eq!(boy.frame_name(), "Dead (1).png");
    assert_eq!(boy.walking_speed(), 0);
    boy.slide();
    boy.jump();
    assert_eq!(boy.frame_name(), "Dead (1).png");
}

fn platform_sheet() -> Sheet {
    let mut sheet = Sheet::new();
    sheet.insert(
        "13.png".to_string(),
        Cell { frame: rect(0, 0, 128, 93), sprite_source_size: rect(0, 0, 128, 93) },
    );
    sheet
}

#[test]
fn platform_is_three_tiles_wide() {
    let platform = Platform::new(platform_sheet(), Point { x: 400, y: 420 });
    assert!(platform.can_place());
    assert_eq!(platform.destination_box(), Rect { x: 400, y: 420, width: 384, height: 93 });
}

#[test]
fn platform_has_two_short_ends_and_a_full_middle() {
    let platform = Platform::new(platform_sheet(), Point { x: 400, y: 420 });
    assert_eq!(
        platform.bounding_boxes(),
        vec![
            Rect { x: 400, y: 420, width: 60, height: 45 },
            Rect { x: 460, y: 420, width: 264, height: 93 },
            Rect { x: 724, y: 420, width: 60, height: 45 },
        ]
    );
}

#[test]
fn platform_without_its_tile_cannot_be_placed() {
    let platform = Platform::new(Sheet::new(), Point { x: 0, y: 0 });
    assert!(!platform.can_place());
    let mut wide = Sheet::new();
    wide.insert(
        "13.png".to_string(),
        Cell { frame: rect(0, 0, 11000, 10), sprite_source_size: rect(0, 0, 1, 1) },
    );
    assert!(!Platform::new(wide, Point { x: 0, y: 0 }).can_place());
}

#[test]
fn long_game_with_platform_landings_never_overflows() {
    let events = [
        Event::Run,
        Event::Jump,
        Event::Update,
        Event::Land(420),
        Event::Slide,
        Event::Update,
        Event::Jump,
        Event::Land(375),
        Event::KnockOut,
        Event::Update,
    ];
    let mut m = start();
    let mut seed: u32 = 12345;
    for _ in 0..5000 {
        seed = seed.wrapping_mul(1103515245).wrapping_add(12345);
        let event = events[(seed >> 16) as usize % events.len()];
        assert!(m.accepts(event));
        m = m.transition(event);
        let (frame, _, y, vx, vy) = ctx(&m);
        assert!((-25..=20).contains(&vy));
        assert!(vx == 0 || vx == 4);
        assert!(frame <= 35);
        assert!(y >= 375 - 121 - 600);
        if matches!(m, RedHatBoyStateMachine::KnockedOut(_)) {
            assert_eq!(frame, 29);
            m = start();
        }
    }
}
