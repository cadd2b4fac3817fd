# walk_the_dog

The game logic of "Walk the Dog", a side-scroller in which a red hat boy
runs, jumps, slides and falls, written in Verus and proved against its
contracts.

- `src/states.rs`: the boy's typestates (`Idle`, `Running`, `Jumping`,
  `Sliding`, `Falling`, `KnockedOut`), the context each one carries, and the
  moves between them.
- `src/machine.rs`: the state machine over those typestates and the
  transition table it follows (`step`).
- `src/laws.rs`: what is proved of the machine beyond single transitions:
  every reachable state is consistent, the knocked-out state is final, falls
  and slides run out, a jump from the floor lasts fifty ticks, and a game
  whose landings stay within reach never overflows.
- `src/boy.rs`: the boy with his sprite sheet: sprite names, sprite lookup,
  the boxes in which he is drawn and hit.
- `src/platform.rs`: a platform and its three collision boxes.
- `src/sheet.rs`, `src/geometry.rs`: sprite sheets, points and boxes.
- `app/`: the browser side (loading assets, drawing, the game loop), which
  uses the project's `engine` and `browser` modules.
- `tests/`: tests of the library on concrete values.
