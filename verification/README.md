# breakout

The rules of a Breakout game as a Verus-verified library, with the Bevy/Avian
program around it.

- `src/game_state.rs`: the run's state machine (screen, pause, outcome), score,
  lives and the physics clock, with the laws every step keeps.
- `src/layout.rs`: the playfield geometry in whole pixels: walls, brick field,
  start positions, paddle force.
- `src/hud.rs`: the score and lives lines and the overlay message.
- `src/spawner.rs`: a timed, weighted random spawner.
- `src/powerups/`: power-up drops, timed effects and the Super-Sizer.
- `src/timer.rs`: the one-shot countdown timer the effects and the spawner use.
- `src/random.rs`: the random draws, taken from `rand`.
- `app/`: the Bevy program: bodies, input, physics, display.

Times are in nanoseconds and lengths in pixels; the engine converts to and
from its floating-point types at the edge.
