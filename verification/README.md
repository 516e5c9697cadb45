# beby_rogue_like

The rules of a small arena survival game, verified with Verus, and the Bevy
game built on them.

- `src/` is the verified library: weapons and their attacks (`weapon`), the
  player's arsenal and weapon pickups (`arsenal`), projectile hits
  (`projectile`), enemy kinds, stats and spawns (`enemy`), waves and the boss
  (`wave`), drops (`pickup`), the screen flow, score and run result (`run`),
  the screens' text and input (`screens`, `lang`, `text`, `input`), sprite
  files (`assets`) and random draws (`rng`, over `rand`).
- `app/` is the Bevy program: rendering, input devices, timers, movement and
  collision geometry on floats, all calling the library for the rules.
- `tests/` runs the library on concrete values.
