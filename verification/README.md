# planet_controller

Verified decision logic for a third-person character that walks on small
planets with their own gravity fields.

- `src/` — the library, verified with Verus:
  - `gravity`: which touched gravity field governs a body;
  - `input`: keyboard keys to a movement intent;
  - `grounding`: when a character counts as grounded;
  - `movement`: answers to move and jump events, with the turn-around window;
  - `collision`: which contact pairs a kinematic character resolves, and how
    its velocity is corrected;
  - `level`: what each node of a level file spawns, warns about, or fails on.
- `tests/` — tests of the library on concrete values.
- `app/` — the game itself (Bevy and Avian), which does the floating-point
  geometry and the engine work and asks the library for each decision.
