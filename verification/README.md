# homie

The verified core of an animated desktop companion that runs across the
screen and reacts to clicks.

- `src/` is the library, verified with Verus: animation states and the
  animation state machine (`state`, `animation`), configuration and command
  line merging (`config`, `parse`), sprite path expansion (`env`, `text`),
  GIF frame preparation (`gif`), movement and bounds checks (`motion`), and
  the error type (`error`).
- `app/` is the GTK program around it: command line parsing, the
  configuration file, reading sprite files, the window, timers and input.
- `tests/` runs the library on concrete values.
