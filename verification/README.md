# physics_sandbox

Verified decision logic of a small 2D physics sandbox built on bevy.

* `src/` (verified with Verus): the keyboard/mouse control state machine
  (`controls`), the per-frame order of the physics stages (`schedule`), and
  the layout of the initial scene and of the explosion ring (`scene`).
* `app/`: the bevy program (the sandbox, and the chapter demos selected by a
  command-line argument). The simulation itself works on `f32` vectors and
  stays there; it takes its gravity, stage order and layouts from the library.
* `tests/`: tests of the library on concrete values.
