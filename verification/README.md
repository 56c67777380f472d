# infwinity

The verified core of Infwinity, a Wayland compositor whose outputs look onto an infinite
canvas centered in the middle of the positive `i32` range.

- `src/` (Verus): canvas coordinates (`util`), the geometry the compositor computes with
  (`geometry`), where outputs and windows are mapped on the canvas and how the canvas pans
  after each frame (`lib.rs`), and the compositor's answer to each event of its winit
  backend (`backends/winit.rs`).
- `app/`: the program around it, built on smithay: the Wayland display, socket, protocol
  handlers, the winit window and renderer, and the event loop that performs what the
  library decides.
- `tests/`: tests of the library on concrete values.
