# gol

A Game of Life that runs on the GPU, with its decisions verified by Verus.

- `src/seed.rs`: the initial RGBA board with its seed pattern.
- `src/controller.rs`: the state machine that answers window events with actions.
- `src/laws.rs`: properties of the controller and of the seed, proved.
- `app/main.rs`: the window (winit), the GPU work (wgpu) and the event loop. The
  WGSL shaders `gol_shader.wgsl` and `blit_shader.wgsl` are read at start-up from
  the working directory.
