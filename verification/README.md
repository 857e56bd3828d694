# racing_engine

The core of a small 3D racing engine, verified with Verus.

- `src/` is the verified library: the entity-component world
  (`ecs::world`, `ecs::components`), the light and transform systems
  (`ecs::systems`), cube mesh data and GPU buffer bytes (`render`), the debug
  overlay's state (`ui`), the demo scene layout (`game`) and substring search
  on component names (`text`). A world can also hold component types of the
  user's own: `World<X>` keeps them in a record `X` that implements
  `ExtraComponents`, and each such type implements `Component<X>`. Real-valued quantities are stored as IEEE-754
  bit patterns (`bits`).
- `app/` is the program around it: the winit event loop, the wgpu renderer,
  kira audio, rapier physics, egui drawing, and the float math (matrices,
  normalisation, random scene placement, frame-rate averages).
- `tests/` runs the library on concrete values.
