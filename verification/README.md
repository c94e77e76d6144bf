# egui_styled

A styling layer for egui: a style bag shared by every styled widget and
container, with pseudo-state (hover, pressed, focus) resolution, per-side
borders, gradient fills, inner glows, background images and text effects.

## Layout

- `src/` is the verified library (Verus). It holds the style bag
  (`SharedStyle`), its builders, the resolution rules for every interaction
  state, what a resolved style writes into egui's visuals and paints on top
  of a widget, the frame, area and stack layout decisions, the index topology
  of the ring meshes, and the text-effect stacking order. Each public function
  carries a contract; `src/style/laws.rs` states the properties that span
  several fields, states or functions.
- `app/` is the rendering layer in plain Rust: the widget and container
  builders with `show(ui)`, floating-point sizing and geometry, gradient
  textures and meshes, glyph stamping, and everything that reads or writes
  egui's `Ui`, `Context` and memory.
- `tests/` exercises the library on concrete values.
