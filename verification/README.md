# agpu core

The decision-making core of the agpu GUI toolkit, written in Verus: every
function in `src/` carries a contract that Verus proves, with one
exception: `CancellationToken`'s `new`, `is_cancelled` and `cancel` have
none, because their flag is a shared atomic whose contents Verus cannot
describe without tracked ghost state.

- `src/` — the verified library: key modifiers, key codes and their JSON
  form, hit testing, compute dispatch and tasks, routing, grid placement,
  theme selection, GPU adapter fallback decisions, triangle indices of the
  rendered shapes, UTF-8 byte offsets and
  text editing, widget state, and how widgets, compute tasks, GPU contexts
  and resources describe themselves to an agent and answer its actions.
  Calls into `serde_json` go through small trusted wrappers in
  `src/ontology/json.rs`; two `String` methods get their contracts in
  `src/text.rs`.
- `tests/` — tests of the library, run against the real `serde_json`.
- `app/` — the floating-point and GPU side: geometry, painting, the wgpu
  device and renderers, glyphon text, winit events, layouts, animations,
  themes, 3D scenes and widget drawing. It calls the library for every
  decision listed above.
