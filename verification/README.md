# sickle_ui (verified widget logic)

The decisions behind a few Bevy UI widgets, written in Verus and proved
against their contracts:

- `src/panel_stack.rs`: stacking indices of floating panels: indexing new
  panels, raising panels dragged by their title bar, renumbering the stack,
  and the global index a panel is drawn with. Laws: renumbering gives
  distinct indices in `base+1 ..= base+n`, keeps the order, is idempotent; the
  last panel dragged comes to the front; new panels go on top.
- `src/floating_panel.rs`: resize handles (direction, cursor, size and
  position effect, layout), the cursor state machine over pointer events, and
  which child nodes a panel's configuration calls for.
- `src/hierarchy.rs`: selection and highlighting in the hierarchy browser,
  foldable refresh decisions, node labels.
- `src/button.rs`: the checkbox button's sub-node lookup, toggling and name.
- `src/interaction.rs`, `src/count.rs`: pointer/drag states; counting lemmas.

`app/` holds the Bevy plugins, components, bundles and systems that read the
ECS, call the library and write its decisions back. Entities cross into the
library as their 64-bit ids.
