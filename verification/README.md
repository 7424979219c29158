# dsh_frontend

A textmode (CP437, 100 × 28 cells) frontend for a D&D-style RPG: scene navigation,
the character grid, and the glyph atlas and mesh layout its renderer needs.

- `src/` is the library, verified with Verus:
  - `input`: keys pressed in a frame → one navigation action.
  - `pixel_ui`, `ui`: the scenes, their menus, highlight movement, Enter / number /
    Escape targets, and the text of menu and status lines.
  - `navigation`: one action applied to the scene on screen and the highlight, with
    the laws that every scene is reachable and the highlight stays in its menu.
  - `cp437`, `cp437_grid`, `grid_laws`: character-to-CP437 conversion and the cell grid
    with its drawing operations (text, boxes, bars, selection rows).
  - `batched_renderer`, `atlas`: cell rectangles, atlas tiles, quad indices and the
    RGBA atlas built from the VGA 8 × 16 face.
- `app/` is the bevy program around it: window setup, keyboard polling, spawning UI
  nodes and meshes, and the floating-point layout and colours.
- `tests/` runs the library on concrete inputs.
