# penteract

The discrete core of a terminal viewer for the 5-cube (penteract), verified with Verus.

- `src/geometry.rs`: the 32 vertices (coordinates ±1 by the bits of the vertex index) and the
  80 edges (pairs of vertices that differ in one coordinate), with proofs that the vertices
  are distinct and that every vertex has exactly five neighbours.
- `src/rotation.rs`: the ten coordinate planes of 5-space, their axis pairs and labels.
- `src/app.rs`, `src/input.rs`: the control state (selected plane, auto-rotation, running)
  and what each key does to it.
- `src/theme.rs`, `src/hud.rs`: the colour palette, text styles and side-panel rows.
- `app/`: the terminal program around the library: floating-point rotation matrices and
  perspective projection (nalgebra), rendering (ratatui) and key input (crossterm).
