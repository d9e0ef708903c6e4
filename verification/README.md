# bgui

A small widget-based GUI on top of winit, wgpu and wgpu_glyph.

- `src/` is the verified library: the window builder and the settings a
  window is opened with, the answer to each window event, the choice of the
  widgets a click activates, and the split of a rectangle into triangles.
- `app/` is the windowing and GPU side: it opens the window, draws the
  widgets, and carries out what the library decides for each event.
- `tests/` runs the library on concrete values.
