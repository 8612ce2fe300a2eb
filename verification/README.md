# embed

The rules of a host that embeds a Masonry widget tree in a window of its own, verified with
Verus, and a small host that lives by them: a window with a turning cube, and over it a button
that turns it.

- `src/` is the library. It decides where the user interface lies, which pointer events reach
  it and in what coordinates, what becomes of keys, composed text and focus, how the host
  answers the signals of the widget tree, how the scene moves, what the shaders are told, and
  when the surface is set up and a frame is drawn. It also holds the text property
  `LineBreaking` and the view `Class`. `src/outside.rs` says what it believes of `ui_events`
  and `wgpu`.
- `tests/` runs it on concrete values.
- `app/` is the host: the window, the graphics device and the widget tree. It does what the
  library decides.

Coordinates, scales and angles are floating-point numbers in the host. The library is generic
in them: its contracts speak of what the operators return. Its laws say what that comes to
wherever the operators do what the law asks of them, and on integers.
