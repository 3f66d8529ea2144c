# globe

A WebGL viewer that shows monthly climate data on a rotating globe.

- `src/` is the verified library (Verus):
  - `playback`: the pause flag and the shown frame, driven by the
    play/pause and skip buttons, the slider and the render loop;
  - `gradient`: the 256-entry colour gradient uploaded as a texture, and
    its byte layout;
  - `grid`: which height-grid points a grid normal is computed from.
- `app/` is the browser side: WebGL set-up and drawing helpers, DOM event
  handlers, the shared state behind locks, and the floating-point
  geometry (matrices, normals, mouse rotation, zoom).
- `tests/` runs the library on concrete values.
