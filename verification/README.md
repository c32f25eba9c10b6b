# nbodies

The control logic of an n-body simulation viewer, verified with Verus.

`src/` is the library:

- `keys`: the key map, as the key and mouse-button codes of piston.
- `common`: directions given with the keyboard and the orientation of the
  camera, counted in angle increments.
- `control`: the edition state machine driven by keys and mouse buttons, the
  reference frame, the configuration toggled by keys, the status of a frame of
  the event loop, and the selection of the current body.
- `log`: the page shown by the logger.
- `units`: labels and powers of physical units and compound units, and the
  standard and calendar prefixes.
- `orbital`: kinds of bodies, drawn at random.

`app/` is the program: the window and its event loop, the command line, the
real-valued simulation and drawing, and the logger's text.
