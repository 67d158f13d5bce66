# color_clicker

A floating box that watches the screen region under it and clicks there
when enough blue is seen.

- `src/` is the verified library (Verus): colour analysis (`color`), cutting
  the detection region out of a screen image (`screen`), the settings
  (`config`), finding the detector's own window in the window tree
  (`window`), the icon decoder (`icon`) and the detector's state and
  decisions (`app`).
- `app/` is the program around it: the egui window, screen capture, mouse
  clicks, the settings file and the window manager calls.
- `tests/` exercises the library on concrete values.
