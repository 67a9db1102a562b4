# eaglemode

A verified library of the model-level logic of an Eagle Mode style zoomable
user interface, written in Verus.

- `autoplay` — the autoplay duration scale (value ↔ milliseconds, with the
  monotonicity and round-trip laws) and the autoplay control panel's buttons.
- `stocks`, `record` — interest levels, stock records and the record
  structures they are read from and written to (write/read round trip).
- `model` — configuration model with dirty flag (tied to the calls made on
  it), context tree with handle release, the two file model state machines,
  watched variables and a resource cache that drops what no one holds.
- `fileman_panel` — the decisions of the file manager control panel: input
  dispatch order, widget captions, the action for each widget, and widget
  state from settings.
- `foundation`, `render`, `widget` — colors, images, the software compositor
  (clear, then one paint call), border label state and text labels.
- `emmain`, `text` — single-instance server naming and text helpers.

`app/` holds the program entry: it reads the environment and the host name
file, and converts loading progress between percentages (`f64`) and the bit
patterns the library holds.
