# gpui_android

An Android backend for GPUI, with its decisions verified by Verus.

`src/` is the verified library. It works on plain values: coordinates are the bit
patterns of single-precision numbers, and clocks are nanosecond counts.

- `geometry`: numbers by their bit patterns, points, sizes, edges
- `input`: the input events that a window is handed
- `velocity`: the samples of a touch, and when a movement is a fling
- `touch`: taps, long presses, scrolls and momentum
- `keyboard`: key names, modifiers, key maps and typed text
- `ime`: the queue of the input method's edits, and the calls to its editor
- `insets`: what system bars and the soft keyboard cover
- `callback`: callbacks that may be replaced while they run
- `window`: the state of a window and the soft keyboard
- `display`: the one display of the device

`app/` is the rest: GPUI's traits, the activity, the JVM, the renderer, the clock and
floating-point arithmetic. `tests/` runs the library.
