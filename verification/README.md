# input_state

The input of a graphical user interface, gathered frame by frame and proved with Verus.

A backend hands over what happened since the last frame. `InputState` takes it in and answers
what a widget wants to know: which keys are down and which shortcuts were pressed, whether a press
of the pointer has become a click, a double click, a drag or a long press, how far the user scrolls
and zooms, which fingers touch, and how soon the next frame is due.

- `src/` is the library. Every function states in its contract what it returns or changes.
  - `input` holds `InputState`, `pointer` holds `PointerState`.
  - `event_list`, `scroll`, `touch` and `devices` each take in the events of a frame for one purpose.
  - `data`, `modifiers`, `keys`, `options`, `history`, `geometry`, `fixed` and `time` hold the values.
  - `ui` describes what an inspector shows and the form in which the options are changed.
  - `laws` states what holds from frame to frame, and proves it from the contracts.
- `tests/` runs the library on concrete input.
- `app/` is the same input state for programs that count in floating point.

## Numbers

Verus does not reason about floating point, so the library counts in integers. A length or a factor
is a `Fixed`: a multiple of `2^-32`, which holds every `f32` between `2^-8` and `2^31` in magnitude
exactly; what lies below `2^-32` is dropped. Times and spans are nanoseconds. Sums and products saturate, and the ends of a range stand
for the infinities. The two functions of a frame that have no counterpart in integers, the
exponential and the smoothing factor of a span, are handed to `InputState::begin_pass` by the
caller.

A multi-touch gesture is recognised by trigonometry. The caller of `begin_pass` hands the gestures
of a frame over as well; the library follows the fingers, and decides which gesture counts.
