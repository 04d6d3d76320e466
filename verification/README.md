# servo_ui

Verified decisions of a few Servo pieces, written in Verus.

- `src/scrollbar.rs`: the gutter a scroll container reserves for classic
  scrollbars, from its effective overflow, the scrollbar size (app units) and
  the policy for `overflow: auto`, with the laws relating the two policies.
- `src/range_input.rs`: `<input type=range>` as a state machine: pointer
  dragging (press, move, release, cancel), keyboard bindings, the outcome
  (`input` / `change`) of each user event, and when the thumb is measured.
- `src/step_format.rs`: the decimal precision of a step, from its textual
  representation.
- `src/unity_smoke.rs`: the `unity://` smoke handler's response.

`app/` holds the Servo side: it reads styles and the DOM, performs what the
library decides, and keeps the floating-point arithmetic (value sanitizing,
the value under the pointer, thumb positioning), which Verus does not take.
