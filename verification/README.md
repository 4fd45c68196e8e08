# clicker

A Windows auto clicker built for user-mode throughput, with a neumorphic
Direct2D interface, whose decision-making core is a Verus-verified library.

- `src/` is the library, verified by Verus: the click scheduler and the
  engine loop's step functions (what each iteration does and what the sink's
  answer changes), the tiered wait policy, the recording and probing sinks,
  input-event construction, cpu-set parsing and selection, profile
  sanitising and load decisions, and the interface's state model (widget
  states, focus ring, key and pointer handling, rate values, window-shell hit
  regions). The engine loop itself is specified by the trace of its
  iterations. The values in the shared control block live in atomics shared
  between threads, which no contract here describes; code touching them is
  checked for freedom from panics and overflow.
- `app/` is the Windows host program around it: threads, Win32 and Direct2D
  calls, the profile file and its JSON, and the floating-point presentation
  maths. It runs the interface by default and the measurement harness with
  the argument `bench`.
- `tests/` exercises the library from outside, in virtual time.

F8 is the emergency stop: it clears the running flag directly on the shared
control block, and the engine refuses to start if the key cannot be
registered.
