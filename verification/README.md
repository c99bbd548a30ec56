# noctura

Window and shell bookkeeping of the Noctura Wayland compositor, verified with Verus.

- `src/window.rs`: windows and their initial state.
- `src/compositor.rs`: the shell state (cursor mode, tracked windows) and the law that windows keep insertion order.
- `src/logging.rs`: which line, and which stream, a log message of a given level becomes.
- `src/event.rs`: what the main loop does with each backend event.
- `app/`: the compositor program on top of smithay (display, seat, winit backend, rendering, I/O).
