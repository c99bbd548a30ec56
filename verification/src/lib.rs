//! Window and shell bookkeeping for the Noctura Wayland compositor.
//!
//! The verified part of the compositor: the windows it tracks, the cursor
//! mode, the choice of log line for a message, and the decision of what the
//! main loop does with each backend event.

pub mod window;
pub mod compositor;
pub mod logging;
pub mod event;
