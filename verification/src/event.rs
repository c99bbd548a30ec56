use vstd::prelude::*;

verus! {

/// A request made to the compositor from outside its event loop.
pub enum Event {
    /// Start the program named by the string.
    Spawn(String),
}

/// Time, in milliseconds, between two runs of the backend's event dispatch.
pub const FRAME_INTERVAL_MS: u64 = 16;

/// What the windowing backend reported, as far as the main loop tells events
/// apart.
#[derive(Clone, Copy, Debug, PartialEq, Eq, Structural)]
pub enum BackendEvent {
    PointerButton,
    PointerMotionAbsolute,
    /// Scroll wheel or touchpad scrolling.
    PointerAxis,
    Keyboard,
    TouchDown,
    TouchMotion,
    TouchUp,
    TouchCancel,
    TouchFrame,
    Redraw,
    CloseRequested,
    Other,
}

/// What the main loop does in answer to one backend event.
#[derive(Clone, Copy, Debug, PartialEq, Eq, Structural)]
pub enum LoopAction {
    /// Hand the pointer button event to the seat.
    HandlePointerButton,
    /// Hand the absolute pointer motion to the seat.
    HandlePointerMotion,
    /// Hand the scroll amounts to the seat.
    HandlePointerAxis,
    /// Hand the key event to the seat.
    HandleKeyboard,
    /// Hand the new touch point to the seat.
    HandleTouchDown,
    /// Hand the touch point's new position to the seat.
    HandleTouchMotion,
    /// Tell the seat that the touch point was lifted.
    HandleTouchUp,
    /// Tell the seat that the touch sequence was cancelled.
    HandleTouchCancel,
    /// Tell the seat that a set of touch events is complete.
    HandleTouchFrame,
    /// Render the space to the output, submit the frame, send frame callbacks
    /// to the windows, refresh the space, flush the clients and ask for the
    /// next redraw.
    RenderFrame,
    /// Stop the event loop.
    Stop,
    /// Nothing to do.
    Ignore,
}

/// The action that answers each backend event.
pub open spec fn action_of(event: BackendEvent) -> LoopAction {
    match event {
        BackendEvent::PointerButton => LoopAction::HandlePointerButton,
        BackendEvent::PointerMotionAbsolute => LoopAction::HandlePointerMotion,
        BackendEvent::PointerAxis => LoopAction::HandlePointerAxis,
        BackendEvent::Keyboard => LoopAction::HandleKeyboard,
        BackendEvent::TouchDown => LoopAction::HandleTouchDown,
        BackendEvent::TouchMotion => LoopAction::HandleTouchMotion,
        BackendEvent::TouchUp => LoopAction::HandleTouchUp,
        BackendEvent::TouchCancel => LoopAction::HandleTouchCancel,
        BackendEvent::TouchFrame => LoopAction::HandleTouchFrame,
        BackendEvent::Redraw => LoopAction::RenderFrame,
        BackendEvent::CloseRequested => LoopAction::Stop,
        BackendEvent::Other => LoopAction::Ignore,
    }
}

/// Decides what the main loop does with a backend event.
pub fn action_for(event: BackendEvent) -> (a: LoopAction)
    ensures
        a == action_of(event),
{
    match event {
        BackendEvent::PointerButton => LoopAction::HandlePointerButton,
        BackendEvent::PointerMotionAbsolute => LoopAction::HandlePointerMotion,
        BackendEvent::PointerAxis => LoopAction::HandlePointerAxis,
        BackendEvent::Keyboard => LoopAction::HandleKeyboard,
        BackendEvent::TouchDown => LoopAction::HandleTouchDown,
        BackendEvent::TouchMotion => LoopAction::HandleTouchMotion,
        BackendEvent::TouchUp => LoopAction::HandleTouchUp,
        BackendEvent::TouchCancel => LoopAction::HandleTouchCancel,
        BackendEvent::TouchFrame => LoopAction::HandleTouchFrame,
        BackendEvent::Redraw => LoopAction::RenderFrame,
        BackendEvent::CloseRequested => LoopAction::Stop,
        BackendEvent::Other => LoopAction::Ignore,
    }
}

/// The loop stops on a close request and on nothing else, and it renders
/// on a redraw request and on nothing else.
pub proof fn stop_and_render_events(event: BackendEvent)
    ensures
        (action_of(event) == LoopAction::Stop) <==> (event == BackendEvent::CloseRequested),
        (action_of(event) == LoopAction::RenderFrame) <==> (event == BackendEvent::Redraw),
{
}

/// Only events of no known kind are ignored: every pointer, scroll, key and
/// touch event is handed to the seat.
pub proof fn only_unknown_events_ignored(event: BackendEvent)
    ensures
        (action_of(event) == LoopAction::Ignore) <==> (event == BackendEvent::Other),
{
}

} // verus!
