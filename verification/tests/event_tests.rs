use noctura::event::{action_for, BackendEvent, Event, LoopAction, FRAME_INTERVAL_MS};

#[test]
fn each_event_has_its_action() {
    assert_eq!(action_for(BackendEvent::PointerButton), LoopAction::HandlePointerButton);
    assert_eq!(action_for(BackendEvent::PointerMotionAbsolute), LoopAction::HandlePointerMotion);
    assert_eq!(action_for(BackendEvent::PointerAxis), LoopAction::HandlePointerAxis);
    assert_eq!(action_for(BackendEvent::Keyboard), LoopAction::HandleKeyboard);
    assert_eq!(action_for(BackendEvent::TouchDown), LoopAction::HandleTouchDown);
    assert_eq!(action_for(BackendEvent::TouchMotion), LoopAction::HandleTouchMotion);
    assert_eq!(action_for(BackendEvent::TouchUp), LoopAction::HandleTouchUp);
    assert_eq!(action_for(BackendEvent::TouchCancel), LoopAction::HandleTouchCancel);
    assert_eq!(action_for(BackendEvent::TouchFrame), LoopAction::HandleTouchFrame);
    assert_eq!(action_for(BackendEvent::Redraw), LoopAction::RenderFrame);
    assert_eq!(action_for(BackendEvent::CloseRequested), LoopAction::Stop);
    assert_eq!(action_for(BackendEvent::Other), LoopAction::Ignore);
}

#[test]
fn only_close_request_stops() {
    let all = [
        BackendEvent::PointerButton,
        BackendEvent::PointerMotionAbsolute,
        BackendEvent::PointerAxis,
        BackendEvent::Keyboard,
        BackendEvent::TouchDown,
        BackendEvent::TouchMotion,
        BackendEvent::TouchUp,
        BackendEvent::TouchCancel,
        BackendEvent::TouchFrame,
        BackendEvent::Redraw,
        BackendEvent::CloseRequested,
        BackendEvent::Other,
    ];
    for e in all {
        assert_eq!(action_for(e) == LoopAction::Stop, e == BackendEvent::CloseRequested);
        assert_eq!(action_for(e) == LoopAction::RenderFrame, e == BackendEvent::Redraw);
        assert_eq!(action_for(e) == LoopAction::Ignore, e == BackendEvent::Other);
    }
}

#[test]
fn frame_interval_is_sixteen_ms() {
    assert_eq!(FRAME_INTERVAL_MS, 16);
}

#[test]
fn spawn_event_carries_program() {
    let e = Event::Spawn(String::from("weston-terminal"));
    match e {
        Event::Spawn(p) => assert_eq!(p, "weston-terminal"),
    }
}
