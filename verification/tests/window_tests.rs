use noctura::window::{Window, WindowState};

#[test]
fn new_window_starts_unmapped_and_normal() {
    let w = Window::new(640, 480, 3, String::from("terminal"));
    assert!(!w.mapped());
    assert!(!w.grabbed());
    assert!(!w.resize());
    assert_eq!(w.condition(), WindowState::NORMAL);
}

#[test]
fn new_window_keeps_size_in_x_y_order() {
    let w = Window::new(640, 480, 3, String::from("terminal"));
    assert_eq!(w.size(), (640, 480));
    assert_ne!(w.size(), (480, 640));
}

#[test]
fn new_window_keeps_id_and_name() {
    let w = Window::new(1, 2, 42, String::from("weston-terminal"));
    assert_eq!(w.id(), 42);
    assert_eq!(w.name(), "weston-terminal");
}

#[test]
fn new_window_accepts_extreme_values() {
    let w = Window::new(0, u32::MAX, u32::MAX, String::new());
    assert_eq!(w.size(), (0, u32::MAX));
    assert_eq!(w.id(), u32::MAX);
    assert_eq!(w.name(), "");
}

#[test]
fn windows_in_a_compositor_stay_settled() {
    let mut s = noctura::compositor::CompositorState::new();
    s.add_window(5, 6, 1, String::from("a"));
    s.add_window(7, 8, 2, String::from("b"));
    for w in s.windows.iter() {
        assert!(!w.mapped() && !w.grabbed() && !w.resize());
        assert_eq!(w.condition(), WindowState::NORMAL);
    }
}
