use vstd::prelude::*;

use crate::window::{fresh_window, Window, WindowView};

verus! {

/// What the pointer is doing to the windows.
#[allow(non_camel_case_types)]
#[derive(Clone, Copy, Debug, PartialEq, Eq, Structural)]
pub enum CursorState {
    IDLE,
    MOVING,
    RESIZING,
}

/// The abstract value of a [`CompositorState`]: the cursor mode and the
/// tracked windows, oldest first.
pub struct CompositorStateView {
    pub cursor: CursorState,
    pub windows: Seq<WindowView>,
}

/// The shell state of the compositor: the cursor mode and the windows that
/// were added, in the order in which they were added.
pub struct CompositorState {
    pub cursor_state: CursorState,
    pub windows: Vec<Window>,
}

impl View for CompositorState {
    type V = CompositorStateView;

    open spec fn view(&self) -> CompositorStateView {
        CompositorStateView {
            cursor: self.cursor_state,
            windows: self.windows@.map_values(|w: Window| w@),
        }
    }
}

impl CompositorState {
    /// A fresh shell state: the cursor is idle and no window is tracked.
    pub fn new() -> (s: CompositorState)
        ensures
            s@.cursor == CursorState::IDLE,
            s@.windows == Seq::<WindowView>::empty(),
    {
        let s = CompositorState { cursor_state: CursorState::IDLE, windows: Vec::new() };
        assert(s@.windows =~= Seq::<WindowView>::empty());
        s
    }

    /// Adds a window of size `(x, y)` with the given id and name after the
    /// windows already tracked. Nothing else changes.
    pub fn add_window(&mut self, x: u32, y: u32, id: u32, name: String)
        ensures
            final(self)@.windows == old(self)@.windows.push(fresh_window(x, y, id, name@)),
            final(self)@.cursor == old(self)@.cursor,
            final(self).windows@.subrange(0, old(self).windows@.len() as int) == old(self).windows@,
            final(self)@.windows == windows_after(old(self)@.windows, seq![(x, y, id, name@)]),
            final(self)@.windows.len() == old(self)@.windows.len() + 1,
            final(self)@.windows.last().size == (x, y),
            final(self)@.windows.last().id == id,
            final(self)@.windows.last().name == name@,
            !final(self)@.windows.last().mapped,
            !final(self)@.windows.last().grabbed,
            !final(self)@.windows.last().resize,
            final(self)@.windows.last().condition == crate::window::WindowState::NORMAL,
    {
        let ghost before = self.windows@;
        let new_win = Window::new(x, y, id, name);
        self.windows.push(new_win);
        assert(self.windows@.subrange(0, before.len() as int) =~= before);
        assert(self@.windows =~= before.map_values(|w: Window| w@).push(fresh_window(x, y, id, name@)));
        let ghost adds = seq![(x, y, id, name@)];
        assert(adds.drop_last() =~= Seq::<(u32, u32, u32, Seq<char>)>::empty());
        assert(adds.last() == (x, y, id, name@));
        assert(windows_after(before.map_values(|w: Window| w@), adds.drop_last())
            == before.map_values(|w: Window| w@));
    }
}

/// The windows that a state tracking `start` tracks after `add_window` was
/// called once for each request `(x, y, id, name)` of `adds`, in order.
pub open spec fn windows_after(
    start: Seq<WindowView>,
    adds: Seq<(u32, u32, u32, Seq<char>)>,
) -> Seq<WindowView>
    decreases adds.len(),
{
    if adds.len() == 0 {
        start
    } else {
        let last = adds.last();
        windows_after(start, adds.drop_last()).push(fresh_window(last.0, last.1, last.2, last.3))
    }
}

/// Adding windows keeps them in the order of the calls: the windows tracked
/// before stay where they were, and the `j`-th added window stands right
/// after them, at position `start.len() + j`, exactly as `Window::new` built it.
pub proof fn windows_kept_in_order(start: Seq<WindowView>, adds: Seq<(u32, u32, u32, Seq<char>)>)
    ensures
        windows_after(start, adds).len() == start.len() + adds.len(),
        forall|i: int| 0 <= i < start.len() ==> #[trigger] windows_after(start, adds)[i] == start[i],
        forall|j: int|
            0 <= j < adds.len() ==> #[trigger] windows_after(start, adds)[start.len() + j]
                == fresh_window(adds[j].0, adds[j].1, adds[j].2, adds[j].3),
    decreases adds.len(),
{
    if adds.len() > 0 {
        let prev = adds.drop_last();
        windows_kept_in_order(start, prev);
        let w = windows_after(start, adds);
        assert forall|j: int| 0 <= j < adds.len() implies #[trigger] w[start.len() + j]
            == fresh_window(adds[j].0, adds[j].1, adds[j].2, adds[j].3) by {
            if j < prev.len() {
                assert(prev[j] == adds[j]);
                assert(w[start.len() + j] == windows_after(start, prev)[start.len() + j]);
            }
        }
        assert forall|i: int| 0 <= i < start.len() implies #[trigger] w[i] == start[i] by {
            assert(w[i] == windows_after(start, prev)[i]);
        }
    }
}

} // verus!
