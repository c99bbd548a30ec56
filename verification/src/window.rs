use vstd::prelude::*;

verus! {

/// How a window is shown on the output.
#[allow(non_camel_case_types)]
#[derive(Clone, Copy, Debug, PartialEq, Eq, Structural)]
pub enum WindowState {
    FULLSCREEN,
    MINIMIZE,
    NORMAL,
}

/// The abstract value of a [`Window`]: every field as a plain value.
pub struct WindowView {
    pub mapped: bool,
    pub grabbed: bool,
    pub resize: bool,
    pub size: (u32, u32),
    pub condition: WindowState,
    pub id: u32,
    pub name: Seq<char>,
}

/// A window that the compositor tracks.
pub struct Window {
    mapped: bool,
    grabbed: bool,
    resize: bool,
    /// Width and height, in the x, y order used throughout the compositor.
    size: (u32, u32),
    condition: WindowState,
    id: u32,
    name: String,
}

impl Window {
    /// Nothing in the library maps, grabs, resizes or changes the state of a
    /// window after [`Window::new`] built it, so every window stays unmapped,
    /// ungrabbed, not resizing and in the normal state.
    #[verifier::type_invariant]
    spec fn settled(self) -> bool {
        &&& !self.mapped
        &&& !self.grabbed
        &&& !self.resize
        &&& self.condition == WindowState::NORMAL
    }
}

impl View for Window {
    type V = WindowView;

    closed spec fn view(&self) -> WindowView {
        WindowView {
            mapped: self.mapped,
            grabbed: self.grabbed,
            resize: self.resize,
            size: self.size,
            condition: self.condition,
            id: self.id,
            name: self.name@,
        }
    }
}

/// The window that [`Window::new`] builds from its arguments: not mapped, not
/// grabbed, not being resized, in the normal state.
pub open spec fn fresh_window(x: u32, y: u32, id: u32, name: Seq<char>) -> WindowView {
    WindowView {
        mapped: false,
        grabbed: false,
        resize: false,
        size: (x, y),
        condition: WindowState::NORMAL,
        id,
        name,
    }
}

/// A window built from `(x, y, id, name)` keeps exactly that size, id and
/// full name, and starts unmapped, ungrabbed, not resizing and normal.
pub proof fn fresh_window_keeps_arguments(x: u32, y: u32, id: u32, name: Seq<char>)
    ensures
        fresh_window(x, y, id, name).size == (x, y),
        fresh_window(x, y, id, name).size.0 == x,
        fresh_window(x, y, id, name).size.1 == y,
        fresh_window(x, y, id, name).id == id,
        fresh_window(x, y, id, name).name == name,
        fresh_window(x, y, id, name).name.len() == name.len(),
        !fresh_window(x, y, id, name).mapped,
        !fresh_window(x, y, id, name).grabbed,
        !fresh_window(x, y, id, name).resize,
        fresh_window(x, y, id, name).condition == WindowState::NORMAL,
{
}

/// Two windows built from different arguments differ: no two sizes, ids or
/// names are folded together.
pub proof fn fresh_window_injective(
    x1: u32, y1: u32, id1: u32, name1: Seq<char>,
    x2: u32, y2: u32, id2: u32, name2: Seq<char>,
)
    ensures
        fresh_window(x1, y1, id1, name1) == fresh_window(x2, y2, id2, name2)
            <==> (x1 == x2 && y1 == y2 && id1 == id2 && name1 == name2),
{
}

impl Window {
    /// A new window of size `(x, y)` with the given id and name. It starts
    /// unmapped, ungrabbed, not resizing and in the normal state.
    pub fn new(x: u32, y: u32, id: u32, name: String) -> (w: Window)
        ensures
            w@ == fresh_window(x, y, id, name@),
            w@.size == (x, y),
            w@.id == id,
            w@.name == name@,
            !w@.mapped,
            !w@.grabbed,
            !w@.resize,
            w@.condition == WindowState::NORMAL,
    {
        Window {
            mapped: false,
            grabbed: false,
            resize: false,
            size: (x, y),
            condition: WindowState::NORMAL,
            id: id,
            name: name,
        }
    }

    /// Whether the window is mapped on the output.
    pub fn mapped(&self) -> (r: bool)
        ensures
            r == self@.mapped,
            !r,
    {
        proof {
            use_type_invariant(self);
        }
        self.mapped
    }

    /// Whether the window is grabbed by the pointer.
    pub fn grabbed(&self) -> (r: bool)
        ensures
            r == self@.grabbed,
            !r,
    {
        proof {
            use_type_invariant(self);
        }
        self.grabbed
    }

    /// Whether the window is being resized.
    pub fn resize(&self) -> (r: bool)
        ensures
            r == self@.resize,
            !r,
    {
        proof {
            use_type_invariant(self);
        }
        self.resize
    }

    /// Width and height of the window.
    pub fn size(&self) -> (r: (u32, u32))
        ensures
            r == self@.size,
    {
        self.size
    }

    /// How the window is shown.
    pub fn condition(&self) -> (r: WindowState)
        ensures
            r == self@.condition,
            r == WindowState::NORMAL,
    {
        proof {
            use_type_invariant(self);
        }
        self.condition
    }

    /// The window's id.
    pub fn id(&self) -> (r: u32)
        ensures
            r == self@.id,
    {
        self.id
    }

    /// The window's name.
    pub fn name(&self) -> (r: &str)
        ensures
            r@ == self@.name,
    {
        self.name.as_str()
    }
}

} // verus!
