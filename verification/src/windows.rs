use vstd::prelude::*;

verus! {

/// Whether a group of windows is on screen, so that ordering them in and out
/// happens only when it changes something.
#[derive(Debug, Clone, Copy, PartialEq, Eq, Structural)]
pub struct Visibility {
    visible: bool,
}

impl View for Visibility {
    type V = bool;

    closed spec fn view(&self) -> bool {
        self.visible
    }
}

impl Visibility {
    /// Windows start off screen.
    pub fn new() -> (v: Self)
        ensures
            !v@,
    {
        Visibility { visible: false }
    }

    pub fn is_visible(&self) -> (visible: bool)
        ensures
            visible == self@,
    {
        self.visible
    }

    /// Records that the windows are shown; returns whether they were hidden,
    /// that is, whether they still have to be brought on screen.
    pub fn set_shown(&mut self) -> (was_hidden: bool)
        ensures
            final(self)@,
            was_hidden == !old(self)@,
    {
        let was_hidden = !self.visible;
        self.visible = true;
        was_hidden
    }

    /// Records that the windows are hidden; returns whether they were shown,
    /// that is, whether they still have to be ordered out.
    pub fn set_hidden(&mut self) -> (was_visible: bool)
        ensures
            !final(self)@,
            was_visible == old(self)@,
    {
        let was_visible = self.visible;
        self.visible = false;
        was_visible
    }
}

} // verus!
