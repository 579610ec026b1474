use vstd::prelude::*;

verus! {

/// Per-window platform setup. On platforms that stack new windows on top of
/// each other, initializing a window asks the embedding program to cascade
/// it from the main window once.
#[derive(Debug)]
pub struct MultiWindowPlatform {
    window_id: u64,
    cascade_pending: bool,
}

impl MultiWindowPlatform {
    /// The window being set up.
    pub closed spec fn spec_window_id(&self) -> u64 {
        self.window_id
    }

    pub fn window_id(&self) -> (r: u64)
        ensures
            r == self.spec_window_id(),
    {
        self.window_id
    }

    /// Whether a cascade has been asked for and not yet taken.
    pub closed spec fn spec_cascade_pending(&self) -> bool {
        self.cascade_pending
    }

    pub fn new(window_id: u64) -> (r: Self)
        ensures
            r.spec_window_id() == window_id,
            !r.spec_cascade_pending(),
    {
        MultiWindowPlatform { window_id, cascade_pending: false }
    }

    /// Asks for the window to be cascaded.
    pub fn initialize(&mut self)
        ensures
            final(self).spec_window_id() == old(self).spec_window_id(),
            final(self).spec_cascade_pending(),
    {
        self.cascade_pending = true;
    }

    /// Takes the cascade request, if there is one: it is handed out once.
    pub fn take_cascade_request(&mut self) -> (r: bool)
        ensures
            r == old(self).spec_cascade_pending(),
            !final(self).spec_cascade_pending(),
            final(self).spec_window_id() == old(self).spec_window_id(),
    {
        let r = self.cascade_pending;
        self.cascade_pending = false;
        r
    }
}

} // verus!
