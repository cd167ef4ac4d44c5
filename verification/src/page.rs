use vstd::prelude::*;

verus! {

/// Which screen the application shows: the mode menu or one of the chat
/// views.
#[derive(Clone, Copy, Debug, PartialEq, Eq, Structural)]
pub enum Page {
    Modes,
    DebugChat,
    DefaultChat,
}

impl Default for Page {
    /// The application starts on the mode menu.
    fn default() -> (r: Page)
        ensures
            r == Page::Modes,
    {
        Page::Modes
    }
}

} // verus!
