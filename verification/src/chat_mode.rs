use vstd::prelude::*;

verus! {

/// The operating mode the start page offers.
#[derive(Clone, Copy, Debug, PartialEq, Eq, Structural)]
pub enum Mode {
    Default,
    Debug,
}

impl Mode {
    /// The mode after this one on the menu, wrapping around.
    pub fn next(self) -> (r: Mode)
        ensures
            r == (match self {
                Mode::Default => Mode::Debug,
                Mode::Debug => Mode::Default,
            }),
    {
        match self {
            Mode::Default => Mode::Debug,
            Mode::Debug => Mode::Default,
        }
    }

    /// The mode before this one on the menu, wrapping around.
    pub fn prev(self) -> (r: Mode)
        ensures
            r == (match self {
                Mode::Default => Mode::Debug,
                Mode::Debug => Mode::Default,
            }),
    {
        match self {
            Mode::Default => Mode::Debug,
            Mode::Debug => Mode::Default,
        }
    }

    /// The mode's menu caption.
    pub fn to_string(self) -> (r: String)
        ensures
            r@ == (match self {
                Mode::Default => "Default"@,
                Mode::Debug => "Debug"@,
            }),
    {
        match self {
            Mode::Default => "Default".to_owned(),
            Mode::Debug => "Debug".to_owned(),
        }
    }

    /// How many modes the menu offers.
    pub fn len(self) -> (r: u16)
        ensures
            r == 2,
    {
        2
    }
}

impl Default for Mode {
    fn default() -> (r: Mode)
        ensures
            r == Mode::Default,
    {
        Mode::Default
    }
}

/// The mode-selection state of the start page.
#[derive(Clone, Copy, Debug)]
pub struct ChatMode {
    pub mode: Mode,
}

impl ChatMode {
    pub fn new() -> (r: ChatMode)
        ensures
            r.mode == Mode::Default,
    {
        ChatMode { mode: Mode::Default }
    }

    pub fn set_mode(&mut self, mode: &Mode)
        ensures
            final(self).mode == *mode,
    {
        self.mode = *mode;
    }
}

} // verus!
