use vstd::prelude::*;

verus! {

/// The input box at the bottom of the chat: its screen bounds, recorded at
/// render time for hit-testing, and its selection mark. The text being
/// edited lives in the terminal collaborator's editor widget.
#[derive(Clone, Copy, Debug)]
pub struct TextArea {
    pub is_selected: bool,
    pub x: u16,
    pub y: u16,
    pub height: u16,
    pub width: u16,
}

impl Default for TextArea {
    /// A fresh input box: unselected, with empty bounds.
    fn default() -> (r: TextArea)
        ensures
            r == (TextArea { is_selected: false, x: 0, y: 0, height: 0, width: 0 }),
    {
        TextArea { is_selected: false, x: 0, y: 0, height: 0, width: 0 }
    }
}

impl TextArea {
    /// The screen point lies inside the input box's bounds.
    pub open spec fn spec_within(self, x: int, y: int) -> bool {
        &&& self.x <= x < self.x + self.width
        &&& self.y <= y < self.y + self.height
    }

    /// Hit-test a screen coordinate against the recorded bounds.
    pub fn is_within(&self, x: u16, y: u16) -> (r: bool)
        ensures
            r == self.spec_within(x as int, y as int),
    {
        let within_x = x >= self.x && (x as u32) < self.x as u32 + self.width as u32;
        let within_y = y >= self.y && (y as u32) < self.y as u32 + self.height as u32;
        within_x && within_y
    }

    /// Record the bounds the input box was rendered at this frame.
    pub fn set_bounds(&mut self, x: u16, y: u16, width: u16, height: u16)
        ensures
            *final(self) == (TextArea { is_selected: old(self).is_selected, x, y, width, height }),
    {
        self.x = x;
        self.y = y;
        self.width = width;
        self.height = height;
    }
}

} // verus!
