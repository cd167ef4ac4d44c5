use vstd::prelude::*;
use crate::utils::{get_height, get_longest_string, longest_line_len, spec_height};

verus! {

/// Rows a message block occupies beyond its text lines: its border padding.
pub const OFFSET: usize = 2;

/// Who authored a message. The role affects presentation and the label the
/// generation request carries for it.
#[derive(Clone, Copy, Debug, PartialEq, Eq, Structural)]
pub enum Role {
    System,
    User,
    Assistant,
}

impl Role {
    /// The label the backend expects for this role.
    pub open spec fn spec_label(self) -> Seq<char> {
        match self {
            Role::System => "system"@,
            Role::User => "user"@,
            Role::Assistant => "assistant"@,
        }
    }

    /// The backend's lower-case vocabulary for this role.
    pub fn to_lower_string(self) -> (r: String)
        ensures
            r@ == self.spec_label(),
    {
        match self {
            Role::System => "system".to_owned(),
            Role::User => "user".to_owned(),
            Role::Assistant => "assistant".to_owned(),
        }
    }
}

impl Default for Role {
    fn default() -> (r: Role)
        ensures
            r == Role::System,
    {
        Role::System
    }
}

/// One block of the conversation: its text, the height derived from that
/// text, its horizontal scroll state and its per-frame render hints.
#[derive(Debug)]
pub struct Message {
    /// Stable ordinal assigned at creation; equals the message's position in
    /// the store, which never removes or reorders messages.
    pub id: usize,
    pub role: Role,
    pub is_selected: bool,
    pub text: String,
    /// Rows this message occupies in content space; always derived from
    /// `text`.
    pub height: u16,
    /// Horizontal scroll position.
    pub scroll_state: usize,
    /// Horizontal scroll area.
    pub scroll_area: usize,
    /// Per-frame hint: leading lines the renderer must not draw.
    pub skip_lines: u16,
}

impl Message {
    /// A message's stored height always matches the height derived from its
    /// text.
    pub open spec fn wf(self) -> bool {
        self.height == spec_height(self.text@)
    }

    pub fn new(id: usize, text: String, role: Role) -> (m: Message)
        ensures
            m == (Message {
                id,
                role,
                is_selected: false,
                text: m.text,
                height: spec_height(text@) as u16,
                scroll_state: 0,
                scroll_area: 0,
                skip_lines: 0,
            }),
            m.text@ == text@,
            m.wf(),
    {
        let height = get_height(&text);
        Message { id, role, is_selected: false, text, height, scroll_state: 0, scroll_area: 0, skip_lines: 0 }
    }

    /// Derive the horizontal scroll area from the longest line against the
    /// viewport width; the scroll position itself is left untouched.
    pub fn prepare(&mut self, viewport_width: usize)
        ensures
            *final(self) == (Message { scroll_area: final(self).scroll_area, ..*old(self) }),
            final(self).scroll_area == if longest_line_len(old(self).text@) > viewport_width {
                longest_line_len(old(self).text@) - viewport_width
            } else {
                0
            },
    {
        let width = get_longest_string(&self.text);
        self.scroll_area = if width > viewport_width { width - viewport_width } else { 0 };
    }

    pub fn set_skip_lines(&mut self, skip_lines: u16)
        ensures
            *final(self) == (Message { skip_lines, ..*old(self) }),
    {
        self.skip_lines = skip_lines;
    }

    /// Scroll one column to the right, stopping at the scroll area's end.
    pub fn scroll_right(&mut self)
        ensures
            *final(self) == (Message {
                scroll_state: if old(self).scroll_state < old(self).scroll_area {
                    (old(self).scroll_state + 1) as usize
                } else {
                    old(self).scroll_state
                },
                ..*old(self)
            }),
    {
        if self.scroll_state < self.scroll_area {
            self.scroll_state = self.scroll_state + 1;
        }
    }

    /// Scroll one column to the left, stopping at zero.
    pub fn scroll_left(&mut self)
        ensures
            *final(self) == (Message {
                scroll_state: if old(self).scroll_state > 0 {
                    (old(self).scroll_state - 1) as usize
                } else {
                    0
                },
                ..*old(self)
            }),
    {
        if self.scroll_state > 0 {
            self.scroll_state = self.scroll_state - 1;
        }
    }

    /// The full top border is drawn only when no leading line is skipped,
    /// i.e. the top of the message is inside the viewport.
    pub fn shows_top_border(&self) -> (r: bool)
        ensures
            r == (self.skip_lines == 0),
    {
        self.skip_lines == 0
    }

    /// How far the paragraph is scrolled down when rendered with the current
    /// skip hint.
    pub fn paragraph_scroll(&self) -> (r: u16)
        ensures
            r == if self.skip_lines == 1 { 0u16 } else { self.skip_lines },
    {
        if self.skip_lines == 1 {
            0
        } else {
            self.skip_lines
        }
    }
}

} // verus!
