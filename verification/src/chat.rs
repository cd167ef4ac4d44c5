use vstd::prelude::*;
use vstd::string::StringExecFns;
use crate::clip::{cap_add, clip_matches, sat_add, top_of_heights, ClipRect};
use crate::message::{Message, Role, OFFSET};
use crate::textarea::TextArea;
use crate::utils::spec_height;

verus! {

/// Lines of margin at the viewport edges at which the scroll-follow rule
/// shifts the selection to a neighbouring message.
pub const MARGIN: usize = 1;

/// The single item the chat tracks as selected: nothing, the input box, or
/// the message at a store position. All selection changes go through
/// explicit transitions on [`Chat`], never through ad hoc flags.
#[derive(Clone, Copy, Debug, PartialEq, Eq, Structural)]
pub enum Selection {
    Unselected,
    InputBox,
    MessageAt(usize),
}

/// One entry of a generation request: a role label in the backend's
/// vocabulary and the message text.
#[derive(Debug)]
pub struct ReqMessage {
    pub role: String,
    pub content: String,
}

/// The heights of the messages, in store order.
pub open spec fn heights_of(msgs: Seq<Message>) -> Seq<int> {
    Seq::new(msgs.len(), |i: int| msgs[i].height as int)
}

/// Top offset of message `i` in content space.
pub open spec fn top_of(msgs: Seq<Message>, i: int) -> int {
    top_of_heights(heights_of(msgs), i)
}

/// Summed height of all messages, saturating at the machine limit.
pub open spec fn content_height(msgs: Seq<Message>) -> int {
    top_of(msgs, msgs.len() as int)
}

/// Total height of the chat content: all messages plus the fixed input box
/// region.
pub open spec fn total_height(msgs: Seq<Message>) -> int {
    cap_add(content_height(msgs), OFFSET as int)
}

/// `b` is `a` with possibly different selection marks and nothing else
/// changed.
pub open spec fn same_but_marks(a: Seq<Message>, b: Seq<Message>) -> bool {
    &&& b.len() == a.len()
    &&& forall|i: int|
        0 <= i < a.len() ==> #[trigger] b[i] == (Message { is_selected: b[i].is_selected, ..a[i] })
}

/// The per-entity selection marks agree with the tracked selection: an
/// entity is marked exactly when it is the selected one.
pub open spec fn marks_match(msgs: Seq<Message>, textarea: TextArea, sel: Selection) -> bool {
    &&& forall|i: int|
        0 <= i < msgs.len() ==> ((#[trigger] msgs[i]).is_selected <==> sel == Selection::MessageAt(
            i as usize,
        ))
    &&& (textarea.is_selected <==> sel == Selection::InputBox)
}

/// How `select_next` retargets the selection: one message down in store
/// order when a message short of the last one is selected, otherwise
/// unchanged — in particular unchanged while the input box is selected.
pub open spec fn spec_select_next(sel: Selection, len: nat) -> Selection {
    match sel {
        Selection::MessageAt(k) => if k + 1 < len {
            Selection::MessageAt((k + 1) as usize)
        } else {
            sel
        },
        _ => sel,
    }
}

/// How `select_prev` retargets the selection: one message up in store order
/// when a message other than the first is selected, otherwise unchanged.
pub open spec fn spec_select_prev(sel: Selection) -> Selection {
    match sel {
        Selection::MessageAt(k) => if k > 0 {
            Selection::MessageAt((k - 1) as usize)
        } else {
            sel
        },
        _ => sel,
    }
}

/// How `scroll_up` moves the offset: one line toward the top, stopping at 0.
pub open spec fn spec_scroll_up(c: Chat) -> Chat {
    Chat { scroll_state: if c.scroll_state > 0 { (c.scroll_state - 1) as usize } else { 0 }, ..c }
}

/// How `scroll_down` moves the offset: one line down, stopping at the
/// scroll range's end.
pub open spec fn spec_scroll_down(c: Chat) -> Chat {
    Chat {
        scroll_state: if c.scroll_state < c.scroll_area {
            (c.scroll_state + 1) as usize
        } else {
            c.scroll_state
        },
        ..c
    }
}

/// `b` is `a` after retargeting the selection to `sel`: the tracked
/// selection and the per-entity marks change, the marks agree with the new
/// selection, and everything else stays as it was.
pub open spec fn reselected(a: Chat, b: Chat, sel: Selection) -> bool {
    &&& same_but_marks(a.messages@, b.messages@)
    &&& b.selection == sel
    &&& marks_match(b.messages@, b.textarea, b.selection)
    &&& b.textarea == (TextArea { is_selected: b.textarea.is_selected, ..a.textarea })
    &&& b.height == a.height
    &&& b.scroll_state == a.scroll_state
    &&& b.scroll_area == a.scroll_area
    &&& b.in_flight == a.in_flight
    &&& b.epoch == a.epoch
}

/// The click at `(x, y)` falls inside message rectangle `r`, rendered in a
/// viewport with origin `(vx, vy)` and width `vw`.
pub open spec fn rect_hit(r: Option<ClipRect>, x: int, y: int, vx: int, vy: int, vw: int) -> bool {
    &&& r matches Some(c)
    &&& vx <= x < vx + vw
    &&& cap_add(vy, c.y as int) <= y < cap_add(cap_add(vy, c.y as int), c.height as int)
}

/// The last store position among the first `n` whose rectangle contains the
/// click, if any: a forward hit-test pass where the last match wins.
pub open spec fn last_hit(
    rects: Seq<Option<ClipRect>>,
    n: int,
    x: int,
    y: int,
    vx: int,
    vy: int,
    vw: int,
) -> Option<int>
    decreases n,
{
    if n <= 0 {
        None
    } else if rect_hit(rects[n - 1], x, y, vx, vy, vw) {
        Some(n - 1)
    } else {
        last_hit(rects, n - 1, x, y, vx, vy, vw)
    }
}

/// A hit found among the first `n` rectangles is at a position below `n`.
proof fn lemma_last_hit_bounds(
    rects: Seq<Option<ClipRect>>,
    n: int,
    x: int,
    y: int,
    vx: int,
    vy: int,
    vw: int,
)
    ensures
        last_hit(rects, n, x, y, vx, vy, vw) matches Some(j) ==> 0 <= j < n,
    decreases n,
{
    if n > 0 {
        lemma_last_hit_bounds(rects, n - 1, x, y, vx, vy, vw);
    }
}

/// A navigation command decoded from a terminal input event.
#[derive(Clone, Copy, Debug, PartialEq, Eq, Structural)]
pub enum InputEvent {
    ScrollUp,
    ScrollDown,
    SelectNext,
    SelectPrev,
    Escape,
    Quit,
}

/// The chat: an append-only store of messages, the input box, the tracked
/// selection, the vertical scroll state, and the streaming state of the
/// message still being generated.
#[derive(Debug)]
pub struct Chat {
    pub messages: Vec<Message>,
    pub textarea: TextArea,
    pub selection: Selection,
    /// Total height of the chat content including the input box region;
    /// recomputed every frame.
    pub height: usize,
    /// Vertical scroll offset.
    pub scroll_state: usize,
    /// Upper bound of the vertical scroll offset.
    pub scroll_area: usize,
    /// Store position of the message still receiving streamed deltas.
    pub in_flight: Option<usize>,
    /// Generation epoch: bumped when a generation starts, so deltas of an
    /// abandoned generation are detectable and discarded.
    pub epoch: usize,
}

impl Chat {
    /// Well-formedness: ids are store positions, heights are derived from
    /// texts, the selection marks agree with the tracked selection, tracked
    /// indices are in bounds, and the scroll offset is inside its range.
    pub open spec fn wf(&self) -> bool {
        &&& forall|i: int|
            0 <= i < self.messages@.len() ==> (#[trigger] self.messages@[i]).wf()
                && self.messages@[i].id == i
        &&& marks_match(self.messages@, self.textarea, self.selection)
        &&& (self.selection matches Selection::MessageAt(k) ==> k < self.messages@.len())
        &&& (self.in_flight matches Some(k) ==> k < self.messages@.len())
        &&& self.scroll_state <= self.scroll_area
    }

    /// Build a chat from prior conversation turns, in order. The first
    /// message, if any, starts out selected.
    pub fn new(input: Vec<(String, Role)>) -> (c: Chat)
        ensures
            c.wf(),
            c.messages@.len() == input@.len(),
            forall|i: int|
                0 <= i < input@.len() ==> {
                    let m = #[trigger] c.messages@[i];
                    &&& m.id == i
                    &&& m.role == input@[i].1
                    &&& m.text@ == input@[i].0@
                    &&& m.height == spec_height(input@[i].0@)
                    &&& m.scroll_state == 0
                    &&& m.scroll_area == 0
                    &&& m.skip_lines == 0
                },
            c.selection == if input@.len() > 0 {
                Selection::MessageAt(0)
            } else {
                Selection::Unselected
            },
            c.textarea == (TextArea { is_selected: false, x: 0u16, y: 0u16, height: 0u16, width: 0u16 }),
            c.height == 0,
            c.scroll_state == 0,
            c.scroll_area == 0,
            c.in_flight is None,
            c.epoch == 0,
    {
        let mut messages: Vec<Message> = Vec::new();
        let mut i: usize = 0;
        while i < input.len()
            invariant
                i <= input@.len(),
                messages@.len() == i as int,
                forall|j: int|
                    0 <= j < i ==> {
                        let m = #[trigger] messages@[j];
                        &&& m.id == j
                        &&& m.role == input@[j].1
                        &&& m.text@ == input@[j].0@
                        &&& m.height == spec_height(input@[j].0@)
                        &&& m.is_selected == false
                        &&& m.scroll_state == 0
                        &&& m.scroll_area == 0
                        &&& m.skip_lines == 0
                        &&& m.wf()
                    },
            decreases input@.len() - i,
        {
            let pair = &input[i];
            let m = Message::new(i, pair.0.clone(), pair.1);
            messages.push(m);
            i = i + 1;
        }
        let selection = if messages.len() > 0 {
            let first = &mut messages[0];
            first.is_selected = true;
            Selection::MessageAt(0)
        } else {
            Selection::Unselected
        };
        Chat {
            messages,
            textarea: TextArea::default(),
            selection,
            height: 0,
            scroll_state: 0,
            scroll_area: 0,
            in_flight: None,
            epoch: 0,
        }
    }

    /// Scroll one line up, stopping at the top.
    pub fn scroll_up(&mut self)
        ensures
            *final(self) == spec_scroll_up(*old(self)),
            old(self).wf() ==> final(self).wf(),
    {
        if self.scroll_state == 0 {
            return ;
        }
        self.scroll_state = self.scroll_state - 1;
    }

    /// Scroll one line down, stopping at the scroll range's end.
    pub fn scroll_down(&mut self)
        ensures
            *final(self) == spec_scroll_down(*old(self)),
            old(self).wf() ==> final(self).wf(),
    {
        if self.scroll_state < self.scroll_area {
            self.scroll_state = self.scroll_state + 1;
        }
    }

    /// Set the scroll range and re-clamp the scroll offset into it.
    pub fn set_scroll_area(&mut self, scroll_area: usize)
        ensures
            *final(self) == (Chat {
                scroll_area,
                scroll_state: if old(self).scroll_state > scroll_area {
                    scroll_area
                } else {
                    old(self).scroll_state
                },
                ..*old(self)
            }),
            final(self).scroll_state <= final(self).scroll_area,
            old(self).wf() ==> final(self).wf(),
    {
        self.scroll_area = scroll_area;
        if self.scroll_state > scroll_area {
            self.scroll_state = scroll_area;
        }
    }

    /// Recompute the scroll range from the total content height against the
    /// viewport height and re-clamp the scroll offset into it. Runs before
    /// clipping each frame: the content grows while a response streams in.
    pub fn recompute_range(&mut self, total_height: usize, visible_height: usize)
        ensures
            final(self).scroll_area == if total_height > visible_height {
                total_height - visible_height
            } else {
                0
            },
            final(self).scroll_state == if old(self).scroll_state > final(self).scroll_area {
                final(self).scroll_area
            } else {
                old(self).scroll_state
            },
            0 <= final(self).scroll_state <= final(self).scroll_area,
            *final(self) == (Chat {
                scroll_area: final(self).scroll_area,
                scroll_state: final(self).scroll_state,
                ..*old(self)
            }),
            old(self).wf() ==> final(self).wf(),
    {
        let area = if total_height > visible_height {
            total_height - visible_height
        } else {
            0
        };
        self.set_scroll_area(area);
    }

    /// Move the selection to `sel`, clearing the old entity's mark and
    /// setting the new one; the only way selection marks ever change.
    pub fn set_selection(&mut self, sel: Selection)
        requires
            old(self).wf(),
            sel matches Selection::MessageAt(k) ==> k < old(self).messages@.len(),
        ensures
            final(self).wf(),
            reselected(*old(self), *final(self), sel),
    {
        match self.selection {
            Selection::MessageAt(k) => {
                let m = &mut self.messages[k];
                m.is_selected = false;
            },
            Selection::InputBox => {
                self.textarea.is_selected = false;
            },
            Selection::Unselected => {},
        }
        match sel {
            Selection::MessageAt(k) => {
                let m = &mut self.messages[k];
                m.is_selected = true;
            },
            Selection::InputBox => {
                self.textarea.is_selected = true;
            },
            Selection::Unselected => {},
        }
        self.selection = sel;
    }

    /// Move the selection one message down in store order; a no-op at the
    /// end of the store and when no message is selected.
    pub fn select_next(&mut self)
        requires
            old(self).wf(),
        ensures
            final(self).wf(),
            reselected(
                *old(self),
                *final(self),
                spec_select_next(old(self).selection, old(self).messages@.len()),
            ),
    {
        match self.selection {
            Selection::MessageAt(k) => {
                let len = self.messages.len();
                if k < len && k + 1 < len {
                    self.set_selection(Selection::MessageAt(k + 1));
                }
            },
            _ => {},
        }
    }

    /// Move the selection one message up in store order; a no-op at the
    /// start of the store and when no message is selected.
    pub fn select_prev(&mut self)
        requires
            old(self).wf(),
        ensures
            final(self).wf(),
            reselected(*old(self), *final(self), spec_select_prev(old(self).selection)),
    {
        match self.selection {
            Selection::MessageAt(k) => {
                if k > 0 {
                    self.set_selection(Selection::MessageAt(k - 1));
                }
            },
            _ => {},
        }
    }

    /// Clear the selection entirely: a valid idle state in which neither a
    /// message nor the input box is selected.
    pub fn clear_selection(&mut self)
        requires
            old(self).wf(),
        ensures
            final(self).wf(),
            reselected(*old(self), *final(self), Selection::Unselected),
    {
        self.set_selection(Selection::Unselected);
    }

    /// Select the input box.
    pub fn select_input_box(&mut self)
        requires
            old(self).wf(),
        ensures
            final(self).wf(),
            reselected(*old(self), *final(self), Selection::InputBox),
    {
        self.set_selection(Selection::InputBox);
    }

    /// Recompute the total content height: the sum of all message heights
    /// plus the fixed input box region, saturating at the machine limit.
    pub fn recompute_height(&mut self)
        ensures
            *final(self) == (Chat { height: final(self).height, ..*old(self) }),
            final(self).height == total_height(old(self).messages@),
            old(self).wf() ==> final(self).wf(),
    {
        let mut y: usize = 0;
        let mut i: usize = 0;
        while i < self.messages.len()
            invariant
                i <= self.messages@.len(),
                y == top_of(self.messages@, i as int),
                *self == *old(self),
            decreases self.messages@.len() - i,
        {
            let h = self.messages[i].height;
            y = sat_add(y, h as usize);
            proof {
                assert(heights_of(self.messages@)[i as int] == h as int);
            }
            i = i + 1;
        }
        self.height = sat_add(y, OFFSET);
    }
    /// Append a message the user submitted, with its full text known up
    /// front. Returns its store position.
    pub fn push_user_message(&mut self, value: String) -> (idx: usize)
        requires
            old(self).wf(),
        ensures
            final(self).wf(),
            idx == old(self).messages@.len(),
            final(self).messages@.len() == old(self).messages@.len() + 1,
            forall|i: int|
                0 <= i < old(self).messages@.len() ==> #[trigger] final(self).messages@[i] == old(
                    self,
                ).messages@[i],
            ({
                let m = final(self).messages@[idx as int];
                &&& m.id == idx
                &&& m.role == Role::User
                &&& m.text@ == value@
                &&& m.height == spec_height(value@)
                &&& m.is_selected == false
                &&& m.scroll_state == 0
                &&& m.scroll_area == 0
                &&& m.skip_lines == 0
            }),
            *final(self) == (Chat { messages: final(self).messages, ..*old(self) }),
    {
        let idx = self.messages.len();
        let msg = Message::new(idx, value, Role::User);
        self.messages.push(msg);
        idx
    }

    /// The generation request for the current conversation: every message's
    /// role, mapped to the backend's vocabulary, and its text, in store
    /// order.
    pub fn generate_req_body(&self) -> (body: Vec<ReqMessage>)
        ensures
            body@.len() == self.messages@.len(),
            forall|i: int|
                0 <= i < body@.len() ==> {
                    &&& (#[trigger] body@[i]).role@ == self.messages@[i].role.spec_label()
                    &&& body@[i].content@ == self.messages@[i].text@
                },
    {
        let mut body: Vec<ReqMessage> = Vec::new();
        let mut i: usize = 0;
        let len = self.messages.len();
        while i < len
            invariant
                i <= len,
                len == self.messages@.len(),
                body@.len() == i as int,
                forall|j: int|
                    0 <= j < i ==> {
                        &&& (#[trigger] body@[j]).role@ == self.messages@[j].role.spec_label()
                        &&& body@[j].content@ == self.messages@[j].text@
                    },
            decreases len - i,
        {
            let m = &self.messages[i];
            let req = ReqMessage { role: m.role.to_lower_string(), content: m.text.clone() };
            body.push(req);
            i = i + 1;
        }
        body
    }

    /// Begin a generation: build the request from the conversation so far,
    /// append an empty assistant message marked in flight to receive the
    /// streamed reply, and open a new generation epoch so deltas of an
    /// abandoned generation are detectable. The caller hands the returned
    /// request to the transport.
    pub fn start_generating(&mut self) -> (body: Vec<ReqMessage>)
        requires
            old(self).wf(),
        ensures
            final(self).wf(),
            body@.len() == old(self).messages@.len(),
            forall|i: int|
                0 <= i < body@.len() ==> {
                    &&& (#[trigger] body@[i]).role@ == old(self).messages@[i].role.spec_label()
                    &&& body@[i].content@ == old(self).messages@[i].text@
                },
            final(self).messages@.len() == old(self).messages@.len() + 1,
            forall|i: int|
                0 <= i < old(self).messages@.len() ==> #[trigger] final(self).messages@[i] == old(
                    self,
                ).messages@[i],
            ({
                let m = final(self).messages@[old(self).messages@.len() as int];
                &&& m.id == old(self).messages@.len()
                &&& m.role == Role::Assistant
                &&& m.text@ == Seq::<char>::empty()
                &&& m.height == spec_height(m.text@)
                &&& m.is_selected == false
                &&& m.scroll_state == 0
                &&& m.scroll_area == 0
                &&& m.skip_lines == 0
            }),
            final(self).in_flight == Some(old(self).messages@.len() as usize),
            final(self).epoch == cap_add(old(self).epoch as int, 1),
            final(self).selection == old(self).selection,
            final(self).textarea == old(self).textarea,
            final(self).height == old(self).height,
            final(self).scroll_state == old(self).scroll_state,
            final(self).scroll_area == old(self).scroll_area,
    {
        let body = self.generate_req_body();
        let idx = self.messages.len();
        let msg = Message::new(idx, String::new(), Role::Assistant);
        self.messages.push(msg);
        self.in_flight = Some(idx);
        self.epoch = sat_add(self.epoch, 1);
        body
    }

    /// Submit the input box's text: append it as a user message, then start
    /// generating the reply to the conversation including it.
    pub fn submit_input(&mut self, value: String) -> (body: Vec<ReqMessage>)
        requires
            old(self).wf(),
        ensures
            final(self).wf(),
            final(self).messages@.len() == old(self).messages@.len() + 2,
            forall|i: int|
                0 <= i < old(self).messages@.len() ==> #[trigger] final(self).messages@[i] == old(
                    self,
                ).messages@[i],
            ({
                let m = final(self).messages@[old(self).messages@.len() as int];
                m.role == Role::User && m.text@ == value@
            }),
            ({
                let m = final(self).messages@[old(self).messages@.len() as int + 1];
                m.role == Role::Assistant && m.text@ == Seq::<char>::empty()
            }),
            body@.len() == old(self).messages@.len() + 1,
            forall|i: int|
                0 <= i < old(self).messages@.len() ==> {
                    &&& (#[trigger] body@[i]).role@ == old(self).messages@[i].role.spec_label()
                    &&& body@[i].content@ == old(self).messages@[i].text@
                },
            body@[old(self).messages@.len() as int].role@ == Role::User.spec_label(),
            body@[old(self).messages@.len() as int].content@ == value@,
            final(self).in_flight == Some((old(self).messages@.len() + 1) as usize),
            final(self).epoch == cap_add(old(self).epoch as int, 1),
            final(self).selection == old(self).selection,
            final(self).textarea == old(self).textarea,
            final(self).scroll_state == old(self).scroll_state,
            final(self).scroll_area == old(self).scroll_area,
    {
        self.push_user_message(value);
        self.start_generating()
    }

    /// Drain one streamed delta into the in-flight message and recompute
    /// that message's height. A delta from an abandoned generation epoch, or
    /// one arriving while no message is in flight, is discarded. Returns
    /// whether the delta was applied.
    pub fn ingest_delta(&mut self, epoch: usize, content: &str) -> (applied: bool)
        requires
            old(self).wf(),
        ensures
            final(self).wf(),
            applied == (epoch == old(self).epoch && old(self).in_flight is Some),
            !applied ==> *final(self) == *old(self),
            applied ==> {
                let k = old(self).in_flight.unwrap() as int;
                &&& final(self).messages@.len() == old(self).messages@.len()
                &&& forall|i: int|
                    0 <= i < old(self).messages@.len() && i != k
                        ==> #[trigger] final(self).messages@[i] == old(self).messages@[i]
                &&& final(self).messages@[k].text@ == old(self).messages@[k].text@ + content@
                &&& final(self).messages@[k].height == spec_height(final(self).messages@[k].text@)
                &&& final(self).messages@[k] == (Message {
                    text: final(self).messages@[k].text,
                    height: final(self).messages@[k].height,
                    ..old(self).messages@[k]
                })
                &&& *final(self) == (Chat { messages: final(self).messages, ..*old(self) })
            },
    {
        if epoch != self.epoch {
            return false;
        }
        match self.in_flight {
            None => false,
            Some(k) => {
                let m = &mut self.messages[k];
                m.text.append(content);
                let h = crate::utils::get_height(&m.text);
                m.height = h;
                true
            },
        }
    }

    /// Clip every message against the viewport: entry `i` of the result is
    /// message `i`'s clip rectangle, or nothing when it is off screen. Each
    /// visible message is handed its skip hint; off-screen messages are left
    /// untouched.
    pub fn compute_layout(&mut self, visible_height: usize) -> (rects: Vec<Option<ClipRect>>)
        requires
            old(self).wf(),
        ensures
            final(self).wf(),
            rects@.len() == old(self).messages@.len(),
            forall|i: int|
                0 <= i < rects@.len() ==> clip_matches(
                    #[trigger] rects@[i],
                    top_of(old(self).messages@, i),
                    old(self).messages@[i].height as int,
                    old(self).scroll_state as int,
                    visible_height as int,
                ),
            final(self).messages@.len() == old(self).messages@.len(),
            forall|i: int|
                0 <= i < rects@.len() ==> #[trigger] final(self).messages@[i] == match rects@[i] {
                    Some(c) => (Message { skip_lines: c.skip_lines as u16, ..old(self).messages@[i] }),
                    None => old(self).messages@[i],
                },
            *final(self) == (Chat { messages: final(self).messages, ..*old(self) }),
    {
        let ghost orig = *self;
        let mut rects: Vec<Option<ClipRect>> = Vec::new();
        let mut y: usize = 0;
        let mut i: usize = 0;
        let len = self.messages.len();
        while i < len
            invariant
                orig.wf(),
                i <= len,
                len == orig.messages@.len(),
                self.messages@.len() == len,
                y == top_of(orig.messages@, i as int),
                rects@.len() == i as int,
                forall|j: int|
                    0 <= j < i ==> clip_matches(
                        #[trigger] rects@[j],
                        top_of(orig.messages@, j),
                        orig.messages@[j].height as int,
                        orig.scroll_state as int,
                        visible_height as int,
                    ),
                forall|j: int|
                    0 <= j < i ==> #[trigger] self.messages@[j] == match rects@[j] {
                        Some(c) => (Message { skip_lines: c.skip_lines as u16, ..orig.messages@[j] }),
                        None => orig.messages@[j],
                    },
                forall|j: int| i <= j < len ==> #[trigger] self.messages@[j] == orig.messages@[j],
                *self == (Chat { messages: self.messages, ..orig }),
            decreases len - i,
        {
            let h = self.messages[i].height;
            proof {
                assert(heights_of(orig.messages@)[i as int] == h as int);
            }
            let r = crate::clip::clip(y, h as usize, self.scroll_state, visible_height);
            if let Some(c) = r {
                proof {
                    assert(c.skip_lines < h as int);
                }
                let m = &mut self.messages[i];
                m.skip_lines = c.skip_lines as u16;
            }
            rects.push(r);
            y = sat_add(y, h as usize);
            i = i + 1;
        }
        rects
    }

    /// The scroll-follow rule's target: where the selection on message `k`
    /// ends up after this frame's clip pass. When the selected message's top
    /// edge sits exactly `MARGIN` lines above the viewport bottom, the
    /// selection steps back to the previous message (if `k > 0`);
    /// symmetrically, when its bottom edge sits exactly `MARGIN` lines below
    /// the viewport top, it steps forward to the next message (if one
    /// exists). The equality comparison makes each shift fire once per
    /// boundary crossing.
    pub open spec fn follow_target(msgs: Seq<Message>, k: int, scroll: int, visible_height: int) -> int {
        let top = top_of(msgs, k);
        let bottom = cap_add(top, msgs[k].height as int);
        let visible_top = if scroll > top { scroll } else { top };
        let visible_bottom = cap_add(scroll, visible_height);
        let back: int = if cap_add(top, MARGIN as int) == visible_bottom && k > 0 { -1 } else { 0 };
        let forward: int = if bottom == cap_add(visible_top, MARGIN as int) && k + 1 < msgs.len() {
            1
        } else {
            0
        };
        k + back + forward
    }

    /// Reconcile the selection with the just-computed frame: while a message
    /// (not the input box) is selected and its edge has crossed a viewport
    /// boundary, shift the selection to the neighbouring message.
    pub fn follow_selection(&mut self, visible_height: usize)
        requires
            old(self).wf(),
        ensures
            final(self).wf(),
            reselected(
                *old(self),
                *final(self),
                match old(self).selection {
                    Selection::MessageAt(k) => Selection::MessageAt(
                        Self::follow_target(
                            old(self).messages@,
                            k as int,
                            old(self).scroll_state as int,
                            visible_height as int,
                        ) as usize,
                    ),
                    _ => old(self).selection,
                },
            ),
    {
        let k = match self.selection {
            Selection::MessageAt(k) => k,
            _ => { return ; },
        };
        let len = self.messages.len();
        let mut top: usize = 0;
        let mut i: usize = 0;
        while i < k
            invariant
                k < len,
                i <= k,
                len == self.messages@.len(),
                top == top_of(self.messages@, i as int),
                *self == *old(self),
            decreases k - i,
        {
            let h = self.messages[i].height;
            proof {
                assert(heights_of(self.messages@)[i as int] == h as int);
            }
            top = sat_add(top, h as usize);
            i = i + 1;
        }
        let h = self.messages[k].height;
        proof {
            assert(heights_of(self.messages@)[k as int] == h as int);
        }
        let bottom = sat_add(top, h as usize);
        let visible_top = if self.scroll_state > top { self.scroll_state } else { top };
        let visible_bottom = sat_add(self.scroll_state, visible_height);
        let mut target = k;
        if sat_add(top, MARGIN) == visible_bottom && k > 0 {
            target = target - 1;
        }
        if bottom == sat_add(visible_top, MARGIN) && k + 1 < len {
            target = target + 1;
        }
        self.set_selection(Selection::MessageAt(target));
    }

    /// Run one frame's layout pass, in the order the engine requires:
    /// recompute the total content height, re-clamp the scroll offset into
    /// the new range, clip every message against the viewport, and finally
    /// reconcile the selection against the just-computed frame.
    pub fn layout_frame(&mut self, visible_height: usize) -> (rects: Vec<Option<ClipRect>>)
        requires
            old(self).wf(),
        ensures
            final(self).wf(),
            final(self).height == total_height(old(self).messages@),
            final(self).scroll_area == if final(self).height > visible_height {
                final(self).height - visible_height
            } else {
                0
            },
            final(self).scroll_state == if old(self).scroll_state > final(self).scroll_area {
                final(self).scroll_area
            } else {
                old(self).scroll_state
            },
            0 <= final(self).scroll_state <= final(self).scroll_area,
            rects@.len() == old(self).messages@.len(),
            forall|i: int|
                0 <= i < rects@.len() ==> clip_matches(
                    #[trigger] rects@[i],
                    top_of(old(self).messages@, i),
                    old(self).messages@[i].height as int,
                    final(self).scroll_state as int,
                    visible_height as int,
                ),
            final(self).messages@.len() == old(self).messages@.len(),
            forall|i: int|
                0 <= i < rects@.len() ==> {
                    let skipped = match rects@[i] {
                        Some(c) => (Message {
                            skip_lines: c.skip_lines as u16,
                            ..old(self).messages@[i]
                        }),
                        None => old(self).messages@[i],
                    };
                    #[trigger] final(self).messages@[i] == (Message {
                        is_selected: final(self).messages@[i].is_selected,
                        ..skipped
                    })
                },
            final(self).selection == match old(self).selection {
                Selection::MessageAt(k) => Selection::MessageAt(
                    Self::follow_target(
                        old(self).messages@,
                        k as int,
                        final(self).scroll_state as int,
                        visible_height as int,
                    ) as usize,
                ),
                _ => old(self).selection,
            },
            final(self).textarea == (TextArea {
                is_selected: final(self).textarea.is_selected,
                ..old(self).textarea
            }),
            final(self).in_flight == old(self).in_flight,
            final(self).epoch == old(self).epoch,
    {
        let ghost orig = *self;
        self.recompute_height();
        let total = self.height;
        self.recompute_range(total, visible_height);
        let rects = self.compute_layout(visible_height);
        let ghost mid = *self;
        proof {
            assert(heights_of(mid.messages@) =~= heights_of(orig.messages@));
        }
        self.follow_selection(visible_height);
        proof {
            if let Selection::MessageAt(k) = orig.selection {
                assert(Self::follow_target(
                    mid.messages@,
                    k as int,
                    mid.scroll_state as int,
                    visible_height as int,
                ) == Self::follow_target(
                    orig.messages@,
                    k as int,
                    final(self).scroll_state as int,
                    visible_height as int,
                ));
            }
        }
        rects
    }

    /// Hit-test a click at screen coordinates `(x, y)` and move the
    /// selection to what it landed on. The input box is tested against its
    /// recorded bounds; the messages are tested against the rectangles of
    /// the last clip pass, rendered in the viewport whose origin and width
    /// are given, the last match in store order winning. A click that hits
    /// nothing leaves the selection unchanged.
    pub fn select_at(
        &mut self,
        x: u16,
        y: u16,
        viewport_x: u16,
        viewport_y: u16,
        viewport_width: u16,
        rects: &Vec<Option<ClipRect>>,
    )
        requires
            old(self).wf(),
            rects@.len() == old(self).messages@.len(),
        ensures
            final(self).wf(),
            reselected(
                *old(self),
                *final(self),
                match last_hit(
                    rects@,
                    rects@.len() as int,
                    x as int,
                    y as int,
                    viewport_x as int,
                    viewport_y as int,
                    viewport_width as int,
                ) {
                    Some(i) => Selection::MessageAt(i as usize),
                    None => if old(self).textarea.spec_within(x as int, y as int) {
                        Selection::InputBox
                    } else {
                        old(self).selection
                    },
                },
            ),
    {
        let mut target: Selection = self.selection;
        if self.textarea.is_within(x, y) {
            target = Selection::InputBox;
        }
        let ghost base = target;
        let xe = x as usize;
        let ye = y as usize;
        let vx = viewport_x as usize;
        let vy = viewport_y as usize;
        let vw = viewport_width as usize;
        let n = rects.len();
        let mut i: usize = 0;
        while i < n
            invariant
                n == rects@.len(),
                n == old(self).messages@.len(),
                i <= n,
                xe == x as int && ye == y as int,
                vx == viewport_x as int && vy == viewport_y as int && vw == viewport_width as int,
                target == match last_hit(
                    rects@,
                    i as int,
                    x as int,
                    y as int,
                    viewport_x as int,
                    viewport_y as int,
                    viewport_width as int,
                ) {
                    Some(j) => Selection::MessageAt(j as usize),
                    None => base,
                },
                base == (if old(self).textarea.spec_within(x as int, y as int) {
                    Selection::InputBox
                } else {
                    old(self).selection
                }),
                *self == *old(self),
            decreases n - i,
        {
            if let Some(c) = rects[i] {
                let row_top = sat_add(vy, c.y);
                let row_end = sat_add(row_top, c.height);
                if xe >= vx && xe < vx + vw && ye >= row_top && ye < row_end {
                    target = Selection::MessageAt(i);
                }
            }
            i = i + 1;
        }
        proof {
            lemma_last_hit_bounds(
                rects@,
                n as int,
                x as int,
                y as int,
                viewport_x as int,
                viewport_y as int,
                viewport_width as int,
            );
        }
        self.set_selection(target);
    }

    /// Apply one decoded navigation command; returns whether it asks the
    /// application to exit. This is the input loop's decision table:
    /// scrolling moves the viewport, the tab keys move the message
    /// selection, and escape clears the selection entirely.
    pub fn handle_input(&mut self, event: InputEvent) -> (exit: bool)
        requires
            old(self).wf(),
        ensures
            final(self).wf(),
            exit == (event == InputEvent::Quit),
            match event {
                InputEvent::ScrollUp => *final(self) == spec_scroll_up(*old(self)),
                InputEvent::ScrollDown => *final(self) == spec_scroll_down(*old(self)),
                InputEvent::SelectNext => reselected(
                    *old(self),
                    *final(self),
                    spec_select_next(old(self).selection, old(self).messages@.len()),
                ),
                InputEvent::SelectPrev => reselected(
                    *old(self),
                    *final(self),
                    spec_select_prev(old(self).selection),
                ),
                InputEvent::Escape => reselected(*old(self), *final(self), Selection::Unselected),
                InputEvent::Quit => *final(self) == *old(self),
            },
    {
        match event {
            InputEvent::ScrollUp => {
                self.scroll_up();
            },
            InputEvent::ScrollDown => {
                self.scroll_down();
            },
            InputEvent::SelectNext => {
                self.select_next();
            },
            InputEvent::SelectPrev => {
                self.select_prev();
            },
            InputEvent::Escape => {
                self.clear_selection();
            },
            InputEvent::Quit => {},
        }
        event == InputEvent::Quit
    }
}

/// A stream's text deltas, concatenated in arrival order.
pub open spec fn concat_deltas(deltas: Seq<Seq<char>>) -> Seq<char>
    decreases deltas.len(),
{
    if deltas.len() == 0 {
        Seq::empty()
    } else {
        concat_deltas(deltas.drop_last()) + deltas.last()
    }
}

/// The in-flight text after draining the deltas into it in order, one
/// append at a time — the step `ingest_delta` performs per delta.
pub open spec fn apply_deltas(text: Seq<char>, deltas: Seq<Seq<char>>) -> Seq<char>
    decreases deltas.len(),
{
    if deltas.len() == 0 {
        text
    } else {
        apply_deltas(text + deltas.first(), deltas.drop_first())
    }
}

proof fn lemma_concat_deltas_first(deltas: Seq<Seq<char>>)
    requires
        deltas.len() > 0,
    ensures
        concat_deltas(deltas) == deltas.first() + concat_deltas(deltas.drop_first()),
    decreases deltas.len(),
{
    if deltas.len() == 1 {
        assert(deltas.drop_last() =~= Seq::<Seq<char>>::empty());
        assert(deltas.drop_first() =~= Seq::<Seq<char>>::empty());
        assert(Seq::<char>::empty() + deltas.last() =~= deltas.first() + Seq::<char>::empty());
    } else {
        lemma_concat_deltas_first(deltas.drop_last());
        assert(deltas.drop_last().drop_first() =~= deltas.drop_first().drop_last());
        assert(deltas.drop_last().first() == deltas.first());
        assert(deltas.drop_first().last() == deltas.last());
        assert((deltas.first() + concat_deltas(deltas.drop_last().drop_first())) + deltas.last()
            =~= deltas.first() + (concat_deltas(deltas.drop_first().drop_last())
            + deltas.drop_first().last()));
    }
}

/// Append-only growth: draining a stream of deltas in order appends exactly
/// their concatenation, so after N applications the in-flight text is the
/// text it started with followed by the N deltas in arrival order.
pub proof fn lemma_deltas_concatenate(text: Seq<char>, deltas: Seq<Seq<char>>)
    ensures
        apply_deltas(text, deltas) == text + concat_deltas(deltas),
    decreases deltas.len(),
{
    if deltas.len() == 0 {
        assert(text + concat_deltas(deltas) =~= text);
    } else {
        lemma_deltas_concatenate(text + deltas.first(), deltas.drop_first());
        lemma_concat_deltas_first(deltas);
        assert((text + deltas.first()) + concat_deltas(deltas.drop_first()) =~= text + (
        deltas.first() + concat_deltas(deltas.drop_first())));
    }
}

/// Selection uniqueness: in a well-formed chat at most one entity — one
/// message or the input box — carries the selection mark at any time.
pub proof fn lemma_selection_unique(c: Chat)
    requires
        c.wf(),
    ensures
        forall|i: int, j: int|
            0 <= i < c.messages@.len() && 0 <= j < c.messages@.len() && (#[trigger] c.messages@[i]).is_selected
                && (#[trigger] c.messages@[j]).is_selected ==> i == j,
        c.textarea.is_selected ==> forall|i: int|
            0 <= i < c.messages@.len() ==> !(#[trigger] c.messages@[i]).is_selected,
{
}

/// Clip completeness for a whole frame: in a well-formed chat whose content
/// height fits the machine, every content row inside the viewport and below
/// the content's end lies in exactly one message, that message's clip
/// rectangle covers the row's viewport row, and no other message's
/// rectangle does — the rectangles tile the visible rows with no gaps and
/// no overlaps.
pub proof fn lemma_frame_covers_rows(c: Chat, visible_height: int, y: int)
    requires
        c.wf(),
        content_height(c.messages@) < usize::MAX,
        0 <= visible_height,
        c.scroll_state <= y < c.scroll_state + visible_height,
        y < content_height(c.messages@),
    ensures
        exists|i: int|
            0 <= i < c.messages@.len() && crate::clip::row_in_message(heights_of(c.messages@), i, y),
        forall|i: int|
            0 <= i < c.messages@.len() && crate::clip::row_in_message(heights_of(c.messages@), i, y)
                ==> crate::clip::rect_covers_row(
                heights_of(c.messages@),
                i,
                c.scroll_state as int,
                visible_height,
                y - c.scroll_state,
            ),
        forall|i: int|
            0 <= i < c.messages@.len() && !crate::clip::row_in_message(heights_of(c.messages@), i, y)
                ==> !crate::clip::rect_covers_row(
                heights_of(c.messages@),
                i,
                c.scroll_state as int,
                visible_height,
                y - c.scroll_state,
            ),
{
    crate::clip::lemma_clip_completeness(
        heights_of(c.messages@),
        c.scroll_state as int,
        visible_height,
        y,
    );
}

/// While the input box is selected, the next/prev selection keys leave the
/// selection on the input box: they never move it into message space.
pub proof fn lemma_input_box_selection_stays(sel: Selection, len: nat)
    requires
        sel == Selection::InputBox,
    ensures
        spec_select_next(sel, len) == Selection::InputBox,
        spec_select_prev(sel) == Selection::InputBox,
{
}

} // verus!
