use vstd::prelude::*;

verus! {

/// A message's visible slice for one frame: the target rectangle in viewport
/// rows plus how many leading content lines the renderer must skip.
#[derive(Clone, Copy, Debug, PartialEq, Eq, Structural)]
pub struct ClipRect {
    /// First viewport row the message covers, counted from the viewport top.
    pub y: usize,
    /// Number of viewport rows the message covers.
    pub height: usize,
    /// Leading lines of the message that are scrolled out above the viewport.
    pub skip_lines: usize,
}

/// Addition of row counts that stops at `usize::MAX`, mirroring the
/// saturating arithmetic of the executable code.
pub open spec fn cap_add(a: int, b: int) -> int {
    if a + b > usize::MAX { usize::MAX as int } else { a + b }
}

/// `usize` addition that saturates at `usize::MAX`.
pub fn sat_add(a: usize, b: usize) -> (r: usize)
    ensures
        r == cap_add(a as int, b as int),
{
    if a > usize::MAX - b {
        usize::MAX
    } else {
        a + b
    }
}

/// First content row of a message that the viewport can show.
pub open spec fn spec_visible_top(msg_top: int, scroll: int) -> int {
    if scroll > msg_top { scroll } else { msg_top }
}

/// One past the last content row the viewport can show.
pub open spec fn spec_visible_bottom(scroll: int, visible_height: int) -> int {
    cap_add(scroll, visible_height)
}

/// How many rows of a message with top `msg_top` and height `height` are on
/// screen at the given scroll offset.
pub open spec fn spec_clip_height(msg_top: int, height: int, scroll: int, visible_height: int) -> int {
    let msg_bottom = cap_add(msg_top, height);
    let visible_bottom = spec_visible_bottom(scroll, visible_height);
    let bottom = if msg_bottom < visible_bottom { msg_bottom } else { visible_bottom };
    let top = spec_visible_top(msg_top, scroll);
    if bottom > top { bottom - top } else { 0 }
}

/// How many leading lines of the message are above the viewport.
pub open spec fn spec_skip_lines(msg_top: int, scroll: int) -> int {
    if scroll > msg_top { scroll - msg_top } else { 0 }
}

/// The viewport row at which the visible part of the message starts.
pub open spec fn spec_screen_row(msg_top: int, scroll: int) -> int {
    spec_visible_top(msg_top, scroll) - scroll
}

/// What a computed clip must be for the given inputs: nothing exactly when
/// the message is entirely off screen, otherwise the rectangle given by the
/// clip formulas.
pub open spec fn clip_matches(
    r: Option<ClipRect>,
    msg_top: int,
    height: int,
    scroll: int,
    visible_height: int,
) -> bool {
    &&& (r is Some <==> spec_clip_height(msg_top, height, scroll, visible_height) > 0)
    &&& (r matches Some(c) ==> {
        &&& c.y == spec_screen_row(msg_top, scroll)
        &&& c.height == spec_clip_height(msg_top, height, scroll, visible_height)
        &&& c.skip_lines == spec_skip_lines(msg_top, scroll)
    })
}

/// Clip one message against the viewport: `None` when it is entirely off
/// screen (it must not be rendered and is left untouched), otherwise the
/// rectangle to render into and the lines to skip.
pub fn clip(msg_top: usize, height: usize, scroll_offset: usize, visible_height: usize) -> (r: Option<
    ClipRect,
>)
    ensures
        clip_matches(r, msg_top as int, height as int, scroll_offset as int, visible_height as int),
{
    let msg_bottom = sat_add(msg_top, height);
    let visible_bottom = sat_add(scroll_offset, visible_height);
    let visible_top = if scroll_offset > msg_top { scroll_offset } else { msg_top };
    let bottom = if msg_bottom < visible_bottom { msg_bottom } else { visible_bottom };
    if bottom > visible_top {
        Some(ClipRect {
            y: visible_top - scroll_offset,
            height: bottom - visible_top,
            skip_lines: visible_top - msg_top,
        })
    } else {
        None
    }
}

/// Top offset of message `i` in content space: the saturated sum of the
/// heights of the messages before it.
pub open spec fn top_of_heights(heights: Seq<int>, i: int) -> int
    decreases i,
{
    if i <= 0 {
        0
    } else {
        cap_add(top_of_heights(heights, i - 1), heights[i - 1])
    }
}

/// All heights are row counts and their total fits the machine: the saturated
/// prefix sums are then exact.
pub open spec fn heights_fit(heights: Seq<int>) -> bool {
    &&& forall|i: int| 0 <= i < heights.len() ==> heights[i] >= 0
    &&& top_of_heights(heights, heights.len() as int) < usize::MAX
}

/// Content row `y` lies inside message `i`.
pub open spec fn row_in_message(heights: Seq<int>, i: int, y: int) -> bool {
    top_of_heights(heights, i) <= y < cap_add(top_of_heights(heights, i), heights[i])
}

/// The clip rectangle of message `i` covers viewport row `row`.
pub open spec fn rect_covers_row(heights: Seq<int>, i: int, scroll: int, visible_height: int, row: int) -> bool {
    let top = top_of_heights(heights, i);
    &&& spec_clip_height(top, heights[i], scroll, visible_height) > 0
    &&& spec_screen_row(top, scroll) <= row
        < spec_screen_row(top, scroll) + spec_clip_height(top, heights[i], scroll, visible_height)
}

/// Message tops never decrease along the store.
pub proof fn lemma_tops_monotone(heights: Seq<int>, i: int, j: int)
    requires
        forall|k: int| 0 <= k < heights.len() ==> heights[k] >= 0,
        0 <= i <= j <= heights.len(),
    ensures
        top_of_heights(heights, i) <= top_of_heights(heights, j),
    decreases j - i,
{
    if i < j {
        lemma_tops_monotone(heights, i, j - 1);
    }
}

/// When the total content height fits the machine, the saturated prefix sums
/// are the exact ones: each message's top is the previous top plus its height.
pub proof fn lemma_top_exact(heights: Seq<int>, i: int)
    requires
        heights_fit(heights),
        0 <= i < heights.len(),
    ensures
        top_of_heights(heights, i + 1) == top_of_heights(heights, i) + heights[i],
{
    lemma_tops_monotone(heights, i + 1, heights.len() as int);
}

/// Every content row below the total height lies inside some message.
pub proof fn lemma_row_has_message(heights: Seq<int>, k: int, y: int)
    requires
        heights_fit(heights),
        0 <= k <= heights.len(),
        0 <= y < top_of_heights(heights, k),
    ensures
        exists|i: int| 0 <= i < k && row_in_message(heights, i, y),
    decreases k,
{
    if k > 0 {
        lemma_top_exact(heights, k - 1);
        if y >= top_of_heights(heights, k - 1) {
            assert(row_in_message(heights, k - 1, y));
        } else {
            lemma_row_has_message(heights, k - 1, y);
        }
    }
}

/// A content row lies inside at most one message.
pub proof fn lemma_row_message_unique(heights: Seq<int>, y: int, i: int, j: int)
    requires
        heights_fit(heights),
        0 <= i < heights.len(),
        0 <= j < heights.len(),
        row_in_message(heights, i, y),
        row_in_message(heights, j, y),
    ensures
        i == j,
{
    if i < j {
        lemma_top_exact(heights, i);
        lemma_tops_monotone(heights, i + 1, j);
        assert(false);
    }
    if j < i {
        lemma_top_exact(heights, j);
        lemma_tops_monotone(heights, j + 1, i);
        assert(false);
    }
}

/// A clip rectangle stays inside the viewport: its rows lie in
/// `[0, visible_height)`.
pub proof fn lemma_clip_within_viewport(msg_top: int, height: int, scroll: int, visible_height: int)
    requires
        0 <= scroll,
        0 <= visible_height,
    ensures
        spec_screen_row(msg_top, scroll) >= 0,
        spec_clip_height(msg_top, height, scroll, visible_height) > 0 ==> spec_screen_row(
            msg_top,
            scroll,
        ) + spec_clip_height(msg_top, height, scroll, visible_height) <= visible_height,
{
}

/// Clip completeness: with any scroll offset, every content row that is both
/// inside the viewport and below the total content height is covered by the
/// clip rectangle of exactly one message — no gaps and no overlaps.
pub proof fn lemma_clip_completeness(heights: Seq<int>, scroll: int, visible_height: int, y: int)
    requires
        heights_fit(heights),
        0 <= scroll,
        0 <= visible_height,
        scroll <= y < scroll + visible_height,
        y < top_of_heights(heights, heights.len() as int),
    ensures
        exists|i: int| 0 <= i < heights.len() && row_in_message(heights, i, y),
        forall|i: int|
            0 <= i < heights.len() && row_in_message(heights, i, y) ==> rect_covers_row(
                heights,
                i,
                scroll,
                visible_height,
                y - scroll,
            ),
        forall|i: int|
            0 <= i < heights.len() && !row_in_message(heights, i, y) ==> !rect_covers_row(
                heights,
                i,
                scroll,
                visible_height,
                y - scroll,
            ),
{
    lemma_row_has_message(heights, heights.len() as int, y);
    assert forall|i: int| 0 <= i < heights.len() && row_in_message(heights, i, y) implies rect_covers_row(
        heights,
        i,
        scroll,
        visible_height,
        y - scroll,
    ) by {
        lemma_top_exact(heights, i);
        lemma_tops_monotone(heights, i + 1, heights.len() as int);
    }
    assert forall|i: int| 0 <= i < heights.len() && !row_in_message(heights, i, y) implies !rect_covers_row(
        heights,
        i,
        scroll,
        visible_height,
        y - scroll,
    ) by {
        lemma_top_exact(heights, i);
        lemma_tops_monotone(heights, i + 1, heights.len() as int);
    }
}

/// No clip rectangle reaches past the content: a viewport row whose content
/// row lies at or beyond the content's end is covered by no message's
/// rectangle.
pub proof fn lemma_rows_past_content_uncovered(
    heights: Seq<int>,
    scroll: int,
    visible_height: int,
    row: int,
)
    requires
        heights_fit(heights),
        0 <= scroll,
        0 <= visible_height,
        0 <= row,
        scroll + row >= top_of_heights(heights, heights.len() as int),
    ensures
        forall|i: int|
            0 <= i < heights.len() ==> !#[trigger] rect_covers_row(
                heights,
                i,
                scroll,
                visible_height,
                row,
            ),
{
    assert forall|i: int| 0 <= i < heights.len() implies !rect_covers_row(
        heights,
        i,
        scroll,
        visible_height,
        row,
    ) by {
        lemma_top_exact(heights, i);
        lemma_tops_monotone(heights, i + 1, heights.len() as int);
    }
}

/// The clip computation is idempotent: results that satisfy the clip
/// formulas for identical inputs are identical, so re-running it on a frame
/// with no input changes nothing.
pub proof fn lemma_clip_deterministic(
    r1: Option<ClipRect>,
    r2: Option<ClipRect>,
    msg_top: int,
    height: int,
    scroll: int,
    visible_height: int,
)
    requires
        clip_matches(r1, msg_top, height, scroll, visible_height),
        clip_matches(r2, msg_top, height, scroll, visible_height),
    ensures
        r1 == r2,
{
}

} // verus!
