use ink::chat::{Chat, InputEvent, Selection};
use ink::message::Role;

/// Texts whose derived heights are 4, 6 and 5: line count plus 2, floor 3.
fn three_messages() -> Chat {
    Chat::new(vec![
        ("one\ntwo".to_string(), Role::System),
        ("a\nb\nc\nd".to_string(), Role::User),
        ("x\ny\nz".to_string(), Role::Assistant),
    ])
}

fn selected_marks(chat: &Chat) -> usize {
    let mut marks = 0;
    for m in &chat.messages {
        if m.is_selected {
            marks += 1;
        }
    }
    if chat.textarea.is_selected {
        marks += 1;
    }
    marks
}

#[test]
fn empty_store_is_idle_and_safe() {
    // 0 messages: selection is none, the scroll range is 0, the clip pass
    // produces no rectangles, and nothing panics.
    let mut chat = Chat::new(Vec::new());
    assert_eq!(chat.selection, Selection::Unselected);
    let rects = chat.layout_frame(10);
    assert!(rects.is_empty());
    assert_eq!(chat.scroll_area, 0);
    assert_eq!(chat.scroll_state, 0);
    assert_eq!(selected_marks(&chat), 0);
}

#[test]
fn first_message_starts_selected() {
    let chat = three_messages();
    assert_eq!(chat.selection, Selection::MessageAt(0));
    assert!(chat.messages[0].is_selected);
    assert!(!chat.messages[1].is_selected);
    assert_eq!(selected_marks(&chat), 1);
}

#[test]
fn message_ids_are_store_positions() {
    let chat = three_messages();
    for (i, m) in chat.messages.iter().enumerate() {
        assert_eq!(m.id, i);
    }
}

#[test]
fn scroll_stops_at_both_ends() {
    let mut chat = three_messages();
    chat.scroll_up();
    assert_eq!(chat.scroll_state, 0);
    chat.set_scroll_area(2);
    chat.scroll_down();
    chat.scroll_down();
    chat.scroll_down();
    assert_eq!(chat.scroll_state, 2);
}

#[test]
fn scrolling_survives_the_largest_range() {
    let mut chat = three_messages();
    chat.set_scroll_area(usize::MAX);
    chat.scroll_down();
    assert_eq!(chat.scroll_state, 1);
    chat.recompute_range(usize::MAX, 0);
    assert_eq!(chat.scroll_area, usize::MAX);
    assert_eq!(chat.scroll_state, 1);
}

#[test]
fn recompute_range_clamps_the_offset() {
    let mut chat = three_messages();
    chat.set_scroll_area(20);
    for _ in 0..9 {
        chat.scroll_down();
    }
    assert_eq!(chat.scroll_state, 9);
    chat.recompute_range(12, 10);
    assert_eq!(chat.scroll_area, 2);
    assert_eq!(chat.scroll_state, 2);
}

#[test]
fn recompute_range_with_short_content_gives_zero() {
    // total_height < visible_height: the range collapses to 0 and so does
    // the offset.
    let mut chat = three_messages();
    chat.set_scroll_area(5);
    chat.scroll_down();
    chat.recompute_range(6, 10);
    assert_eq!(chat.scroll_area, 0);
    assert_eq!(chat.scroll_state, 0);
}

#[test]
fn total_height_includes_the_input_box_region() {
    let mut chat = three_messages();
    chat.layout_frame(10);
    // Heights 4 + 6 + 5 plus the fixed 2-row offset.
    assert_eq!(chat.height, 17);
    assert_eq!(chat.scroll_area, 7);
}

#[test]
fn selection_moves_and_stops_at_the_ends() {
    let mut chat = three_messages();
    chat.select_next();
    assert_eq!(chat.selection, Selection::MessageAt(1));
    chat.select_next();
    assert_eq!(chat.selection, Selection::MessageAt(2));
    chat.select_next();
    assert_eq!(chat.selection, Selection::MessageAt(2));
    chat.select_prev();
    chat.select_prev();
    assert_eq!(chat.selection, Selection::MessageAt(0));
    chat.select_prev();
    assert_eq!(chat.selection, Selection::MessageAt(0));
    assert_eq!(selected_marks(&chat), 1);
}

#[test]
fn selection_keys_leave_the_input_box_selected() {
    // Next/prev selection keys never move the selection out of the input
    // box into message space.
    let mut chat = three_messages();
    chat.select_input_box();
    assert_eq!(chat.selection, Selection::InputBox);
    chat.select_next();
    assert_eq!(chat.selection, Selection::InputBox);
    chat.select_prev();
    assert_eq!(chat.selection, Selection::InputBox);
    assert!(chat.handle_input(InputEvent::SelectNext) == false);
    assert_eq!(chat.selection, Selection::InputBox);
    assert_eq!(selected_marks(&chat), 1);
}

#[test]
fn escape_clears_any_selection() {
    let mut chat = three_messages();
    let exit = chat.handle_input(InputEvent::Escape);
    assert!(!exit);
    assert_eq!(chat.selection, Selection::Unselected);
    assert_eq!(selected_marks(&chat), 0);
    chat.select_input_box();
    chat.clear_selection();
    assert_eq!(chat.selection, Selection::Unselected);
    assert_eq!(selected_marks(&chat), 0);
}

#[test]
fn at_most_one_entity_is_ever_marked() {
    let mut chat = three_messages();
    assert_eq!(selected_marks(&chat), 1);
    chat.select_next();
    assert_eq!(selected_marks(&chat), 1);
    chat.select_input_box();
    assert_eq!(selected_marks(&chat), 1);
    chat.select_prev();
    assert_eq!(selected_marks(&chat), 1);
    chat.clear_selection();
    assert_eq!(selected_marks(&chat), 0);
    chat.layout_frame(10);
    assert_eq!(selected_marks(&chat), 0);
}

#[test]
fn quit_is_the_only_exiting_command() {
    let mut chat = three_messages();
    assert!(!chat.handle_input(InputEvent::ScrollDown));
    assert!(!chat.handle_input(InputEvent::ScrollUp));
    assert!(!chat.handle_input(InputEvent::SelectNext));
    assert!(!chat.handle_input(InputEvent::SelectPrev));
    assert!(!chat.handle_input(InputEvent::Escape));
    assert!(chat.handle_input(InputEvent::Quit));
}

#[test]
fn push_user_message_appends_in_order() {
    let mut chat = three_messages();
    let idx = chat.push_user_message("hello".to_string());
    assert_eq!(idx, 3);
    assert_eq!(chat.messages.len(), 4);
    let m = &chat.messages[3];
    assert_eq!(m.id, 3);
    assert_eq!(m.role, Role::User);
    assert_eq!(m.text, "hello");
    assert_eq!(m.height, 3);
    assert!(!m.is_selected);
}

#[test]
fn generation_request_lists_the_conversation_in_order() {
    let mut chat = three_messages();
    let body = chat.start_generating();
    assert_eq!(body.len(), 3);
    assert_eq!(body[0].role, "system");
    assert_eq!(body[0].content, "one\ntwo");
    assert_eq!(body[1].role, "user");
    assert_eq!(body[1].content, "a\nb\nc\nd");
    assert_eq!(body[2].role, "assistant");
    assert_eq!(body[2].content, "x\ny\nz");
}

#[test]
fn starting_a_generation_appends_an_in_flight_assistant_message() {
    let mut chat = three_messages();
    let epoch_before = chat.epoch;
    chat.start_generating();
    assert_eq!(chat.messages.len(), 4);
    let m = &chat.messages[3];
    assert_eq!(m.role, Role::Assistant);
    assert_eq!(m.text, "");
    assert_eq!(m.height, 3);
    assert_eq!(chat.in_flight, Some(3));
    assert_eq!(chat.epoch, epoch_before + 1);
}

#[test]
fn submit_appends_user_message_then_generation_target() {
    let mut chat = Chat::new(Vec::new());
    let body = chat.submit_input("hi there".to_string());
    assert_eq!(chat.messages.len(), 2);
    assert_eq!(chat.messages[0].role, Role::User);
    assert_eq!(chat.messages[0].text, "hi there");
    assert_eq!(chat.messages[1].role, Role::Assistant);
    assert_eq!(chat.messages[1].text, "");
    assert_eq!(chat.in_flight, Some(1));
    assert_eq!(body.len(), 1);
    assert_eq!(body[0].role, "user");
    assert_eq!(body[0].content, "hi there");
}

#[test]
fn deltas_concatenate_in_order_and_grow_the_height() {
    let mut chat = Chat::new(Vec::new());
    chat.submit_input("question".to_string());
    let epoch = chat.epoch;
    assert!(chat.ingest_delta(epoch, "Hello"));
    assert!(chat.ingest_delta(epoch, ", "));
    assert!(chat.ingest_delta(epoch, "world\nagain"));
    let m = &chat.messages[1];
    assert_eq!(m.text, "Hello, world\nagain");
    assert_eq!(m.height, 4);
}

#[test]
fn height_never_shrinks_while_streaming() {
    let mut chat = Chat::new(Vec::new());
    chat.submit_input("q".to_string());
    let epoch = chat.epoch;
    let mut last_height = chat.messages[1].height;
    for delta in ["a", "\n", "bb\ncc", "", "d"] {
        assert!(chat.ingest_delta(epoch, delta));
        let h = chat.messages[1].height;
        assert!(h >= last_height);
        last_height = h;
    }
}

#[test]
fn stale_epoch_deltas_are_discarded() {
    let mut chat = Chat::new(Vec::new());
    chat.submit_input("first".to_string());
    let stale = chat.epoch;
    chat.submit_input("second".to_string());
    assert!(!chat.ingest_delta(stale, "late text"));
    assert_eq!(chat.messages[1].text, "");
    assert_eq!(chat.messages[3].text, "");
    assert!(chat.ingest_delta(chat.epoch, "fresh"));
    assert_eq!(chat.messages[3].text, "fresh");
    assert_eq!(chat.messages[1].text, "");
}

#[test]
fn deltas_without_a_target_are_discarded() {
    let mut chat = three_messages();
    assert_eq!(chat.in_flight, None);
    assert!(!chat.ingest_delta(chat.epoch, "orphan"));
    assert_eq!(chat.messages.len(), 3);
    assert_eq!(chat.messages[2].text, "x\ny\nz");
}

#[test]
fn selection_follows_scroll_at_the_exact_boundary() {
    // Viewport height 10, messages of heights 4, 6, 5. Message 0's bottom
    // edge is at content row 4; the selection must move to message 1 exactly
    // when the bottom edge reaches the one-line top margin, i.e. at scroll
    // offset 3, not before.
    let mut chat = three_messages();
    assert_eq!(chat.selection, Selection::MessageAt(0));
    chat.layout_frame(10);
    chat.handle_input(InputEvent::ScrollDown);
    chat.layout_frame(10);
    assert_eq!(chat.scroll_state, 1);
    assert_eq!(chat.selection, Selection::MessageAt(0));
    chat.handle_input(InputEvent::ScrollDown);
    chat.layout_frame(10);
    assert_eq!(chat.selection, Selection::MessageAt(0));
    chat.handle_input(InputEvent::ScrollDown);
    let rects = chat.layout_frame(10);
    assert_eq!(chat.scroll_state, 3);
    assert_eq!(chat.selection, Selection::MessageAt(1));
    assert!(chat.messages[1].is_selected);
    assert!(!chat.messages[0].is_selected);
    // Message 0 still shows its last row at offset 3, per the clip formula.
    let first = rects[0].expect("one row of message 0 is still visible");
    assert_eq!(first.height, 1);
    assert_eq!(first.skip_lines, 3);
    // One more step hides message 0 entirely; the selection stays put.
    chat.handle_input(InputEvent::ScrollDown);
    let rects = chat.layout_frame(10);
    assert!(rects[0].is_none());
    assert_eq!(chat.selection, Selection::MessageAt(1));
}

#[test]
fn selection_steps_back_at_the_bottom_margin() {
    // The selected message's top edge sits exactly one line of margin above
    // the viewport bottom: the selection steps back to the previous
    // message. With heights 4, 6, 5 and viewport 10, message 2's top is at
    // content row 10, and 10 + 1 == scroll + 10 at scroll offset 1.
    let mut chat = three_messages();
    chat.set_selection(Selection::MessageAt(2));
    chat.layout_frame(10);
    chat.handle_input(InputEvent::ScrollDown);
    chat.layout_frame(10);
    assert_eq!(chat.scroll_state, 1);
    assert_eq!(chat.selection, Selection::MessageAt(1));
    assert!(chat.messages[1].is_selected);
}

#[test]
fn follow_rule_ignores_input_box_selection() {
    let mut chat = three_messages();
    chat.select_input_box();
    for _ in 0..5 {
        chat.handle_input(InputEvent::ScrollDown);
        chat.layout_frame(10);
    }
    assert_eq!(chat.selection, Selection::InputBox);
}

#[test]
fn clicking_selects_the_hit_message() {
    let mut chat = three_messages();
    // Viewport at origin (2, 1), width 40, height 10, scroll 0: message 0
    // covers viewport rows [0, 4), message 1 rows [4, 10).
    let rects = chat.layout_frame(10);
    chat.select_at(5, 2, 2, 1, 40, &rects);
    assert_eq!(chat.selection, Selection::MessageAt(0));
    chat.select_at(5, 6, 2, 1, 40, &rects);
    assert_eq!(chat.selection, Selection::MessageAt(1));
    // A click left of the viewport hits nothing and changes nothing.
    chat.select_at(1, 6, 2, 1, 40, &rects);
    assert_eq!(chat.selection, Selection::MessageAt(1));
}

#[test]
fn clicking_the_input_box_selects_it() {
    let mut chat = three_messages();
    chat.textarea.set_bounds(2, 12, 40, 3);
    let rects = chat.layout_frame(10);
    chat.select_at(10, 13, 2, 1, 40, &rects);
    assert_eq!(chat.selection, Selection::InputBox);
    assert!(chat.textarea.is_selected);
    assert_eq!(selected_marks(&chat), 1);
}
