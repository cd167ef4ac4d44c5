use ink::chat_mode::{ChatMode, Mode};
use ink::message::{Message, Role, OFFSET};
use ink::page::Page;
use ink::textarea::TextArea;
use ink::textbox::TextBox;
use ink::utils::{get_height, get_longest_string};

#[test]
fn height_is_line_count_plus_padding_with_a_floor() {
    assert_eq!(OFFSET, 2);
    assert_eq!(get_height(&String::new()), 3);
    assert_eq!(get_height(&"hello".to_string()), 3);
    assert_eq!(get_height(&"a\nb".to_string()), 4);
    assert_eq!(get_height(&"a\nb\nc".to_string()), 5);
    // A trailing newline opens one more (empty) line.
    assert_eq!(get_height(&"a\n".to_string()), 4);
    assert_eq!(get_height(&"\n".to_string()), 4);
}

#[test]
fn height_clamps_at_the_row_counter_limit() {
    // 70000 newlines open 70001 lines; the height saturates at u16::MAX.
    let text = "\n".repeat(70000);
    assert_eq!(get_height(&text), u16::MAX);
    // 65532 newlines: 65533 lines + 2 rows of padding land exactly on the limit.
    let text = "\n".repeat(65532);
    assert_eq!(get_height(&text), u16::MAX);
    let text = "\n".repeat(65531);
    assert_eq!(get_height(&text), u16::MAX - 1);
}

#[test]
fn longest_line_measures_characters_between_newlines() {
    assert_eq!(get_longest_string(&String::new()), 0);
    assert_eq!(get_longest_string(&"abc".to_string()), 3);
    assert_eq!(get_longest_string(&"ab\ncdef\nx".to_string()), 4);
    assert_eq!(get_longest_string(&"a\n\n\nbb".to_string()), 2);
    assert_eq!(get_longest_string(&"\n\n".to_string()), 0);
}

#[test]
fn new_message_derives_its_height() {
    let m = Message::new(7, "one\ntwo\nthree".to_string(), Role::User);
    assert_eq!(m.id, 7);
    assert_eq!(m.role, Role::User);
    assert_eq!(m.height, 5);
    assert!(!m.is_selected);
    assert_eq!(m.skip_lines, 0);
    assert_eq!(m.scroll_state, 0);
    assert_eq!(m.scroll_area, 0);
}

#[test]
fn prepare_derives_the_horizontal_scroll_area() {
    let mut m = Message::new(0, "short\na much longer line".to_string(), Role::System);
    m.prepare(10);
    assert_eq!(m.scroll_area, 8);
    m.prepare(40);
    assert_eq!(m.scroll_area, 0);
}

#[test]
fn horizontal_scroll_stops_at_both_ends() {
    let mut m = Message::new(0, "wide line here".to_string(), Role::System);
    m.prepare(10);
    assert_eq!(m.scroll_area, 4);
    m.scroll_left();
    assert_eq!(m.scroll_state, 0);
    for _ in 0..6 {
        m.scroll_right();
    }
    assert_eq!(m.scroll_state, 4);
    m.scroll_left();
    assert_eq!(m.scroll_state, 3);
}

#[test]
fn skip_hint_drives_the_border_and_paragraph_scroll() {
    let mut m = Message::new(0, "a\nb\nc".to_string(), Role::System);
    assert!(m.shows_top_border());
    assert_eq!(m.paragraph_scroll(), 0);
    m.set_skip_lines(1);
    assert!(!m.shows_top_border());
    assert_eq!(m.paragraph_scroll(), 0);
    m.set_skip_lines(2);
    assert!(!m.shows_top_border());
    assert_eq!(m.paragraph_scroll(), 2);
}

#[test]
fn roles_map_to_the_backend_vocabulary() {
    assert_eq!(Role::System.to_lower_string(), "system");
    assert_eq!(Role::User.to_lower_string(), "user");
    assert_eq!(Role::Assistant.to_lower_string(), "assistant");
}

#[test]
fn mode_menu_cycles_and_names_its_entries() {
    assert_eq!(Mode::default(), Mode::Default);
    assert_eq!(Mode::Default.next(), Mode::Debug);
    assert_eq!(Mode::Debug.next(), Mode::Default);
    assert_eq!(Mode::Default.prev(), Mode::Debug);
    assert_eq!(Mode::Debug.prev(), Mode::Default);
    assert_eq!(Mode::Default.to_string(), "Default");
    assert_eq!(Mode::Debug.to_string(), "Debug");
    assert_eq!(Mode::Default.len(), 2);
}

#[test]
fn chat_mode_tracks_the_chosen_mode() {
    let mut cm = ChatMode::new();
    assert_eq!(cm.mode, Mode::Default);
    cm.set_mode(&Mode::Debug);
    assert_eq!(cm.mode, Mode::Debug);
}

#[test]
fn the_application_starts_on_the_mode_menu() {
    assert_eq!(Page::default(), Page::Modes);
}

#[test]
fn text_box_starts_empty() {
    let tb = TextBox::default();
    assert_eq!(tb.text, "");
}

#[test]
fn input_box_hit_test_uses_its_recorded_bounds() {
    let mut ta = TextArea::default();
    assert!(!ta.is_selected);
    assert!(!ta.is_within(0, 0));
    ta.set_bounds(10, 20, 30, 3);
    assert!(ta.is_within(10, 20));
    assert!(ta.is_within(39, 22));
    assert!(!ta.is_within(40, 21));
    assert!(!ta.is_within(9, 21));
    assert!(!ta.is_within(15, 23));
    assert!(!ta.is_within(15, 19));
}

#[test]
fn input_box_hit_test_does_not_overflow_at_the_edge() {
    let mut ta = TextArea::default();
    ta.set_bounds(u16::MAX - 1, u16::MAX - 1, 10, 10);
    assert!(ta.is_within(u16::MAX, u16::MAX));
    assert!(!ta.is_within(0, 0));
}
