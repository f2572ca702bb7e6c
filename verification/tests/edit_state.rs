use egui_memory_editor::option_data::{
    ArrowKey, BetweenFrameData, DataFormatType, MouseButton, WriteRequest,
};

fn armed_at(address: usize) -> BetweenFrameData {
    let mut data = BetweenFrameData::default();
    data.click(address, MouseButton::Primary, true);
    data
}

#[test]
fn a_new_state_is_idle() {
    let data = BetweenFrameData::default();
    assert_eq!(data.selected_edit_address(), None);
    assert!(data.edit_buffer().is_empty());
    assert_eq!(data.highlighted_address(), None);
    assert!(!data.request_focus());
    assert_eq!(data.goto_line(), None);
    assert!(!data.combo_box_enabled());
}

#[test]
fn typing_9f_at_address_10_writes_once() {
    let space = 0..256;
    let mut data = armed_at(10);
    assert_eq!(data.selected_edit_address(), Some(10));
    assert!(data.request_focus());
    assert_eq!(data.type_char('9', &space, true), None);
    assert_eq!(data.selected_edit_address(), Some(10));
    assert_eq!(data.edit_buffer(), &vec!['9']);
    assert_eq!(
        data.type_char('F', &space, true),
        Some(WriteRequest { address: 10, value: 0x9F })
    );
    assert_eq!(data.selected_edit_address(), Some(11));
    assert!(data.edit_buffer().is_empty());
    assert!(data.request_focus());
}

#[test]
fn two_digits_in_one_text_write_once() {
    let space = 0..256;
    let mut data = armed_at(0x20);
    assert_eq!(
        data.edit_text("a7", &space, true),
        Some(WriteRequest { address: 0x20, value: 0xA7 })
    );
    assert_eq!(data.selected_edit_address(), Some(0x21));
    assert_eq!(data.edit_text("", &space, true), None);
    assert_eq!(data.selected_edit_address(), Some(0x21));
    let mut data = armed_at(0x20);
    assert_eq!(
        data.edit_text("x1-2y3", &space, true),
        Some(WriteRequest { address: 0x20, value: 0x12 })
    );
    let chars = vec!['0', 'f'];
    let mut data = armed_at(3);
    assert_eq!(data.edit_chars(&chars, &space, true), Some(WriteRequest { address: 3, value: 15 }));
}

#[test]
fn other_characters_leave_the_buffer_alone() {
    let space = 0..256;
    let mut data = armed_at(10);
    for c in ['g', ' ', '-', 'x', '\u{e9}', 'Z'] {
        assert_eq!(data.type_char(c, &space, true), None);
        assert!(data.edit_buffer().is_empty());
        assert_eq!(data.selected_edit_address(), Some(10));
    }
    assert_eq!(data.type_char('c', &space, true), None);
    for c in ['g', ' ', '-', 'x', '\u{e9}', 'Z'] {
        assert_eq!(data.type_char(c, &space, true), None);
        assert_eq!(data.edit_buffer(), &vec!['c']);
        assert_eq!(data.selected_edit_address(), Some(10));
    }
    assert_eq!(data.type_char('0', &space, true), Some(WriteRequest { address: 10, value: 0xC0 }));
}

#[test]
fn typing_while_idle_does_nothing() {
    let space = 0..256;
    let mut data = BetweenFrameData::default();
    assert_eq!(data.type_char('9', &space, true), None);
    assert_eq!(data.edit_text("9F", &space, true), None);
    assert_eq!(data.selected_edit_address(), None);
    assert!(data.edit_buffer().is_empty());
}

#[test]
fn the_last_cell_advances_past_the_range_and_the_edit_then_ends() {
    let space = 0..256;
    let mut data = armed_at(255);
    assert_eq!(data.edit_text("ff", &space, true), Some(WriteRequest { address: 255, value: 255 }));
    assert_eq!(data.selected_edit_address(), Some(256));
    data.revalidate(&space, true);
    assert_eq!(data.selected_edit_address(), None);
    assert!(!data.request_focus());
}

#[test]
fn up_in_the_first_row_goes_to_the_start() {
    let mut data = armed_at(5);
    data.arrow_key(ArrowKey::Up, &(0..256), 16);
    assert_eq!(data.selected_edit_address(), Some(0));
    let mut data = armed_at(0x105);
    data.arrow_key(ArrowKey::Up, &(0x100..0x200), 16);
    assert_eq!(data.selected_edit_address(), Some(0x100));
    let mut data = armed_at(0x10F);
    data.arrow_key(ArrowKey::Up, &(0x100..0x200), 16);
    assert_eq!(data.selected_edit_address(), Some(0x100));
    let mut data = armed_at(0x110);
    data.arrow_key(ArrowKey::Up, &(0x100..0x200), 16);
    assert_eq!(data.selected_edit_address(), Some(0x100));
    let mut data = armed_at(0x111);
    data.arrow_key(ArrowKey::Up, &(0x100..0x200), 16);
    assert_eq!(data.selected_edit_address(), Some(0x101));
}

#[test]
fn arrows_move_by_one_cell_or_one_row() {
    let space = 0..256;
    let mut data = armed_at(40);
    data.type_char('a', &space, true);
    data.arrow_key(ArrowKey::Right, &space, 16);
    assert_eq!(data.selected_edit_address(), Some(41));
    assert!(data.edit_buffer().is_empty());
    assert!(data.request_focus());
    data.arrow_key(ArrowKey::Down, &space, 16);
    assert_eq!(data.selected_edit_address(), Some(57));
    data.arrow_key(ArrowKey::Left, &space, 16);
    assert_eq!(data.selected_edit_address(), Some(56));
    data.arrow_key(ArrowKey::Up, &space, 16);
    assert_eq!(data.selected_edit_address(), Some(40));
}

#[test]
fn arrows_stop_at_the_ends_of_the_range() {
    let space = 16..64;
    let mut data = armed_at(16);
    data.arrow_key(ArrowKey::Left, &space, 16);
    assert_eq!(data.selected_edit_address(), Some(16));
    let mut data = armed_at(63);
    data.arrow_key(ArrowKey::Right, &space, 16);
    assert_eq!(data.selected_edit_address(), Some(63));
    let mut data = armed_at(50);
    data.arrow_key(ArrowKey::Down, &space, 16);
    assert_eq!(data.selected_edit_address(), Some(63));
    let mut data = armed_at(47);
    data.arrow_key(ArrowKey::Down, &space, 16);
    assert_eq!(data.selected_edit_address(), Some(63));
    let mut data = armed_at(46);
    data.arrow_key(ArrowKey::Down, &space, 16);
    assert_eq!(data.selected_edit_address(), Some(62));
    let wide = 0..usize::MAX;
    let mut data = armed_at(usize::MAX - 1);
    data.arrow_key(ArrowKey::Down, &wide, usize::MAX);
    assert_eq!(data.selected_edit_address(), Some(usize::MAX - 1));
    data.arrow_key(ArrowKey::Up, &wide, usize::MAX);
    assert_eq!(data.selected_edit_address(), Some(0));
}

#[test]
fn arrows_do_nothing_while_idle_and_end_an_edit_outside_the_range() {
    let mut data = BetweenFrameData::default();
    data.arrow_key(ArrowKey::Right, &(0..256), 16);
    assert_eq!(data.selected_edit_address(), None);
    assert!(!data.request_focus());
    let mut data = armed_at(300);
    data.arrow_key(ArrowKey::Left, &(0..256), 16);
    assert_eq!(data.selected_edit_address(), None);
    let mut data = armed_at(0);
    data.arrow_key(ArrowKey::Left, &(0..0), 16);
    assert_eq!(data.selected_edit_address(), None);
}

#[test]
fn clicks_without_write_access_only_highlight() {
    let mut data = BetweenFrameData::default();
    data.click(7, MouseButton::Primary, false);
    assert_eq!(data.selected_edit_address(), None);
    assert_eq!(data.highlighted_address(), Some(7));
    assert!(!data.request_focus());
    data.click(9, MouseButton::Secondary, false);
    assert_eq!(data.selected_edit_address(), None);
    assert_eq!(data.highlighted_address(), Some(9));
}

#[test]
fn secondary_click_highlights_and_keeps_the_edit() {
    let space = 0..256;
    let mut data = armed_at(10);
    data.type_char('4', &space, true);
    data.click(12, MouseButton::Secondary, true);
    assert_eq!(data.selected_edit_address(), Some(10));
    assert_eq!(data.edit_buffer(), &vec!['4']);
    assert_eq!(data.highlighted_address(), Some(12));
    data.click(20, MouseButton::Primary, true);
    assert_eq!(data.selected_edit_address(), Some(20));
    assert!(data.edit_buffer().is_empty());
    assert_eq!(data.highlighted_address(), Some(12));
}

#[test]
fn losing_focus_drops_a_partial_entry() {
    let space = 0..256;
    let mut data = armed_at(10);
    data.type_char('4', &space, true);
    data.focus_lost();
    assert_eq!(data.selected_edit_address(), None);
    assert!(data.edit_buffer().is_empty());
    assert!(!data.request_focus());
    data.focus_lost();
    assert_eq!(data.selected_edit_address(), None);
}

#[test]
fn an_edit_ends_without_write_access_or_outside_the_range() {
    let mut data = armed_at(10);
    data.revalidate(&(0..256), true);
    assert_eq!(data.selected_edit_address(), Some(10));
    data.revalidate(&(0..256), false);
    assert_eq!(data.selected_edit_address(), None);
    let mut data = armed_at(10);
    data.revalidate(&(11..256), true);
    assert_eq!(data.selected_edit_address(), None);
    let mut data = armed_at(10);
    assert_eq!(data.type_char('1', &(0..256), false), None);
    assert_eq!(data.selected_edit_address(), None);
    let mut data = armed_at(10);
    assert_eq!(data.edit_text("12", &(0..10), true), None);
    assert_eq!(data.selected_edit_address(), None);
}

#[test]
fn selecting_an_edit_address_checks_the_range() {
    let mut data = BetweenFrameData::default();
    data.set_selected_edit_address(Some(5), &(0..10));
    assert_eq!(data.selected_edit_address(), Some(5));
    assert!(data.request_focus());
    data.set_selected_edit_address(Some(10), &(0..10));
    assert_eq!(data.selected_edit_address(), None);
    assert!(!data.request_focus());
    data.set_selected_edit_address(Some(5), &(0..10));
    data.set_selected_edit_address(None, &(0..10));
    assert_eq!(data.selected_edit_address(), None);
}

#[test]
fn one_shot_requests_are_taken_once() {
    let mut data = armed_at(10);
    assert!(data.take_request_focus());
    assert!(!data.take_request_focus());
    assert_eq!(data.selected_edit_address(), Some(10));
    data.set_goto_line(5);
    assert_eq!(data.goto_line(), Some(5));
    assert_eq!(data.take_goto_line(&(0..16)), Some(5));
    assert_eq!(data.take_goto_line(&(0..16)), None);
    data.set_goto_line(16);
    assert_eq!(data.take_goto_line(&(0..16)), None);
    assert_eq!(data.goto_line(), None);
}

#[test]
fn highlight_covers_the_previewed_value() {
    let mut data = BetweenFrameData::default();
    assert!(!data.should_highlight(0));
    assert!(!data.should_subtle_highlight(0, DataFormatType::U64));
    data.set_highlight_address(100);
    assert!(data.should_highlight(100));
    assert!(!data.should_highlight(101));
    assert!(data.should_subtle_highlight(100, DataFormatType::U8));
    assert!(!data.should_subtle_highlight(101, DataFormatType::U8));
    assert!(data.should_subtle_highlight(103, DataFormatType::F32));
    assert!(!data.should_subtle_highlight(104, DataFormatType::I32));
    assert!(data.should_subtle_highlight(107, DataFormatType::F64));
    assert!(!data.should_subtle_highlight(99, DataFormatType::U16));
    assert_eq!(DataFormatType::U16.bytes_to_read(), 2);
    assert_eq!(DataFormatType::I64.bytes_to_read(), 8);
    data.set_highlight_address(usize::MAX);
    assert!(data.should_subtle_highlight(usize::MAX, DataFormatType::U64));
}
