use lan_chat::tui::app::text_area::TextArea;

fn area(content: &str, cursor: usize) -> TextArea {
    TextArea { content: content.to_string(), character_index: cursor, title: "t".to_string() }
}

#[test]
fn new_text_area_is_empty() {
    let a = TextArea::new("Message".to_string());
    assert_eq!(a.content, "");
    assert_eq!(a.character_index, 0);
    assert_eq!(a.title, "Message");
}

#[test]
fn clamp_cursor_stops_at_the_end() {
    let a = area("héllo", 0);
    assert_eq!(a.clamp_cursor(0), 0);
    assert_eq!(a.clamp_cursor(3), 3);
    assert_eq!(a.clamp_cursor(5), 5);
    assert_eq!(a.clamp_cursor(6), 5);
    assert_eq!(a.clamp_cursor(usize::MAX), 5);
}

#[test]
fn cursor_moves_within_the_text() {
    let mut a = area("abc", 1);
    a.move_cursor_left();
    assert_eq!(a.character_index, 0);
    a.move_cursor_left();
    assert_eq!(a.character_index, 0);
    a.move_cursor_right();
    a.move_cursor_right();
    a.move_cursor_right();
    assert_eq!(a.character_index, 3);
    a.move_cursor_right();
    assert_eq!(a.character_index, 3);
    a.reset_cursor();
    assert_eq!(a.character_index, 0);
    assert_eq!(a.content, "abc");
}

#[test]
fn cursor_beyond_the_end_comes_back() {
    let mut a = area("abc", 10);
    a.move_cursor_left();
    assert_eq!(a.character_index, 3);

    let mut a = area("abc", usize::MAX);
    a.move_cursor_right();
    assert_eq!(a.character_index, 3);
}

#[test]
fn byte_index_counts_bytes_not_characters() {
    assert_eq!(area("abc", 0).byte_index(), 0);
    assert_eq!(area("abc", 2).byte_index(), 2);
    assert_eq!(area("abc", 3).byte_index(), 3);
    assert_eq!(area("abc", 9).byte_index(), 3);
    assert_eq!(area("é€😀x", 1).byte_index(), 2);
    assert_eq!(area("é€😀x", 2).byte_index(), 5);
    assert_eq!(area("é€😀x", 3).byte_index(), 9);
    assert_eq!(area("é€😀x", 4).byte_index(), 10);
    assert_eq!(area("", 0).byte_index(), 0);
}

#[test]
fn enter_char_puts_the_character_at_the_cursor() {
    let mut a = area("", 0);
    a.enter_char('b');
    assert_eq!(a.content, "b");
    assert_eq!(a.character_index, 1);
    a.reset_cursor();
    a.enter_char('a');
    assert_eq!(a.content, "ab");
    assert_eq!(a.character_index, 1);
    a.move_cursor_right();
    a.enter_char('c');
    assert_eq!(a.content, "abc");
    assert_eq!(a.character_index, 3);
}

#[test]
fn enter_char_works_between_wide_characters() {
    let mut a = area("é😀", 1);
    a.enter_char('€');
    assert_eq!(a.content, "é€😀");
    assert_eq!(a.character_index, 2);
    a.enter_char('x');
    assert_eq!(a.content, "é€x😀");
    assert_eq!(a.character_index, 3);
}

#[test]
fn enter_char_beyond_the_end_appends() {
    let mut a = area("ab", 7);
    a.enter_char('c');
    assert_eq!(a.content, "abc");
    assert_eq!(a.character_index, 3);
}

#[test]
fn delete_takes_the_character_before_the_cursor() {
    let mut a = area("abc", 2);
    a.delete_current_char();
    assert_eq!(a.content, "ac");
    assert_eq!(a.character_index, 1);
    a.delete_current_char();
    assert_eq!(a.content, "c");
    assert_eq!(a.character_index, 0);
    a.delete_current_char();
    assert_eq!(a.content, "c");
    assert_eq!(a.character_index, 0);
}

#[test]
fn delete_at_the_end_takes_the_last_character() {
    let mut a = area("é€😀", 3);
    a.delete_current_char();
    assert_eq!(a.content, "é€");
    assert_eq!(a.character_index, 2);
    a.delete_current_char();
    assert_eq!(a.content, "é");
    assert_eq!(a.character_index, 1);
}

#[test]
fn delete_beyond_the_end_takes_nothing() {
    let mut a = area("abc", 5);
    a.delete_current_char();
    assert_eq!(a.content, "abc");
    assert_eq!(a.character_index, 3);
}

#[test]
fn clear_input_empties_the_text() {
    let mut a = area("hello", 3);
    a.clear_input();
    assert_eq!(a.content, "");
    assert_eq!(a.character_index, 0);
    assert_eq!(a.title, "t");
}
