use remedy::select::{frame, row, Key, Pressed, Select};

#[test]
fn arrows_move_the_mark_by_one() {
    let mut select = Select::new(vec!["again", "hard", "good", "easy"], 1);
    assert_eq!(select.press(Key::Right), Pressed::Moved);
    assert_eq!(select.selected(), 2);
    assert_eq!(select.press(Key::Left), Pressed::Moved);
    assert_eq!(select.press(Key::Left), Pressed::Moved);
    assert_eq!(select.selected(), 0);
}

#[test]
fn mark_stops_at_both_ends() {
    let mut select = Select::new(vec!["again", "hard", "good"], 0);
    assert_eq!(select.press(Key::Left), Pressed::Stayed);
    assert_eq!(select.selected(), 0);
    select.press(Key::Right);
    select.press(Key::Right);
    assert_eq!(select.press(Key::Right), Pressed::Stayed);
    assert_eq!(select.selected(), 2);
}

#[test]
fn enter_chooses_the_marked_choice() {
    let mut select = Select::new(vec!["again", "hard", "good"], 2);
    select.press(Key::Left);
    assert_eq!(select.press(Key::Enter), Pressed::Chosen);
    assert_eq!(select.selected(), 1);
    assert_eq!(*select.chosen(), "hard");
}

#[test]
fn other_keys_change_nothing() {
    let mut select = Select::new(vec!["again", "hard"], 1);
    assert_eq!(select.press(Key::Other), Pressed::Stayed);
    assert_eq!(select.selected(), 1);
    assert_eq!(*select.chosen(), "hard");
}

#[test]
fn single_choice_cannot_be_left() {
    let mut select = Select::new(vec!["only"], 0);
    assert_eq!(select.press(Key::Right), Pressed::Stayed);
    assert_eq!(select.press(Key::Left), Pressed::Stayed);
    assert_eq!(select.selected(), 0);
    assert_eq!(*select.chosen(), "only");
}

#[test]
fn row_marks_one_label_and_separates_all() {
    let labels = vec!["again".to_string(), "hard".to_string(), "good".to_string()];
    assert_eq!(
        row(&labels, 1, "<"),
        "again\u{1b}[m | <hard\u{1b}[m | good\u{1b}[m"
    );
}

#[test]
fn row_of_one_label_has_no_bar() {
    let labels = vec!["only".to_string()];
    assert_eq!(row(&labels, 0, ">"), ">only\u{1b}[m");
}

#[test]
fn row_without_labels_is_empty() {
    assert_eq!(row(&Vec::new(), 0, ">"), "");
}

#[test]
fn row_with_the_mark_off_the_labels_marks_none() {
    let labels = vec!["a".to_string(), "b".to_string()];
    assert_eq!(row(&labels, 2, ">"), "a\u{1b}[m | b\u{1b}[m");
}

#[test]
fn render_writes_each_choice_as_it_displays() {
    let select = Select::new(vec![10, 20, 30], 2);
    let coloured = "10\u{1b}[m | 20\u{1b}[m | \u{1b}[48;5;7m\u{1b}[38;5;0m30\u{1b}[m";
    let plain = "10\u{1b}[m | 20\u{1b}[m | 30\u{1b}[m";
    let screen = select.render();
    assert!(screen == coloured || screen == plain);
}

#[test]
fn frame_clears_the_line_and_puts_the_cursor_back() {
    assert_eq!(frame("row"), "\u{1b}[2K\u{1b}[srow\u{1b}[u");
}
