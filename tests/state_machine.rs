use todo_tui::input::TextInput;
use todo_tui::key::{KeyCode, KeyEvent, KeyEventKind, CONTROL, SHIFT};
use todo_tui::render::{caret_column, input_area_width};
use todo_tui::state::AppState;
use todo_tui::todo::{CurrentScreen, TodoItem};

fn press(app: &mut AppState, code: KeyCode) {
    app.handle_key(KeyEvent::press(code));
}

fn type_text(app: &mut AppState, text: &str) {
    for c in text.chars() {
        press(app, KeyCode::Char(c));
    }
}

fn add(app: &mut AppState, text: &str) {
    press(app, KeyCode::Char('a'));
    type_text(app, text);
    press(app, KeyCode::Enter);
}

fn descriptions(app: &AppState) -> Vec<String> {
    app.items.iter().map(|t| t.description.clone()).collect()
}

fn flags(app: &AppState) -> Vec<bool> {
    app.items.iter().map(|t| t.done).collect()
}

#[test]
fn new_state_is_empty_main() {
    let app = AppState::new();
    assert_eq!(app.current_screen, CurrentScreen::Main);
    assert!(app.items.is_empty());
    assert_eq!(app.selected, None);
    assert_eq!(app.input.value(), "");
    assert!(app.currently_editing.is_none());
}

#[test]
fn add_commits_append_in_order() {
    let mut app = AppState::new();
    add(&mut app, "one");
    assert_eq!(app.items.len(), 1);
    add(&mut app, "two");
    add(&mut app, "three");
    assert_eq!(descriptions(&app), vec!["one", "two", "three"]);
    assert_eq!(flags(&app), vec![false, false, false]);
    assert_eq!(app.current_screen, CurrentScreen::Main);
    assert_eq!(app.input.value(), "");
    assert_eq!(app.selected, None);
}

#[test]
fn add_key_opens_add_screen_with_empty_buffer() {
    let mut app = AppState::new();
    press(&mut app, KeyCode::Char('a'));
    assert_eq!(app.current_screen, CurrentScreen::Add);
    assert_eq!(app.input.value(), "");
    type_text(&mut app, "xy");
    assert_eq!(app.input.value(), "xy");
    assert_eq!(app.input.cursor(), 2);
}

#[test]
fn empty_add_commit_appends_empty_task() {
    let mut app = AppState::new();
    add(&mut app, "");
    assert_eq!(descriptions(&app), vec![""]);
}

#[test]
fn toggle_flips_only_selected() {
    let mut app = AppState::new();
    add(&mut app, "a1");
    add(&mut app, "a2");
    add(&mut app, "a3");
    press(&mut app, KeyCode::Down);
    press(&mut app, KeyCode::Down);
    assert_eq!(app.selected, Some(1));
    press(&mut app, KeyCode::Char(' '));
    assert_eq!(flags(&app), vec![false, true, false]);
    assert_eq!(descriptions(&app), vec!["a1", "a2", "a3"]);
    press(&mut app, KeyCode::Char(' '));
    assert_eq!(flags(&app), vec![false, false, false]);
}

#[test]
fn toggle_without_selection_does_nothing() {
    let mut app = AppState::new();
    add(&mut app, "a1");
    press(&mut app, KeyCode::Char(' '));
    assert_eq!(flags(&app), vec![false]);
    assert_eq!(app.current_screen, CurrentScreen::Main);
}

#[test]
fn round_trip_edit_keeps_done_flag() {
    let mut app = AppState::new();
    add(&mut app, "buy milk");
    press(&mut app, KeyCode::Down);
    assert_eq!(app.selected, Some(0));
    press(&mut app, KeyCode::Char(' '));
    press(&mut app, KeyCode::Enter);
    assert_eq!(app.current_screen, CurrentScreen::Edit);
    assert_eq!(app.input.value(), "buy milk");
    assert_eq!(app.input.cursor(), 8);
    for _ in 0..4 {
        press(&mut app, KeyCode::Left);
    }
    type_text(&mut app, "oat ");
    assert_eq!(app.input.value(), "buy oat milk");
    press(&mut app, KeyCode::Enter);
    assert_eq!(app.current_screen, CurrentScreen::Main);
    assert_eq!(descriptions(&app), vec!["buy oat milk"]);
    assert_eq!(flags(&app), vec![true]);
    assert!(app.currently_editing.is_none());
    assert_eq!(app.input.value(), "");
}

#[test]
fn round_trip_edit_of_undone_task() {
    let mut app = AppState::new();
    add(&mut app, "buy milk");
    press(&mut app, KeyCode::Down);
    press(&mut app, KeyCode::Enter);
    for _ in 0..4 {
        press(&mut app, KeyCode::Left);
    }
    type_text(&mut app, "oat ");
    press(&mut app, KeyCode::Enter);
    assert_eq!(descriptions(&app), vec!["buy oat milk"]);
    assert_eq!(flags(&app), vec![false]);
}

#[test]
fn edit_commit_changes_only_edited_item() {
    let mut app = AppState::new();
    add(&mut app, "first");
    add(&mut app, "second");
    add(&mut app, "third");
    press(&mut app, KeyCode::Up);
    assert_eq!(app.selected, Some(2));
    press(&mut app, KeyCode::Char(' '));
    press(&mut app, KeyCode::Enter);
    assert_eq!(app.edit_index, 2);
    press(&mut app, KeyCode::Backspace);
    press(&mut app, KeyCode::Backspace);
    type_text(&mut app, "RD");
    press(&mut app, KeyCode::Enter);
    assert_eq!(descriptions(&app), vec!["first", "second", "thiRD"]);
    assert_eq!(flags(&app), vec![false, false, true]);
}

#[test]
fn enter_without_selection_stays_on_main() {
    let mut app = AppState::new();
    press(&mut app, KeyCode::Enter);
    assert_eq!(app.current_screen, CurrentScreen::Main);
    add(&mut app, "x");
    press(&mut app, KeyCode::Enter);
    assert_eq!(app.current_screen, CurrentScreen::Main);
    assert!(app.currently_editing.is_none());
}

#[test]
fn navigation_on_empty_list_selects_nothing() {
    let mut app = AppState::new();
    press(&mut app, KeyCode::Down);
    assert_eq!(app.selected, None);
    press(&mut app, KeyCode::Up);
    assert_eq!(app.selected, None);
}

#[test]
fn navigation_is_clamped() {
    let mut app = AppState::new();
    add(&mut app, "a");
    add(&mut app, "b");
    add(&mut app, "c");
    press(&mut app, KeyCode::Down);
    assert_eq!(app.selected, Some(0));
    press(&mut app, KeyCode::Up);
    assert_eq!(app.selected, Some(0));
    press(&mut app, KeyCode::Down);
    press(&mut app, KeyCode::Down);
    assert_eq!(app.selected, Some(2));
    press(&mut app, KeyCode::Down);
    assert_eq!(app.selected, Some(2));
    press(&mut app, KeyCode::Up);
    assert_eq!(app.selected, Some(1));
}

#[test]
fn up_without_selection_selects_last() {
    let mut app = AppState::new();
    add(&mut app, "a");
    add(&mut app, "b");
    press(&mut app, KeyCode::Up);
    assert_eq!(app.selected, Some(1));
}

#[test]
fn selection_kept_across_add() {
    let mut app = AppState::new();
    add(&mut app, "a");
    press(&mut app, KeyCode::Down);
    add(&mut app, "b");
    assert_eq!(app.selected, Some(0));
}

#[test]
fn escape_add_leaves_list_unchanged() {
    let mut app = AppState::new();
    add(&mut app, "keep");
    press(&mut app, KeyCode::Char('a'));
    type_text(&mut app, "dropped");
    press(&mut app, KeyCode::Esc);
    assert_eq!(app.current_screen, CurrentScreen::Main);
    assert_eq!(descriptions(&app), vec!["keep"]);
    assert_eq!(app.input.value(), "");
}

#[test]
fn escape_edit_leaves_list_unchanged() {
    let mut app = AppState::new();
    add(&mut app, "keep");
    press(&mut app, KeyCode::Down);
    press(&mut app, KeyCode::Enter);
    press(&mut app, KeyCode::Backspace);
    type_text(&mut app, "X");
    assert_eq!(app.input.value(), "keeX");
    press(&mut app, KeyCode::Esc);
    assert_eq!(app.current_screen, CurrentScreen::Main);
    assert_eq!(descriptions(&app), vec!["keep"]);
    assert_eq!(flags(&app), vec![false]);
    assert!(app.currently_editing.is_none());
}

#[test]
fn quit_from_empty_main() {
    let mut app = AppState::new();
    press(&mut app, KeyCode::Char('q'));
    assert_eq!(app.current_screen, CurrentScreen::Exit);
}

#[test]
fn quit_from_non_empty_main() {
    let mut app = AppState::new();
    add(&mut app, "a");
    press(&mut app, KeyCode::Down);
    press(&mut app, KeyCode::Char('q'));
    assert_eq!(app.current_screen, CurrentScreen::Exit);
    assert_eq!(descriptions(&app), vec!["a"]);
}

#[test]
fn q_on_add_screen_is_text() {
    let mut app = AppState::new();
    add(&mut app, "quit");
    assert_eq!(descriptions(&app), vec!["quit"]);
    assert_eq!(app.current_screen, CurrentScreen::Main);
}

#[test]
fn exit_screen_ignores_keys() {
    let mut app = AppState::new();
    press(&mut app, KeyCode::Char('q'));
    press(&mut app, KeyCode::Char('a'));
    assert_eq!(app.current_screen, CurrentScreen::Exit);
}

#[test]
fn releases_change_nothing() {
    let mut app = AppState::new();
    add(&mut app, "a");
    press(&mut app, KeyCode::Down);
    for code in [
        KeyCode::Char('q'),
        KeyCode::Char('a'),
        KeyCode::Char(' '),
        KeyCode::Enter,
        KeyCode::Down,
        KeyCode::Up,
    ] {
        app.handle_key(KeyEvent::release(code));
        assert_eq!(app.current_screen, CurrentScreen::Main);
        assert_eq!(descriptions(&app), vec!["a"]);
        assert_eq!(flags(&app), vec![false]);
        assert_eq!(app.selected, Some(0));
    }
    press(&mut app, KeyCode::Char('a'));
    type_text(&mut app, "b");
    app.handle_key(KeyEvent::release(KeyCode::Enter));
    app.handle_key(KeyEvent::release(KeyCode::Char('c')));
    assert_eq!(app.current_screen, CurrentScreen::Add);
    assert_eq!(app.input.value(), "b");
    assert_eq!(app.items.len(), 1);
}

#[test]
fn repeats_change_nothing() {
    let mut app = AppState::new();
    let repeat = |code| KeyEvent { code, modifiers: 0, kind: KeyEventKind::Repeat };
    app.handle_key(repeat(KeyCode::Char('q')));
    assert_eq!(app.current_screen, CurrentScreen::Main);
    press(&mut app, KeyCode::Char('a'));
    type_text(&mut app, "x");
    app.handle_key(repeat(KeyCode::Char('y')));
    app.handle_key(repeat(KeyCode::Enter));
    assert_eq!(app.current_screen, CurrentScreen::Add);
    assert_eq!(app.input.value(), "x");
    assert!(app.items.is_empty());
    press(&mut app, KeyCode::Esc);
    press(&mut app, KeyCode::Char('q'));
    assert!(app.items.is_empty());
    assert_eq!(app.current_screen, CurrentScreen::Exit);
}

#[test]
fn repeated_enter_does_not_commit_edit() {
    let mut app = AppState::new();
    add(&mut app, "old");
    press(&mut app, KeyCode::Down);
    press(&mut app, KeyCode::Enter);
    type_text(&mut app, "er");
    app.handle_key(KeyEvent { code: KeyCode::Enter, modifiers: 0, kind: KeyEventKind::Repeat });
    assert_eq!(app.current_screen, CurrentScreen::Edit);
    assert_eq!(descriptions(&app), vec!["old"]);
    press(&mut app, KeyCode::Esc);
    assert_eq!(descriptions(&app), vec!["old"]);
}

#[test]
fn plain_editing_keys() {
    let mut input = TextInput::new("abc".to_string());
    input.handle_key(KeyCode::Left, 0);
    assert_eq!(input.cursor(), 2);
    input.handle_key(KeyCode::Backspace, 0);
    assert_eq!(input.value(), "ac");
    assert_eq!(input.cursor(), 1);
    input.handle_key(KeyCode::Right, 0);
    input.handle_key(KeyCode::Right, 0);
    assert_eq!(input.cursor(), 2);
    input.handle_key(KeyCode::Home, 0);
    input.handle_key(KeyCode::Backspace, 0);
    assert_eq!(input.value(), "ac");
    input.handle_key(KeyCode::Left, 0);
    assert_eq!(input.cursor(), 0);
    input.handle_key(KeyCode::Delete, 0);
    assert_eq!(input.value(), "c");
    input.handle_key(KeyCode::End, 0);
    input.handle_key(KeyCode::Delete, 0);
    assert_eq!(input.value(), "c");
    assert_eq!(input.cursor(), 1);
}

#[test]
fn add_remove_replace() {
    let mut app = AppState::new();
    app.add_item(TodoItem::new(false, "x".to_string()));
    app.add_item(TodoItem::new(true, "y".to_string()));
    app.add_item(TodoItem::new(false, "z".to_string()));
    app.replace(TodoItem::new(true, "Y".to_string()), 1);
    assert_eq!(descriptions(&app), vec!["x", "Y", "z"]);
    assert_eq!(flags(&app), vec![false, true, false]);
    app.selected = Some(0);
    app.remove_at(0);
    assert_eq!(descriptions(&app), vec!["Y", "z"]);
    assert_eq!(flags(&app), vec![true, false]);
    assert_eq!(app.selected, Some(0));
    app.remove_at(1);
    assert_eq!(descriptions(&app), vec!["Y"]);
    assert_eq!(app.selected, Some(0));
    app.remove_at(0);
    assert!(app.items.is_empty());
    assert_eq!(app.selected, Some(0));
    assert_eq!(app.current_screen, CurrentScreen::Main);
}

#[test]
fn item_labels() {
    assert_eq!(TodoItem::new(false, "milk".to_string()).label(), " \u{2610} milk");
    assert_eq!(TodoItem::new(true, "milk".to_string()).label(), " \u{2713} milk");
    let item = TodoItem::new(true, "eggs".to_string());
    let copy = item.duplicate();
    assert!(copy.done);
    assert_eq!(copy.description, "eggs");
}

#[test]
fn text_input_editing() {
    let mut input = TextInput::new("hello world".to_string());
    assert_eq!(input.cursor(), 11);
    input.handle_key(KeyCode::Char('w'), CONTROL);
    assert_eq!(input.value(), "hello ");
    input.handle_key(KeyCode::Home, 0);
    assert_eq!(input.cursor(), 0);
    input.handle_key(KeyCode::Char('H'), SHIFT);
    assert_eq!(input.value(), "Hhello ");
    input.handle_key(KeyCode::Delete, 0);
    assert_eq!(input.value(), "Hello ");
    input.handle_key(KeyCode::End, 0);
    assert_eq!(input.cursor(), 6);
    input.handle_key(KeyCode::Up, 0);
    input.handle_key(KeyCode::Tab, 0);
    assert_eq!(input.value(), "Hello ");
    assert_eq!(input.value_and_reset(), "Hello ");
    assert_eq!(input.value(), "");
    assert_eq!(input.cursor(), 0);
}

#[test]
fn text_input_counts_characters() {
    let input = TextInput::new("\u{e9}t\u{e9}".to_string());
    assert_eq!(input.cursor(), 3);
    let empty = TextInput::empty();
    assert_eq!(empty.value(), "");
    assert_eq!(empty.cursor(), 0);
}

#[test]
fn input_box_geometry() {
    assert_eq!(input_area_width(0), 0);
    assert_eq!(input_area_width(2), 0);
    assert_eq!(input_area_width(3), 0);
    assert_eq!(input_area_width(80), 77);
    assert_eq!(caret_column(0, 0), 1);
    assert_eq!(caret_column(10, 4), 7);
    assert_eq!(caret_column(2, 5), 1);
}

#[test]
fn caret_of_short_text() {
    let input = TextInput::new("hello".to_string());
    assert_eq!(input.caret(10), Some((0, 6)));
    let start = TextInput::empty();
    assert_eq!(start.caret(10), Some((0, 1)));
}

#[test]
fn caret_scrolls_long_text() {
    let input = TextInput::new("hello".to_string());
    assert_eq!(input.caret(3), Some((2, 4)));
}

#[test]
fn caret_counts_display_width() {
    let input = TextInput::new("\u{65e5}\u{672c}".to_string());
    assert_eq!(input.caret(10), Some((0, 5)));
}
