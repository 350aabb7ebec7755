use todo_pages::keys::{Key, KeyCode};
use todo_pages::location::{context_prefix, resolve_location, DataLocation, StorageError};
use todo_pages::model::{Page, Todo};
use todo_pages::session::{App, Effect, Mode};

fn page(name: &str, todos: &[&str]) -> Page {
    let mut p = Page::new(name.to_string());
    for t in todos {
        p.todos.push(Todo::new(t.to_string()));
    }
    p
}

fn press(app: &mut App, code: KeyCode) -> Effect {
    app.handle_key(Key::plain(code))
}

fn type_text(app: &mut App, s: &str) {
    for c in s.chars() {
        assert_eq!(press(app, KeyCode::Char(c)), Effect::Idle);
    }
}

fn names(app: &App) -> Vec<String> {
    app.pages[app.current_page_index].todos.iter().map(|t| t.name.clone()).collect()
}

fn buffer_text(app: &App) -> String {
    app.buffer.text.iter().collect()
}

#[test]
fn empty_document_gets_main_page_and_first_todo() {
    let mut app = App::new(vec![], "[global]: ".to_string());
    assert_eq!(app.pages.len(), 1);
    assert_eq!(app.pages[0].name, "main");
    assert!(app.pages[0].todos.is_empty());
    assert_eq!(press(&mut app, KeyCode::Char('n')), Effect::Idle);
    assert_eq!(app.mode, Mode::CreatingTodo);
    type_text(&mut app, "buy milk");
    assert_eq!(press(&mut app, KeyCode::Enter), Effect::Persist);
    assert_eq!(app.mode, Mode::Normal);
    assert_eq!(app.pages[0].todos.len(), 1);
    assert_eq!(app.pages[0].todos[0].name, "buy milk");
    assert!(!app.pages[0].todos[0].completed);
    assert_eq!(app.selected_todo_index, 0);
    assert!(app.buffer.text.is_empty());
    assert_eq!(app.buffer.cursor, 0);
}

#[test]
fn empty_new_todo_is_not_added() {
    let mut app = App::new(vec![page("a", &["x"])], String::new());
    press(&mut app, KeyCode::Char('n'));
    assert_eq!(press(&mut app, KeyCode::Enter), Effect::Idle);
    assert_eq!(names(&app), vec!["x"]);
    assert_eq!(app.mode, Mode::Normal);
}

#[test]
fn new_todo_is_appended_and_selected() {
    let mut app = App::new(vec![page("a", &["x", "y"])], String::new());
    press(&mut app, KeyCode::Char('n'));
    type_text(&mut app, "z");
    press(&mut app, KeyCode::Enter);
    assert_eq!(names(&app), vec!["x", "y", "z"]);
    assert_eq!(app.selected_todo_index, 2);
}

#[test]
fn esc_discards_the_line() {
    let mut app = App::new(vec![page("a", &[])], String::new());
    press(&mut app, KeyCode::Char('n'));
    type_text(&mut app, "abc");
    assert_eq!(press(&mut app, KeyCode::Esc), Effect::Idle);
    assert_eq!(app.mode, Mode::Normal);
    assert!(app.buffer.text.is_empty());
    assert!(app.pages[0].todos.is_empty());
}

#[test]
fn digit_switches_page_then_renames() {
    let mut app = App::new(vec![page("one", &["a", "b"]), page("two", &["c"])], String::new());
    press(&mut app, KeyCode::Down);
    assert_eq!(app.selected_todo_index, 1);
    assert_eq!(press(&mut app, KeyCode::Char('2')), Effect::Idle);
    assert_eq!(app.current_page_index, 1);
    assert_eq!(app.selected_todo_index, 0);
    assert_eq!(app.mode, Mode::Normal);
    press(&mut app, KeyCode::Char('2'));
    assert_eq!(app.mode, Mode::RenamingPage);
    assert_eq!(buffer_text(&app), "two");
    assert_eq!(app.buffer.cursor, 3);
}

#[test]
fn digit_past_last_page_creates_page() {
    let mut app = App::new(vec![page("one", &["a"])], String::new());
    press(&mut app, KeyCode::Char('3'));
    assert_eq!(app.mode, Mode::CreatingPage);
    type_text(&mut app, "work");
    assert_eq!(press(&mut app, KeyCode::Enter), Effect::Persist);
    assert_eq!(app.pages.len(), 2);
    assert_eq!(app.pages[1].name, "work");
    assert_eq!(app.current_page_index, 1);
    assert_eq!(app.selected_todo_index, 0);
}

#[test]
fn new_page_may_have_empty_name() {
    let mut app = App::new(vec![page("one", &[])], String::new());
    press(&mut app, KeyCode::Char('9'));
    assert_eq!(press(&mut app, KeyCode::Enter), Effect::Persist);
    assert_eq!(app.pages.len(), 2);
    assert_eq!(app.pages[1].name, "");
}

#[test]
fn zero_and_other_keys_are_ignored() {
    let mut app = App::new(vec![page("one", &["a"])], String::new());
    assert_eq!(press(&mut app, KeyCode::Char('0')), Effect::Idle);
    assert_eq!(press(&mut app, KeyCode::Char('x')), Effect::Idle);
    assert_eq!(press(&mut app, KeyCode::Other), Effect::Idle);
    assert_eq!(app.mode, Mode::Normal);
    assert_eq!(names(&app), vec!["a"]);
}

#[test]
fn emptying_the_only_page_name_keeps_it() {
    let mut app = App::new(vec![page("solo", &["a"])], String::new());
    press(&mut app, KeyCode::Char('1'));
    assert_eq!(app.mode, Mode::RenamingPage);
    for _ in 0..4 {
        press(&mut app, KeyCode::Backspace);
    }
    assert!(app.buffer.text.is_empty());
    assert_eq!(press(&mut app, KeyCode::Enter), Effect::Persist);
    assert_eq!(app.pages.len(), 1);
    assert_eq!(app.pages[0].name, "solo");
    assert_eq!(names(&app), vec!["a"]);
    assert_eq!(app.mode, Mode::Normal);
}

#[test]
fn emptying_a_page_name_removes_it() {
    let mut app = App::new(vec![page("a", &[]), page("b", &["x"])], String::new());
    press(&mut app, KeyCode::Char('2'));
    press(&mut app, KeyCode::Char('2'));
    press(&mut app, KeyCode::Backspace);
    assert_eq!(press(&mut app, KeyCode::Enter), Effect::Persist);
    assert_eq!(app.pages.len(), 1);
    assert_eq!(app.pages[0].name, "a");
    assert_eq!(app.current_page_index, 0);
    assert_eq!(app.selected_todo_index, 0);
}

#[test]
fn renaming_a_page() {
    let mut app = App::new(vec![page("ab", &[])], String::new());
    press(&mut app, KeyCode::Char('1'));
    type_text(&mut app, "c");
    press(&mut app, KeyCode::Enter);
    assert_eq!(app.pages[0].name, "abc");
}

#[test]
fn shift_down_cycles_the_first_todo() {
    let mut app = App::new(vec![page("p", &["a", "b", "c"])], String::new());
    assert_eq!(app.selected_todo_index, 0);
    assert_eq!(app.handle_key(Key::shifted(KeyCode::Down)), Effect::Persist);
    assert_eq!(names(&app), vec!["b", "a", "c"]);
    assert_eq!(app.selected_todo_index, 1);
    app.handle_key(Key::shifted(KeyCode::Down));
    assert_eq!(names(&app), vec!["b", "c", "a"]);
    assert_eq!(app.selected_todo_index, 2);
    app.handle_key(Key::shifted(KeyCode::Down));
    assert_eq!(names(&app), vec!["a", "c", "b"]);
    assert_eq!(app.selected_todo_index, 0);
}

#[test]
fn shift_up_swaps_with_previous() {
    let mut app = App::new(vec![page("p", &["a", "b", "c"])], String::new());
    assert_eq!(app.handle_key(Key::shifted(KeyCode::Char('k'))), Effect::Persist);
    assert_eq!(names(&app), vec!["c", "b", "a"]);
    assert_eq!(app.selected_todo_index, 2);
}

#[test]
fn shift_move_needs_two_todos() {
    let mut app = App::new(vec![page("p", &["a"])], String::new());
    assert_eq!(app.handle_key(Key::shifted(KeyCode::Down)), Effect::Idle);
    assert_eq!(app.handle_key(Key::shifted(KeyCode::Up)), Effect::Idle);
    assert_eq!(names(&app), vec!["a"]);
}

#[test]
fn navigation_wraps_around() {
    let mut app = App::new(vec![page("p", &["a", "b", "c"])], String::new());
    assert_eq!(press(&mut app, KeyCode::Up), Effect::Idle);
    assert_eq!(app.selected_todo_index, 2);
    press(&mut app, KeyCode::Char('j'));
    assert_eq!(app.selected_todo_index, 0);
    press(&mut app, KeyCode::Char('k'));
    assert_eq!(app.selected_todo_index, 2);
    let mut empty = App::new(vec![page("p", &[])], String::new());
    press(&mut empty, KeyCode::Down);
    press(&mut empty, KeyCode::Up);
    assert_eq!(empty.selected_todo_index, 0);
}

#[test]
fn toggling_twice_restores_completion() {
    let mut app = App::new(vec![page("p", &["a", "b"])], String::new());
    press(&mut app, KeyCode::Down);
    assert_eq!(press(&mut app, KeyCode::Enter), Effect::Persist);
    assert!(app.pages[0].todos[1].completed);
    assert!(!app.pages[0].todos[0].completed);
    assert_eq!(press(&mut app, KeyCode::Enter), Effect::Persist);
    assert!(!app.pages[0].todos[1].completed);
}

#[test]
fn toggling_without_todos_does_nothing() {
    let mut app = App::new(vec![page("p", &[])], String::new());
    assert_eq!(press(&mut app, KeyCode::Enter), Effect::Idle);
    assert_eq!(press(&mut app, KeyCode::Char('d')), Effect::Idle);
    assert_eq!(press(&mut app, KeyCode::Char('r')), Effect::Idle);
    assert_eq!(app.mode, Mode::Normal);
}

#[test]
fn deleting_clamps_the_selection() {
    let mut app = App::new(vec![page("p", &["a", "b", "c"])], String::new());
    press(&mut app, KeyCode::Up);
    assert_eq!(press(&mut app, KeyCode::Char('d')), Effect::Persist);
    assert_eq!(names(&app), vec!["a", "b"]);
    assert_eq!(app.selected_todo_index, 1);
    press(&mut app, KeyCode::Up);
    press(&mut app, KeyCode::Char('d'));
    assert_eq!(names(&app), vec!["b"]);
    assert_eq!(app.selected_todo_index, 0);
    press(&mut app, KeyCode::Char('d'));
    assert!(names(&app).is_empty());
    assert_eq!(app.selected_todo_index, 0);
}

#[test]
fn renaming_a_todo() {
    let mut app = App::new(vec![page("p", &["milk", "eggs"])], String::new());
    press(&mut app, KeyCode::Down);
    press(&mut app, KeyCode::Char('r'));
    assert_eq!(app.mode, Mode::RenamingTodo);
    assert_eq!(buffer_text(&app), "eggs");
    assert_eq!(app.buffer.cursor, 4);
    type_text(&mut app, "!");
    assert_eq!(press(&mut app, KeyCode::Enter), Effect::Persist);
    assert_eq!(names(&app), vec!["milk", "eggs!"]);
}

#[test]
fn renaming_a_todo_keeps_completion() {
    let mut app = App::new(vec![page("p", &["milk"])], String::new());
    press(&mut app, KeyCode::Enter);
    press(&mut app, KeyCode::Char('r'));
    press(&mut app, KeyCode::Backspace);
    press(&mut app, KeyCode::Enter);
    assert_eq!(names(&app), vec!["mil"]);
    assert!(app.pages[0].todos[0].completed);
}

#[test]
fn renaming_a_todo_to_nothing_deletes_it() {
    let mut app = App::new(vec![page("p", &["ab", "c"])], String::new());
    press(&mut app, KeyCode::Char('r'));
    press(&mut app, KeyCode::Backspace);
    press(&mut app, KeyCode::Backspace);
    assert_eq!(press(&mut app, KeyCode::Enter), Effect::Persist);
    assert_eq!(names(&app), vec!["c"]);
    assert_eq!(app.selected_todo_index, 0);
}

#[test]
fn up_down_move_selection_while_typing() {
    let mut app = App::new(vec![page("p", &["a", "b"])], String::new());
    press(&mut app, KeyCode::Char('n'));
    type_text(&mut app, "jk");
    assert_eq!(press(&mut app, KeyCode::Down), Effect::Idle);
    assert_eq!(app.selected_todo_index, 1);
    assert_eq!(buffer_text(&app), "jk");
    assert_eq!(app.mode, Mode::CreatingTodo);
    assert_eq!(names(&app), vec!["a", "b"]);
}

#[test]
fn pages_cycle_and_swap() {
    let mut app = App::new(vec![page("a", &["x", "y"]), page("b", &[]), page("c", &[])], String::new());
    press(&mut app, KeyCode::Down);
    assert_eq!(press(&mut app, KeyCode::Left), Effect::Idle);
    assert_eq!(app.current_page_index, 2);
    assert_eq!(app.selected_todo_index, 0);
    press(&mut app, KeyCode::Char('l'));
    assert_eq!(app.current_page_index, 0);
    assert_eq!(app.handle_key(Key::shifted(KeyCode::Right)), Effect::Persist);
    assert_eq!(app.current_page_index, 1);
    assert_eq!(app.pages[1].name, "a");
    assert_eq!(app.pages[0].name, "b");
    assert_eq!(app.handle_key(Key::shifted(KeyCode::Char('h'))), Effect::Persist);
    assert_eq!(app.current_page_index, 0);
    assert_eq!(app.pages[0].name, "a");
    app.handle_key(Key::shifted(KeyCode::Left));
    assert_eq!(app.current_page_index, 2);
    assert_eq!(app.pages[2].name, "a");
    assert_eq!(app.pages[0].name, "c");
}

#[test]
fn single_page_does_not_swap() {
    let mut app = App::new(vec![page("a", &[])], String::new());
    assert_eq!(app.handle_key(Key::shifted(KeyCode::Right)), Effect::Idle);
    assert_eq!(press(&mut app, KeyCode::Right), Effect::Idle);
    assert_eq!(app.current_page_index, 0);
}

#[test]
fn q_quits() {
    let mut app = App::new(vec![], String::new());
    assert!(!app.should_quit);
    assert_eq!(press(&mut app, KeyCode::Char('q')), Effect::Quit);
    assert!(app.should_quit);
}

#[test]
fn q_while_typing_is_text() {
    let mut app = App::new(vec![], String::new());
    press(&mut app, KeyCode::Char('n'));
    assert_eq!(press(&mut app, KeyCode::Char('q')), Effect::Idle);
    assert!(!app.should_quit);
    assert_eq!(buffer_text(&app), "q");
}

#[test]
fn indices_stay_valid_through_edits() {
    let mut app = App::new(vec![page("a", &["1", "2"]), page("b", &["3"])], String::new());
    let keys = [
        KeyCode::Up, KeyCode::Char('d'), KeyCode::Char('2'), KeyCode::Char('2'), KeyCode::Backspace,
        KeyCode::Enter, KeyCode::Char('d'), KeyCode::Char('d'), KeyCode::Char('n'), KeyCode::Char('z'),
        KeyCode::Enter, KeyCode::Char('5'), KeyCode::Enter, KeyCode::Char('r'), KeyCode::Enter,
    ];
    for k in keys {
        press(&mut app, k);
        assert!(!app.pages.is_empty());
        assert!(app.current_page_index < app.pages.len());
        let n = app.pages[app.current_page_index].todos.len();
        if n == 0 {
            assert_eq!(app.selected_todo_index, 0);
        } else {
            assert!(app.selected_todo_index < n);
        }
    }
}

#[test]
fn location_prefers_local_file() {
    assert_eq!(resolve_location(true, false), Ok(DataLocation::Local));
    assert_eq!(resolve_location(true, true), Ok(DataLocation::Local));
    assert_eq!(resolve_location(false, true), Ok(DataLocation::Home));
    assert_eq!(resolve_location(false, false), Err(StorageError::NoHomeDirectory));
}

#[test]
fn context_prefix_labels() {
    assert_eq!(context_prefix(true, Some("proj")), "[global]: ");
    assert_eq!(context_prefix(false, Some("proj")), "[proj]:");
    assert_eq!(context_prefix(false, None), "[local]: ");
}
