use tdi::app::App;
use tdi::keymap::{action_for, Action, Key, KeyPress, Mode};
use tdi::todo::{default_todo_lists, Todo, TodoList};

fn chars(s: &str) -> Vec<char> {
    s.chars().collect()
}

fn text(todo: &Todo) -> String {
    todo.name.iter().collect()
}

fn press_char(app: &mut App, c: char) {
    let action = action_for(KeyPress::char(app.mode, c));
    if let Some(action) = action {
        app.update(action);
    }
}

fn press_key(app: &mut App, key: Key) {
    let action = action_for(KeyPress::code(app.mode, key));
    if let Some(action) = action {
        app.update(action);
    }
}

fn two_lists(todo_names: &[&str], backlog_names: &[&str]) -> Vec<TodoList> {
    vec![
        TodoList {
            name: chars("Todo"),
            todos: todo_names.iter().map(|n| Todo::new(chars(n))).collect(),
        },
        TodoList {
            name: chars("Backlog"),
            todos: backlog_names.iter().map(|n| Todo::new(chars(n))).collect(),
        },
    ]
}

#[test]
fn default_lists_are_todo_and_backlog() {
    let lists = default_todo_lists();
    assert_eq!(lists.len(), 2);
    assert_eq!(lists[0].name.iter().collect::<String>(), "Todo");
    assert_eq!(lists[1].name.iter().collect::<String>(), "Backlog");
    assert!(lists[0].todos.is_empty());
    assert!(lists[1].todos.is_empty());
}

#[test]
fn add_below_enters_insert_and_typing_builds_text() {
    let mut app = App::new(default_todo_lists(), 100);
    press_char(&mut app, 'o');
    assert_eq!(app.mode, Mode::Insert);
    assert_eq!(app.todo_lists[0].todos.len(), 1);
    assert_eq!(app.selection.todo, 0);
    assert_eq!(app.selection.char_offset, 0);
    for c in "Milk".chars() {
        press_char(&mut app, c);
    }
    assert_eq!(text(&app.todo_lists[0].todos[0]), "Milk");
    assert_eq!(app.selection.char_offset, 4);
    press_key(&mut app, Key::Esc);
    assert_eq!(app.mode, Mode::Normal);
    assert_eq!(app.todo_lists[0].todos.len(), 1);
    assert_eq!(text(&app.todo_lists[0].todos[0]), "Milk");
}

#[test]
fn escape_with_empty_text_discards_provisional_item() {
    let mut app = App::new(default_todo_lists(), 100);
    press_char(&mut app, 'o');
    assert_eq!(app.todo_lists[0].todos.len(), 1);
    press_key(&mut app, Key::Esc);
    assert_eq!(app.mode, Mode::Normal);
    assert_eq!(app.todo_lists[0].todos.len(), 0);
    assert_eq!(app.history.len(), 0);
    assert_eq!(app.history.current(), 0);
}

#[test]
fn escape_with_whitespace_only_text_discards_item() {
    let mut app = App::new(default_todo_lists(), 100);
    press_char(&mut app, 'o');
    press_char(&mut app, ' ');
    press_char(&mut app, ' ');
    press_key(&mut app, Key::Esc);
    assert_eq!(app.todo_lists[0].todos.len(), 0);
}

#[test]
fn shift_l_moves_item_to_right_list_and_selection_follows() {
    let mut app = App::new(two_lists(&["A", "B"], &[]), 100);
    assert_eq!(app.selection.todo, 0);
    press_char(&mut app, 'L');
    assert_eq!(app.todo_lists[0].todos.len(), 1);
    assert_eq!(text(&app.todo_lists[0].todos[0]), "B");
    assert_eq!(app.todo_lists[1].todos.len(), 1);
    assert_eq!(text(&app.todo_lists[1].todos[0]), "A");
    assert_eq!(app.selection.todo_list, 1);
    assert_eq!(app.selection.todo, 0);
}

#[test]
fn delete_marked_item_moves_it_to_backlog_then_deletes_outright() {
    let mut app = App::new(two_lists(&["A"], &[]), 100);
    press_char(&mut app, 'm');
    assert!(app.todo_lists[0].todos[0].marked);
    press_char(&mut app, 'd');
    assert_eq!(app.todo_lists[0].todos.len(), 0);
    assert_eq!(app.todo_lists[1].todos.len(), 1);
    assert_eq!(text(&app.todo_lists[1].todos[0]), "A");
    press_char(&mut app, 'l');
    assert_eq!(app.selection.todo_list, 1);
    press_char(&mut app, 'd');
    assert_eq!(app.todo_lists[1].todos.len(), 0);
}

#[test]
fn delete_unmarked_item_removes_outright() {
    let mut app = App::new(two_lists(&["A", "B"], &[]), 100);
    press_char(&mut app, 'd');
    assert_eq!(app.todo_lists[0].todos.len(), 1);
    assert_eq!(text(&app.todo_lists[0].todos[0]), "B");
    assert_eq!(app.todo_lists[1].todos.len(), 0);
}

#[test]
fn undo_and_redo_restore_content() {
    let mut app = App::new(two_lists(&["A"], &[]), 100);
    press_char(&mut app, 'd');
    assert_eq!(app.todo_lists[0].todos.len(), 0);
    press_char(&mut app, 'u');
    assert_eq!(app.todo_lists[0].todos.len(), 1);
    assert_eq!(text(&app.todo_lists[0].todos[0]), "A");
    press_char(&mut app, 'r');
    assert_eq!(app.todo_lists[0].todos.len(), 0);
    press_char(&mut app, 'u');
    assert_eq!(app.todo_lists[0].todos.len(), 1);
}

#[test]
fn new_edit_discards_redo_branch() {
    let mut app = App::new(two_lists(&["A", "B"], &[]), 100);
    press_char(&mut app, 'd');
    press_char(&mut app, 'u');
    assert_eq!(app.todo_lists[0].todos.len(), 2);
    press_char(&mut app, 'm');
    assert!(!app.history.can_redo());
    press_char(&mut app, 'r');
    assert!(app.todo_lists[0].todos[0].marked);
}

#[test]
fn navigation_moves_between_lists_and_items() {
    let mut app = App::new(two_lists(&["A", "B", "C"], &["X"]), 100);
    press_char(&mut app, 'j');
    assert_eq!(app.selection.todo, 1);
    press_char(&mut app, 'j');
    assert_eq!(app.selection.todo, 2);
    press_char(&mut app, 'j');
    assert_eq!(app.selection.todo, 2);
    press_char(&mut app, 'k');
    assert_eq!(app.selection.todo, 1);
    press_char(&mut app, 'g');
    assert_eq!(app.selection.todo, 0);
    press_char(&mut app, 'G');
    assert_eq!(app.selection.todo, 2);
    press_char(&mut app, 'l');
    assert_eq!(app.selection.todo_list, 1);
    press_char(&mut app, 'l');
    assert_eq!(app.selection.todo_list, 1);
    press_char(&mut app, 'h');
    assert_eq!(app.selection.todo_list, 0);
    press_char(&mut app, 'h');
    assert_eq!(app.selection.todo_list, 0);
}

#[test]
fn move_todo_up_and_down_swap_neighbours() {
    let mut app = App::new(two_lists(&["A", "B", "C"], &[]), 100);
    press_char(&mut app, 'J');
    assert_eq!(text(&app.todo_lists[0].todos[0]), "B");
    assert_eq!(text(&app.todo_lists[0].todos[1]), "A");
    assert_eq!(app.selection.todo, 1);
    press_char(&mut app, 'K');
    assert_eq!(text(&app.todo_lists[0].todos[0]), "A");
    assert_eq!(text(&app.todo_lists[0].todos[1]), "B");
    assert_eq!(app.selection.todo, 0);
    press_char(&mut app, 'K');
    assert_eq!(app.selection.todo, 0);
    assert_eq!(text(&app.todo_lists[0].todos[0]), "A");
}

#[test]
fn insert_mode_editing_with_backspace_and_delete() {
    let mut app = App::new(two_lists(&["Milk"], &[]), 100);
    press_char(&mut app, 'i');
    assert_eq!(app.mode, Mode::Insert);
    assert_eq!(app.selection.char_offset, 0);
    press_key(&mut app, Key::Backspace);
    assert_eq!(text(&app.todo_lists[0].todos[0]), "Milk");
    press_key(&mut app, Key::End);
    assert_eq!(app.selection.char_offset, 4);
    press_key(&mut app, Key::Delete);
    assert_eq!(text(&app.todo_lists[0].todos[0]), "Milk");
    press_key(&mut app, Key::Backspace);
    assert_eq!(text(&app.todo_lists[0].todos[0]), "Mil");
    assert_eq!(app.selection.char_offset, 3);
    press_key(&mut app, Key::Home);
    assert_eq!(app.selection.char_offset, 0);
    press_key(&mut app, Key::Delete);
    assert_eq!(text(&app.todo_lists[0].todos[0]), "il");
    press_key(&mut app, Key::Right);
    press_key(&mut app, Key::Right);
    press_key(&mut app, Key::Right);
    assert_eq!(app.selection.char_offset, 2);
    press_key(&mut app, Key::Left);
    assert_eq!(app.selection.char_offset, 1);
    press_char(&mut app, 'x');
    assert_eq!(text(&app.todo_lists[0].todos[0]), "ixl");
    assert_eq!(app.selection.char_offset, 2);
}

#[test]
fn insert_mode_rejected_when_active_list_is_empty() {
    let mut app = App::new(default_todo_lists(), 100);
    press_char(&mut app, 'i');
    assert_eq!(app.mode, Mode::Normal);
    assert_eq!(app.history.len(), 0);
}

#[test]
fn entering_insert_on_existing_item_snapshots_for_undo() {
    let mut app = App::new(two_lists(&["Tea"], &[]), 100);
    press_char(&mut app, 'i');
    assert_eq!(app.mode, Mode::Insert);
    for c in "Green ".chars() {
        press_char(&mut app, c);
    }
    press_key(&mut app, Key::Esc);
    assert_eq!(text(&app.todo_lists[0].todos[0]), "Green Tea");
    press_char(&mut app, 'u');
    assert_eq!(text(&app.todo_lists[0].todos[0]), "Tea");
}

#[test]
fn actions_on_state_without_lists_are_noops() {
    let mut app = App::new(Vec::new(), 100);
    for action in [
        Action::DeleteTodo,
        Action::MoveTodoLeft,
        Action::MoveTodoRight,
        Action::MoveTodoUp,
        Action::MoveTodoDown,
        Action::MoveLeft,
        Action::MoveRight,
        Action::MoveUp,
        Action::MoveDown,
        Action::MoveUpHalf,
        Action::MoveDownHalf,
        Action::MoveTop,
        Action::MoveBottom,
        Action::AddTodoAbove,
        Action::AddTodoBelow,
        Action::ToggleMark,
        Action::Input(Key::Char('a')),
        Action::SetMode(Mode::Insert),
        Action::MoveCursorRight,
        Action::MoveCursorEnd,
        Action::Undo,
        Action::Redo,
        Action::Nop,
    ] {
        app.update(action);
    }
    assert!(app.todo_lists.is_empty());
    assert_eq!(app.mode, Mode::Normal);
    assert_eq!(app.history.len(), 0);
}

#[test]
fn half_page_moves_step_by_five() {
    let names: Vec<String> = (0..12).map(|i| format!("t{i}")).collect();
    let name_refs: Vec<&str> = names.iter().map(|s| s.as_str()).collect();
    let mut app = App::new(two_lists(&name_refs, &[]), 100);
    app.update(Action::MoveDownHalf);
    assert_eq!(app.selection.todo, 5);
    app.update(Action::MoveDownHalf);
    assert_eq!(app.selection.todo, 10);
    app.update(Action::MoveDownHalf);
    assert_eq!(app.selection.todo, 11);
    app.update(Action::MoveUpHalf);
    assert_eq!(app.selection.todo, 6);
    app.update(Action::MoveUpHalf);
    assert_eq!(app.selection.todo, 1);
    app.update(Action::MoveUpHalf);
    assert_eq!(app.selection.todo, 0);
}

#[test]
fn snapshot_bound_evicts_oldest_at_app_level() {
    let mut app = App::new(two_lists(&["A"], &[]), 2);
    press_char(&mut app, 'm');
    press_char(&mut app, 'm');
    press_char(&mut app, 'm');
    assert_eq!(app.history.len(), 2);
    assert_eq!(app.history.current(), 2);
    press_char(&mut app, 'u');
    press_char(&mut app, 'u');
    assert_eq!(app.history.current(), 0);
    assert!(app.todo_lists[0].todos[0].marked);
}

#[test]
fn moving_item_across_lists_clamps_to_destination_length() {
    let mut app = App::new(two_lists(&["A", "B", "C"], &["X"]), 100);
    press_char(&mut app, 'j');
    press_char(&mut app, 'j');
    assert_eq!(app.selection.todo, 2);
    press_char(&mut app, 'L');
    assert_eq!(app.todo_lists[1].todos.len(), 2);
    assert_eq!(text(&app.todo_lists[1].todos[1]), "C");
    assert_eq!(app.selection.todo_list, 1);
}

#[test]
fn quit_sets_flag_and_marks_nothing_dirty() {
    let mut app = App::new(default_todo_lists(), 100);
    assert!(!app.quit);
    assert!(!app.needs_saving);
    press_char(&mut app, 'q');
    assert!(app.quit);
    assert!(!app.needs_saving);
}

#[test]
fn edits_mark_state_dirty() {
    let mut app = App::new(two_lists(&["A"], &[]), 100);
    assert!(!app.needs_saving);
    press_char(&mut app, 'm');
    assert!(app.needs_saving);
}
