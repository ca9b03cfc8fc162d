use tdi::keymap::{action_for, resolve, Action, Key, KeyPress, Mode, Modifiers};

fn no_mods() -> Modifiers {
    Modifiers { shift: false, ctrl: false, alt: false }
}

fn shift() -> Modifiers {
    Modifiers { shift: true, ctrl: false, alt: false }
}

fn ctrl() -> Modifiers {
    Modifiers { shift: false, ctrl: true, alt: false }
}

fn alt() -> Modifiers {
    Modifiers { shift: false, ctrl: false, alt: true }
}

#[test]
fn normal_mode_letter_bindings() {
    assert_eq!(resolve(KeyPress::char(Mode::Normal, 'q')), Some(Action::Quit));
    assert_eq!(resolve(KeyPress::char(Mode::Normal, 'o')), Some(Action::AddTodoBelow));
    assert_eq!(resolve(KeyPress::char(Mode::Normal, 'O')), Some(Action::AddTodoAbove));
    assert_eq!(resolve(KeyPress::char(Mode::Normal, 'm')), Some(Action::ToggleMark));
    assert_eq!(resolve(KeyPress::char(Mode::Normal, 'd')), Some(Action::DeleteTodo));
    assert_eq!(resolve(KeyPress::char(Mode::Normal, 'h')), Some(Action::MoveLeft));
    assert_eq!(resolve(KeyPress::char(Mode::Normal, 'j')), Some(Action::MoveDown));
    assert_eq!(resolve(KeyPress::char(Mode::Normal, 'k')), Some(Action::MoveUp));
    assert_eq!(resolve(KeyPress::char(Mode::Normal, 'l')), Some(Action::MoveRight));
    assert_eq!(resolve(KeyPress::char(Mode::Normal, 'g')), Some(Action::MoveTop));
    assert_eq!(resolve(KeyPress::char(Mode::Normal, 'G')), Some(Action::MoveBottom));
    assert_eq!(resolve(KeyPress::char(Mode::Normal, 'u')), Some(Action::Undo));
    assert_eq!(resolve(KeyPress::char(Mode::Normal, 'r')), Some(Action::Redo));
    assert_eq!(
        resolve(KeyPress::char(Mode::Normal, 'i')),
        Some(Action::SetMode(Mode::Insert))
    );
}

#[test]
fn normal_mode_reorder_bindings() {
    assert_eq!(resolve(KeyPress::char(Mode::Normal, 'H')), Some(Action::MoveTodoLeft));
    assert_eq!(resolve(KeyPress::char(Mode::Normal, 'J')), Some(Action::MoveTodoDown));
    assert_eq!(resolve(KeyPress::char(Mode::Normal, 'K')), Some(Action::MoveTodoUp));
    assert_eq!(resolve(KeyPress::char(Mode::Normal, 'L')), Some(Action::MoveTodoRight));
    assert_eq!(
        resolve(KeyPress::new(Mode::Normal, Key::Left, shift())),
        Some(Action::MoveTodoLeft)
    );
    assert_eq!(
        resolve(KeyPress::new(Mode::Normal, Key::Down, shift())),
        Some(Action::MoveTodoDown)
    );
    assert_eq!(
        resolve(KeyPress::new(Mode::Normal, Key::Up, shift())),
        Some(Action::MoveTodoUp)
    );
    assert_eq!(
        resolve(KeyPress::new(Mode::Normal, Key::Right, shift())),
        Some(Action::MoveTodoRight)
    );
}

#[test]
fn normal_mode_named_key_bindings() {
    assert_eq!(resolve(KeyPress::code(Mode::Normal, Key::Home)), Some(Action::MoveTop));
    assert_eq!(resolve(KeyPress::code(Mode::Normal, Key::End)), Some(Action::MoveBottom));
    assert_eq!(resolve(KeyPress::code(Mode::Normal, Key::Left)), Some(Action::MoveLeft));
    assert_eq!(resolve(KeyPress::code(Mode::Normal, Key::Down)), Some(Action::MoveDown));
    assert_eq!(resolve(KeyPress::code(Mode::Normal, Key::Up)), Some(Action::MoveUp));
    assert_eq!(resolve(KeyPress::code(Mode::Normal, Key::Right)), Some(Action::MoveRight));
}

#[test]
fn ctrl_bindings_are_distinct_from_plain_letters() {
    assert_eq!(
        resolve(KeyPress::new(Mode::Normal, Key::Char('d'), ctrl())),
        Some(Action::MoveDownHalf)
    );
    assert_eq!(
        resolve(KeyPress::new(Mode::Normal, Key::Char('u'), ctrl())),
        Some(Action::MoveUpHalf)
    );
    assert_eq!(
        resolve(KeyPress::new(Mode::Normal, Key::Char('d'), no_mods())),
        Some(Action::DeleteTodo)
    );
    assert_eq!(
        resolve(KeyPress::new(Mode::Normal, Key::Char('u'), no_mods())),
        Some(Action::Undo)
    );
}

#[test]
fn uppercase_letter_implies_shift() {
    let reported_plain = KeyPress::new(Mode::Normal, Key::Char('H'), no_mods());
    let reported_shift = KeyPress::new(Mode::Normal, Key::Char('H'), shift());
    assert_eq!(reported_plain, reported_shift);
    assert_eq!(resolve(reported_plain), Some(Action::MoveTodoLeft));
    assert_eq!(resolve(reported_shift), Some(Action::MoveTodoLeft));
}

#[test]
fn insert_mode_bindings() {
    assert_eq!(
        resolve(KeyPress::code(Mode::Insert, Key::Esc)),
        Some(Action::SetMode(Mode::Normal))
    );
    assert_eq!(
        resolve(KeyPress::code(Mode::Insert, Key::Right)),
        Some(Action::MoveCursorRight)
    );
    assert_eq!(
        resolve(KeyPress::code(Mode::Insert, Key::Left)),
        Some(Action::MoveCursorLeft)
    );
    assert_eq!(
        resolve(KeyPress::code(Mode::Insert, Key::Home)),
        Some(Action::MoveCursorStart)
    );
    assert_eq!(
        resolve(KeyPress::code(Mode::Insert, Key::End)),
        Some(Action::MoveCursorEnd)
    );
}

#[test]
fn insert_mode_falls_back_to_literal_input() {
    assert_eq!(
        action_for(KeyPress::char(Mode::Insert, 'z')),
        Some(Action::Input(Key::Char('z')))
    );
    assert_eq!(
        action_for(KeyPress::char(Mode::Insert, 'q')),
        Some(Action::Input(Key::Char('q')))
    );
    assert_eq!(
        action_for(KeyPress::code(Mode::Insert, Key::Backspace)),
        Some(Action::Input(Key::Backspace))
    );
    assert_eq!(
        action_for(KeyPress::code(Mode::Insert, Key::Delete)),
        Some(Action::Input(Key::Delete))
    );
}

#[test]
fn unmapped_keys_in_normal_mode_are_discarded() {
    assert_eq!(action_for(KeyPress::char(Mode::Normal, 'z')), None);
    assert_eq!(action_for(KeyPress::code(Mode::Normal, Key::Esc)), None);
    assert_eq!(action_for(KeyPress::code(Mode::Normal, Key::Backspace)), None);
    assert_eq!(action_for(KeyPress::code(Mode::Normal, Key::Other)), None);
}

#[test]
fn alt_modifier_blocks_table_match() {
    assert_eq!(resolve(KeyPress::new(Mode::Normal, Key::Char('q'), alt())), None);
    assert_eq!(action_for(KeyPress::new(Mode::Normal, Key::Char('q'), alt())), None);
    assert_eq!(
        action_for(KeyPress::new(Mode::Insert, Key::Char('q'), alt())),
        Some(Action::Input(Key::Char('q')))
    );
}

#[test]
fn mapped_insert_keys_do_not_fall_back() {
    assert_eq!(
        action_for(KeyPress::code(Mode::Insert, Key::Esc)),
        Some(Action::SetMode(Mode::Normal))
    );
    assert_eq!(
        action_for(KeyPress::code(Mode::Insert, Key::Left)),
        Some(Action::MoveCursorLeft)
    );
}
