//! The key-binding resolver: maps (mode, key identity, modifier set) to an
//! abstract action, with a fallback that treats unmapped keys as literal
//! text input while in edit mode.

use vstd::prelude::*;

verus! {

/// Current mode, which determines the action keys map to.
#[derive(Copy, Clone, PartialEq, Eq, Structural, Debug)]
pub enum Mode {
    /// Navigation and reordering.
    Normal,
    /// Editing the text of the selected item.
    Insert,
}

/// Key identity: printable characters and the named keys the bindings use.
#[derive(Copy, Clone, PartialEq, Eq, Structural, Debug)]
pub enum Key {
    Char(char),
    Left,
    Right,
    Up,
    Down,
    Home,
    End,
    Esc,
    Backspace,
    Delete,
    /// Any key the bindings never mention.
    Other,
}

/// The modifier set reported with a key press.
#[derive(Copy, Clone, PartialEq, Eq, Structural, Debug)]
pub struct Modifiers {
    pub shift: bool,
    pub ctrl: bool,
    pub alt: bool,
}

impl Modifiers {
    pub open spec fn spec_none() -> Modifiers {
        Modifiers { shift: false, ctrl: false, alt: false }
    }

    pub open spec fn spec_shift() -> Modifiers {
        Modifiers { shift: true, ctrl: false, alt: false }
    }

    pub open spec fn spec_ctrl() -> Modifiers {
        Modifiers { shift: false, ctrl: true, alt: false }
    }

    pub fn none() -> (r: Modifiers)
        ensures
            r == Modifiers::spec_none(),
    {
        Modifiers { shift: false, ctrl: false, alt: false }
    }

    pub fn shift() -> (r: Modifiers)
        ensures
            r == Modifiers::spec_shift(),
    {
        Modifiers { shift: true, ctrl: false, alt: false }
    }

    pub fn ctrl() -> (r: Modifiers)
        ensures
            r == Modifiers::spec_ctrl(),
    {
        Modifiers { shift: false, ctrl: true, alt: false }
    }
}

/// A value that causes the application to perform one step.
#[derive(Copy, Clone, PartialEq, Eq, Structural, Debug)]
pub enum Action {
    Quit,
    DeleteTodo,
    MoveTodoLeft,
    MoveTodoRight,
    MoveTodoUp,
    MoveTodoDown,
    MoveLeft,
    MoveRight,
    MoveUp,
    MoveDown,
    MoveUpHalf,
    MoveDownHalf,
    MoveTop,
    MoveBottom,
    AddTodoAbove,
    AddTodoBelow,
    ToggleMark,
    Input(Key),
    SetMode(Mode),
    MoveCursorRight,
    MoveCursorLeft,
    MoveCursorStart,
    MoveCursorEnd,
    Undo,
    Redo,
    /// No operation; a redraw is still triggered.
    Nop,
}

/// A key press while in a particular mode, with its modifier set.
#[derive(Copy, Clone, PartialEq, Eq, Structural, Debug)]
pub struct KeyPress {
    pub mode: Mode,
    pub code: Key,
    pub modifiers: Modifiers,
}

impl KeyPress {
    /// Modifier normalization: an uppercase letter implies Shift regardless
    /// of what the input source reports, so that `Shift+h` and `H` resolve
    /// identically.
    pub open spec fn spec_new(mode: Mode, code: Key, modifiers: Modifiers) -> KeyPress {
        let modifiers = match code {
            Key::Char(c) => if 'A' <= c && c <= 'Z' {
                Modifiers { shift: true, ctrl: modifiers.ctrl, alt: modifiers.alt }
            } else {
                modifiers
            },
            _ => modifiers,
        };
        KeyPress { mode, code, modifiers }
    }

    pub open spec fn spec_char(mode: Mode, c: char) -> KeyPress {
        KeyPress::spec_new(mode, Key::Char(c), Modifiers::spec_none())
    }

    pub open spec fn spec_code(mode: Mode, code: Key) -> KeyPress {
        KeyPress::spec_new(mode, code, Modifiers::spec_none())
    }

    pub fn new(mode: Mode, code: Key, modifiers: Modifiers) -> (r: Self)
        ensures
            r == KeyPress::spec_new(mode, code, modifiers),
    {
        let modifiers = match code {
            Key::Char(c) => if 'A' <= c && c <= 'Z' {
                Modifiers { shift: true, ctrl: modifiers.ctrl, alt: modifiers.alt }
            } else {
                modifiers
            },
            _ => modifiers,
        };
        KeyPress { mode, code, modifiers }
    }

    pub fn char(mode: Mode, c: char) -> (r: Self)
        ensures
            r == KeyPress::spec_char(mode, c),
    {
        KeyPress::new(mode, Key::Char(c), Modifiers::none())
    }

    pub fn code(mode: Mode, code: Key) -> (r: Self)
        ensures
            r == KeyPress::spec_code(mode, code),
    {
        KeyPress::new(mode, code, Modifiers::none())
    }
}

/// For an uppercase letter it makes no difference whether the input source
/// reports Shift: both normalize to the same key press.
pub proof fn lemma_shift_normalization(mode: Mode, c: char, modifiers: Modifiers)
    requires
        'A' <= c && c <= 'Z',
    ensures
        KeyPress::spec_new(mode, Key::Char(c), modifiers) == KeyPress::spec_new(
            mode,
            Key::Char(c),
            Modifiers { shift: true, ..modifiers },
        ),
{
}

/// The fixed binding table: the action for an exact (mode, key, modifiers)
/// entry, or `None` where no entry exists.
pub open spec fn spec_resolve(press: KeyPress) -> Option<Action> {
    if press == KeyPress::spec_char(Mode::Normal, 'q') {
        Some(Action::Quit)
    } else if press == KeyPress::spec_char(Mode::Normal, 'o') {
        Some(Action::AddTodoBelow)
    } else if press == KeyPress::spec_char(Mode::Normal, 'O') {
        Some(Action::AddTodoAbove)
    } else if press == KeyPress::spec_char(Mode::Normal, 'm') {
        Some(Action::ToggleMark)
    } else if press == KeyPress::spec_char(Mode::Normal, 'd') {
        Some(Action::DeleteTodo)
    } else if press == KeyPress::spec_char(Mode::Normal, 'H') {
        Some(Action::MoveTodoLeft)
    } else if press == KeyPress::spec_char(Mode::Normal, 'J') {
        Some(Action::MoveTodoDown)
    } else if press == KeyPress::spec_char(Mode::Normal, 'K') {
        Some(Action::MoveTodoUp)
    } else if press == KeyPress::spec_char(Mode::Normal, 'L') {
        Some(Action::MoveTodoRight)
    } else if press == KeyPress::spec_new(Mode::Normal, Key::Left, Modifiers::spec_shift()) {
        Some(Action::MoveTodoLeft)
    } else if press == KeyPress::spec_new(Mode::Normal, Key::Down, Modifiers::spec_shift()) {
        Some(Action::MoveTodoDown)
    } else if press == KeyPress::spec_new(Mode::Normal, Key::Up, Modifiers::spec_shift()) {
        Some(Action::MoveTodoUp)
    } else if press == KeyPress::spec_new(Mode::Normal, Key::Right, Modifiers::spec_shift()) {
        Some(Action::MoveTodoRight)
    } else if press == KeyPress::spec_char(Mode::Normal, 'h') {
        Some(Action::MoveLeft)
    } else if press == KeyPress::spec_char(Mode::Normal, 'j') {
        Some(Action::MoveDown)
    } else if press == KeyPress::spec_char(Mode::Normal, 'k') {
        Some(Action::MoveUp)
    } else if press == KeyPress::spec_char(Mode::Normal, 'l') {
        Some(Action::MoveRight)
    } else if press == KeyPress::spec_new(Mode::Normal, Key::Char('d'), Modifiers::spec_ctrl()) {
        Some(Action::MoveDownHalf)
    } else if press == KeyPress::spec_new(Mode::Normal, Key::Char('u'), Modifiers::spec_ctrl()) {
        Some(Action::MoveUpHalf)
    } else if press == KeyPress::spec_char(Mode::Normal, 'g') {
        Some(Action::MoveTop)
    } else if press == KeyPress::spec_char(Mode::Normal, 'G') {
        Some(Action::MoveBottom)
    } else if press == KeyPress::spec_code(Mode::Normal, Key::Home) {
        Some(Action::MoveTop)
    } else if press == KeyPress::spec_code(Mode::Normal, Key::End) {
        Some(Action::MoveBottom)
    } else if press == KeyPress::spec_code(Mode::Normal, Key::Left) {
        Some(Action::MoveLeft)
    } else if press == KeyPress::spec_code(Mode::Normal, Key::Down) {
        Some(Action::MoveDown)
    } else if press == KeyPress::spec_code(Mode::Normal, Key::Up) {
        Some(Action::MoveUp)
    } else if press == KeyPress::spec_code(Mode::Normal, Key::Right) {
        Some(Action::MoveRight)
    } else if press == KeyPress::spec_char(Mode::Normal, 'u') {
        Some(Action::Undo)
    } else if press == KeyPress::spec_char(Mode::Normal, 'r') {
        Some(Action::Redo)
    } else if press == KeyPress::spec_char(Mode::Normal, 'i') {
        Some(Action::SetMode(Mode::Insert))
    } else if press == KeyPress::spec_code(Mode::Insert, Key::Esc) {
        Some(Action::SetMode(Mode::Normal))
    } else if press == KeyPress::spec_code(Mode::Insert, Key::Right) {
        Some(Action::MoveCursorRight)
    } else if press == KeyPress::spec_code(Mode::Insert, Key::Left) {
        Some(Action::MoveCursorLeft)
    } else if press == KeyPress::spec_code(Mode::Insert, Key::Home) {
        Some(Action::MoveCursorStart)
    } else if press == KeyPress::spec_code(Mode::Insert, Key::End) {
        Some(Action::MoveCursorEnd)
    } else {
        None
    }
}

/// Resolution with the edit-mode fallback: an exact table entry wins; an
/// unmapped key while in Insert mode becomes literal text input; any other
/// unmapped key is discarded.
pub open spec fn spec_action_for(press: KeyPress) -> Option<Action> {
    match spec_resolve(press) {
        Some(action) => Some(action),
        None => if press.mode == Mode::Insert {
            Some(Action::Input(press.code))
        } else {
            None
        },
    }
}

/// Looks a key press up in the fixed binding table.
pub fn resolve(press: KeyPress) -> (r: Option<Action>)
    ensures
        r == spec_resolve(press),
{
    if press == KeyPress::char(Mode::Normal, 'q') {
        Some(Action::Quit)
    } else if press == KeyPress::char(Mode::Normal, 'o') {
        Some(Action::AddTodoBelow)
    } else if press == KeyPress::char(Mode::Normal, 'O') {
        Some(Action::AddTodoAbove)
    } else if press == KeyPress::char(Mode::Normal, 'm') {
        Some(Action::ToggleMark)
    } else if press == KeyPress::char(Mode::Normal, 'd') {
        Some(Action::DeleteTodo)
    } else if press == KeyPress::char(Mode::Normal, 'H') {
        Some(Action::MoveTodoLeft)
    } else if press == KeyPress::char(Mode::Normal, 'J') {
        Some(Action::MoveTodoDown)
    } else if press == KeyPress::char(Mode::Normal, 'K') {
        Some(Action::MoveTodoUp)
    } else if press == KeyPress::char(Mode::Normal, 'L') {
        Some(Action::MoveTodoRight)
    } else if press == KeyPress::new(Mode::Normal, Key::Left, Modifiers::shift()) {
        Some(Action::MoveTodoLeft)
    } else if press == KeyPress::new(Mode::Normal, Key::Down, Modifiers::shift()) {
        Some(Action::MoveTodoDown)
    } else if press == KeyPress::new(Mode::Normal, Key::Up, Modifiers::shift()) {
        Some(Action::MoveTodoUp)
    } else if press == KeyPress::new(Mode::Normal, Key::Right, Modifiers::shift()) {
        Some(Action::MoveTodoRight)
    } else if press == KeyPress::char(Mode::Normal, 'h') {
        Some(Action::MoveLeft)
    } else if press == KeyPress::char(Mode::Normal, 'j') {
        Some(Action::MoveDown)
    } else if press == KeyPress::char(Mode::Normal, 'k') {
        Some(Action::MoveUp)
    } else if press == KeyPress::char(Mode::Normal, 'l') {
        Some(Action::MoveRight)
    } else if press == KeyPress::new(Mode::Normal, Key::Char('d'), Modifiers::ctrl()) {
        Some(Action::MoveDownHalf)
    } else if press == KeyPress::new(Mode::Normal, Key::Char('u'), Modifiers::ctrl()) {
        Some(Action::MoveUpHalf)
    } else if press == KeyPress::char(Mode::Normal, 'g') {
        Some(Action::MoveTop)
    } else if press == KeyPress::char(Mode::Normal, 'G') {
        Some(Action::MoveBottom)
    } else if press == KeyPress::code(Mode::Normal, Key::Home) {
        Some(Action::MoveTop)
    } else if press == KeyPress::code(Mode::Normal, Key::End) {
        Some(Action::MoveBottom)
    } else if press == KeyPress::code(Mode::Normal, Key::Left) {
        Some(Action::MoveLeft)
    } else if press == KeyPress::code(Mode::Normal, Key::Down) {
        Some(Action::MoveDown)
    } else if press == KeyPress::code(Mode::Normal, Key::Up) {
        Some(Action::MoveUp)
    } else if press == KeyPress::code(Mode::Normal, Key::Right) {
        Some(Action::MoveRight)
    } else if press == KeyPress::char(Mode::Normal, 'u') {
        Some(Action::Undo)
    } else if press == KeyPress::char(Mode::Normal, 'r') {
        Some(Action::Redo)
    } else if press == KeyPress::char(Mode::Normal, 'i') {
        Some(Action::SetMode(Mode::Insert))
    } else if press == KeyPress::code(Mode::Insert, Key::Esc) {
        Some(Action::SetMode(Mode::Normal))
    } else if press == KeyPress::code(Mode::Insert, Key::Right) {
        Some(Action::MoveCursorRight)
    } else if press == KeyPress::code(Mode::Insert, Key::Left) {
        Some(Action::MoveCursorLeft)
    } else if press == KeyPress::code(Mode::Insert, Key::Home) {
        Some(Action::MoveCursorStart)
    } else if press == KeyPress::code(Mode::Insert, Key::End) {
        Some(Action::MoveCursorEnd)
    } else {
        None
    }
}

/// Resolves a key press, applying the edit-mode fallback.
pub fn action_for(press: KeyPress) -> (r: Option<Action>)
    ensures
        r == spec_action_for(press),
{
    match resolve(press) {
        Some(action) => Some(action),
        None => if press.mode == Mode::Insert {
            Some(Action::Input(press.code))
        } else {
            None
        },
    }
}

} // verus!
