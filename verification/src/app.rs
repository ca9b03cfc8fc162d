//! The application state and the action reducer: the state machine that
//! applies one action at a time while keeping the selection cursor triple
//! (list, item, character) consistent with collections whose lengths change.

use vstd::prelude::*;

use crate::history::{
    lemma_redo_after_undo, lemma_undo_after_redo, spec_record, spec_redo, spec_undo, History,
};
use crate::keymap::{Action, Key, Mode};
use crate::todo::{clone_lists, ListView, Todo, TodoList, TodoView};

verus! {

/// The distinguished list that receives marked items on deletion.
pub const BACKLOG_LIST_INDEX: usize = 1;

/// How many items a half-page cursor movement covers.
pub const MOVE_HALF_AMOUNT: usize = 5;

/// Abstract value of the whole application state.
#[verifier::ext_equal]
pub ghost struct AppView {
    pub lists: Seq<ListView>,
    pub sel_list: int,
    pub sel_todo: int,
    pub sel_char: int,
    pub mode: Mode,
    pub snaps: Seq<Seq<ListView>>,
    pub cur: int,
    pub cap: int,
    pub dirty: bool,
    pub quit: bool,
}

/// The cursor triple: which list, which item in it, and which character
/// offset within that item's text (meaningful only while editing).
pub struct Selection {
    pub todo_list: usize,
    pub todo: usize,
    pub char_offset: usize,
}

/// The application state owned by the run loop.
pub struct App {
    pub todo_lists: Vec<TodoList>,
    pub selection: Selection,
    pub mode: Mode,
    pub history: History<Vec<TodoList>>,
    pub needs_saving: bool,
    pub quit: bool,
}

impl View for App {
    type V = AppView;

    open spec fn view(&self) -> AppView {
        AppView {
            lists: self.todo_lists.deep_view(),
            sel_list: self.selection.todo_list as int,
            sel_todo: self.selection.todo as int,
            sel_char: self.selection.char_offset as int,
            mode: self.mode,
            snaps: Seq::new(
                self.history.snaps().len(),
                |i: int| self.history.snaps()[i].deep_view(),
            ),
            cur: self.history.cur(),
            cap: self.history.cap(),
            dirty: self.needs_saving,
            quit: self.quit,
        }
    }
}

/// The state invariant: whenever the list sequence is non-empty the
/// selected-list index is valid, the history cursor stays within the
/// bounded snapshot sequence, and every snapshot holds the same number of
/// lists as the live state (lists are never created or destroyed by any
/// action, so every snapshot can be restored without invalidating the
/// selected-list index).
pub open spec fn view_inv(v: AppView) -> bool {
    &&& v.lists.len() > 0 ==> 0 <= v.sel_list < v.lists.len()
    &&& 0 <= v.cur <= v.snaps.len()
    &&& v.snaps.len() <= v.cap
    &&& v.cap >= 1
    &&& forall|i: int| 0 <= i < v.snaps.len() ==> (#[trigger] v.snaps[i]).len() == v.lists.len()
}

/// Which list is active, if any.
pub open spec fn spec_selected_list(v: AppView) -> Option<int> {
    if v.lists.len() == 0 {
        None
    } else {
        Some(v.sel_list)
    }
}

/// Which item is active, if any: the stored item index clamped to the
/// bounds of the active list.
pub open spec fn spec_selected_todo(v: AppView) -> Option<(int, int)> {
    if v.lists.len() == 0 {
        None
    } else {
        let todos = v.lists[v.sel_list].todos;
        if todos.len() == 0 {
            None
        } else {
            let ti = if v.sel_todo < todos.len() {
                v.sel_todo
            } else {
                todos.len() - 1
            };
            Some((v.sel_list, ti))
        }
    }
}

/// Selecting an item: the list index is adopted only if valid, the item
/// index only if valid within that list.
pub open spec fn spec_select_todo(v: AppView, li: int, ti: int) -> AppView {
    if li < 0 || li >= v.lists.len() {
        v
    } else {
        let v1 = AppView { sel_list: li, ..v };
        if 0 <= ti < v.lists[li].todos.len() {
            AppView { sel_todo: ti, ..v1 }
        } else {
            v1
        }
    }
}

pub open spec fn spec_move_left(v: AppView) -> AppView {
    match spec_selected_list(v) {
        None => v,
        Some(li) => if li == 0 {
            v
        } else {
            AppView { sel_list: li - 1, ..v }
        },
    }
}

pub open spec fn spec_move_right(v: AppView) -> AppView {
    match spec_selected_list(v) {
        None => v,
        Some(li) => if li + 1 < v.lists.len() {
            AppView { sel_list: li + 1, ..v }
        } else {
            v
        },
    }
}

pub open spec fn spec_move_up(v: AppView) -> AppView {
    match spec_selected_todo(v) {
        None => v,
        Some((li, ti)) => if ti == 0 {
            v
        } else {
            spec_select_todo(v, li, ti - 1)
        },
    }
}

pub open spec fn spec_move_down(v: AppView) -> AppView {
    match spec_selected_todo(v) {
        None => v,
        Some((li, ti)) => spec_select_todo(v, li, ti + 1),
    }
}

pub open spec fn spec_move_up_half(v: AppView) -> AppView {
    match spec_selected_todo(v) {
        None => v,
        Some((li, ti)) => {
            let next = if ti > MOVE_HALF_AMOUNT {
                ti - MOVE_HALF_AMOUNT
            } else {
                0
            };
            spec_select_todo(v, li, next)
        },
    }
}

pub open spec fn spec_move_down_half(v: AppView) -> AppView {
    match spec_selected_todo(v) {
        None => v,
        Some((li, ti)) => {
            let last = v.lists[li].todos.len() - 1;
            let next = if ti + MOVE_HALF_AMOUNT < last {
                ti + MOVE_HALF_AMOUNT
            } else {
                last
            };
            spec_select_todo(v, li, next)
        },
    }
}

pub open spec fn spec_move_top(v: AppView) -> AppView {
    match spec_selected_list(v) {
        None => v,
        Some(li) => spec_select_todo(v, li, 0),
    }
}

pub open spec fn spec_move_bottom(v: AppView) -> AppView {
    match spec_selected_list(v) {
        None => v,
        Some(li) => if v.lists[li].todos.len() == 0 {
            v
        } else {
            spec_select_todo(v, li, v.lists[li].todos.len() - 1)
        },
    }
}

pub open spec fn spec_quit(v: AppView) -> AppView {
    AppView { quit: true, ..v }
}

/// Pushing a history snapshot of the live content: the future is
/// truncated, the content is appended, the cursor advances (with eviction
/// of the oldest entry once the bound is exceeded).
pub open spec fn spec_snapshot(v: AppView) -> AppView {
    let (s, c) = spec_record(v.snaps, v.cur, v.cap, v.lists);
    AppView { snaps: s, cur: c, ..v }
}

/// The freshly created, still empty item.
pub open spec fn spec_empty_todo() -> TodoView {
    TodoView { name: Seq::empty(), marked: false }
}

/// Inserting an empty item at (selected index) or (selected index + 1),
/// both clamped to the list length, selecting it and entering Insert mode;
/// a snapshot of the prior content is pushed first.
pub open spec fn spec_add_todo(v: AppView, below: bool) -> AppView {
    if v.lists.len() == 0 {
        v
    } else {
        let v1 = spec_snapshot(v);
        let list = v.lists[v.sel_list];
        let raw = if below {
            v.sel_todo + 1
        } else {
            v.sel_todo
        };
        let idx = if raw < list.todos.len() {
            raw
        } else {
            list.todos.len() as int
        };
        let new_list = ListView { name: list.name, todos: list.todos.insert(idx, spec_empty_todo()) };
        AppView {
            lists: v.lists.update(v.sel_list, new_list),
            sel_todo: idx,
            sel_char: 0,
            mode: Mode::Insert,
            dirty: true,
            ..v1
        }
    }
}

/// Flipping the marked flag of the selected item, behind a snapshot.
pub open spec fn spec_toggle_mark(v: AppView) -> AppView {
    match spec_selected_todo(v) {
        None => v,
        Some((li, ti)) => {
            let v1 = spec_snapshot(v);
            let list = v.lists[li];
            let t = list.todos[ti];
            let new_list = ListView {
                name: list.name,
                todos: list.todos.update(ti, TodoView { name: t.name, marked: !t.marked }),
            };
            AppView { lists: v.lists.update(li, new_list), dirty: true, ..v1 }
        },
    }
}

/// Deleting the selected item, behind a snapshot: an unmarked item, an
/// item already in the backlog list, and an item whose backlog list does
/// not exist are removed outright; a marked item elsewhere moves to the
/// end of the backlog list instead.
pub open spec fn spec_delete_todo(v: AppView) -> AppView {
    match spec_selected_todo(v) {
        None => v,
        Some((li, ti)) => {
            let v1 = spec_snapshot(v);
            let src = v.lists[li];
            let t = src.todos[ti];
            let removed = ListView { name: src.name, todos: src.todos.remove(ti) };
            if !t.marked || li == BACKLOG_LIST_INDEX || BACKLOG_LIST_INDEX >= v.lists.len() {
                AppView { lists: v.lists.update(li, removed), dirty: true, ..v1 }
            } else {
                let dest = v.lists[BACKLOG_LIST_INDEX as int];
                let appended = ListView { name: dest.name, todos: dest.todos.push(t) };
                AppView {
                    lists: v.lists.update(li, removed).update(BACKLOG_LIST_INDEX as int, appended),
                    dirty: true,
                    ..v1
                }
            }
        },
    }
}

/// Relocating the selected item to the adjacent list on the left, at the
/// stored item index clamped to that list's length; the selection follows
/// it. Behind a snapshot.
pub open spec fn spec_move_todo_left(v: AppView) -> AppView {
    match spec_selected_todo(v) {
        None => v,
        Some((li, ti)) => if li == 0 {
            v
        } else {
            let v1 = spec_snapshot(v);
            let src = v.lists[li];
            let t = src.todos[ti];
            let removed = ListView { name: src.name, todos: src.todos.remove(ti) };
            let dest = v.lists[li - 1];
            let dj = if v.sel_todo < dest.todos.len() {
                v.sel_todo
            } else {
                dest.todos.len() as int
            };
            let inserted = ListView { name: dest.name, todos: dest.todos.insert(dj, t) };
            AppView {
                lists: v.lists.update(li, removed).update(li - 1, inserted),
                sel_list: li - 1,
                dirty: true,
                ..v1
            }
        },
    }
}

/// Relocating the selected item to the adjacent list on the right; the
/// mirror image of moving left.
pub open spec fn spec_move_todo_right(v: AppView) -> AppView {
    match spec_selected_todo(v) {
        None => v,
        Some((li, ti)) => if li + 1 >= v.lists.len() {
            v
        } else {
            let v1 = spec_snapshot(v);
            let src = v.lists[li];
            let t = src.todos[ti];
            let removed = ListView { name: src.name, todos: src.todos.remove(ti) };
            let dest = v.lists[li + 1];
            let dj = if v.sel_todo < dest.todos.len() {
                v.sel_todo
            } else {
                dest.todos.len() as int
            };
            let inserted = ListView { name: dest.name, todos: dest.todos.insert(dj, t) };
            AppView {
                lists: v.lists.update(li, removed).update(li + 1, inserted),
                sel_list: li + 1,
                dirty: true,
                ..v1
            }
        },
    }
}

/// Swapping the selected item with its upper neighbour; the selection
/// follows it. Behind a snapshot.
pub open spec fn spec_move_todo_up(v: AppView) -> AppView {
    match spec_selected_todo(v) {
        None => v,
        Some((li, ti)) => if ti == 0 {
            v
        } else {
            let v1 = spec_snapshot(v);
            let list = v.lists[li];
            let swapped = list.todos.update(ti, list.todos[ti - 1]).update(ti - 1, list.todos[ti]);
            AppView {
                lists: v.lists.update(li, ListView { name: list.name, todos: swapped }),
                sel_todo: ti - 1,
                dirty: true,
                ..v1
            }
        },
    }
}

/// Swapping the selected item with its lower neighbour; the selection
/// follows it. Behind a snapshot.
pub open spec fn spec_move_todo_down(v: AppView) -> AppView {
    match spec_selected_todo(v) {
        None => v,
        Some((li, ti)) => if ti == v.lists[li].todos.len() - 1 {
            v
        } else {
            let v1 = spec_snapshot(v);
            let list = v.lists[li];
            let swapped = list.todos.update(ti, list.todos[ti + 1]).update(ti + 1, list.todos[ti]);
            AppView {
                lists: v.lists.update(li, ListView { name: list.name, todos: swapped }),
                sel_todo: ti + 1,
                dirty: true,
                ..v1
            }
        },
    }
}

/// Entering Insert mode: rejected (and nothing recorded) when there is no
/// list or the active list has no items; otherwise a snapshot is pushed,
/// the character offset resets to 0 and the mode switches.
pub open spec fn spec_enter_insert(v: AppView) -> AppView {
    if v.lists.len() == 0 {
        v
    } else if v.lists[v.sel_list].todos.len() == 0 {
        v
    } else {
        let v1 = spec_snapshot(v);
        AppView { sel_char: 0, mode: Mode::Insert, ..v1 }
    }
}

/// Retracting the most recent snapshot, possible only while the cursor
/// sits at the end of a non-empty history.
pub open spec fn spec_drop_newest(v: AppView) -> AppView {
    if v.cur == v.snaps.len() && v.snaps.len() > 0 {
        AppView { snaps: v.snaps.drop_last(), cur: v.cur - 1, ..v }
    } else {
        v
    }
}

/// Leaving Insert mode: if the active item's text is empty or
/// whitespace-only the provisional item is discarded, the snapshot pushed
/// on entering Insert is retracted with it, and the item cursor steps back
/// by one if possible.
pub open spec fn spec_exit_insert(v: AppView) -> AppView {
    let v1 = AppView { mode: Mode::Normal, ..v };
    match spec_selected_todo(v) {
        None => v1,
        Some((li, ti)) => if crate::todo::spec_is_blank(v.lists[li].todos[ti].name) {
            let list = v.lists[li];
            let removed = ListView { name: list.name, todos: list.todos.remove(ti) };
            let v2 = AppView { lists: v1.lists.update(li, removed), ..v1 };
            let v3 = spec_drop_newest(v2);
            AppView {
                sel_todo: if v.sel_todo > 0 {
                    v.sel_todo - 1
                } else {
                    0
                },
                ..v3
            }
        } else {
            v1
        },
    }
}

pub open spec fn spec_set_mode(v: AppView, next_mode: Mode) -> AppView {
    match next_mode {
        Mode::Insert => spec_enter_insert(v),
        Mode::Normal => spec_exit_insert(v),
    }
}

/// Applying one key of literal text input to the active item: printable
/// characters are inserted at the (clamped) character offset, Backspace
/// removes before it, Delete removes at it; each is a no-op at its
/// boundary, and any other key edits nothing.
pub open spec fn spec_input(v: AppView, key: Key) -> AppView {
    if v.lists.len() == 0 {
        v
    } else {
        let list = v.lists[v.sel_list];
        if list.todos.len() == 0 {
            v
        } else {
            let ti = if v.sel_todo < list.todos.len() {
                v.sel_todo
            } else {
                list.todos.len() - 1
            };
            let t = list.todos[ti];
            let ci = if v.sel_char < t.name.len() {
                v.sel_char
            } else {
                t.name.len() as int
            };
            match key {
                Key::Char(c) => {
                    let t2 = TodoView { name: t.name.insert(ci, c), marked: t.marked };
                    let new_list = ListView { name: list.name, todos: list.todos.update(ti, t2) };
                    AppView {
                        lists: v.lists.update(v.sel_list, new_list),
                        sel_char: ci + 1,
                        dirty: true,
                        ..v
                    }
                },
                Key::Backspace => if ci > 0 {
                    let t2 = TodoView { name: t.name.remove(ci - 1), marked: t.marked };
                    let new_list = ListView { name: list.name, todos: list.todos.update(ti, t2) };
                    AppView {
                        lists: v.lists.update(v.sel_list, new_list),
                        sel_char: ci - 1,
                        dirty: true,
                        ..v
                    }
                } else {
                    AppView { dirty: true, ..v }
                },
                Key::Delete => if ci < t.name.len() {
                    let t2 = TodoView { name: t.name.remove(ci), marked: t.marked };
                    let new_list = ListView { name: list.name, todos: list.todos.update(ti, t2) };
                    AppView { lists: v.lists.update(v.sel_list, new_list), dirty: true, ..v }
                } else {
                    AppView { dirty: true, ..v }
                },
                _ => AppView { dirty: true, ..v },
            }
        }
    }
}

pub open spec fn spec_move_cursor_right(v: AppView) -> AppView {
    match spec_selected_todo(v) {
        None => v,
        Some((li, ti)) => if v.sel_char >= v.lists[li].todos[ti].name.len() {
            v
        } else {
            AppView { sel_char: v.sel_char + 1, ..v }
        },
    }
}

pub open spec fn spec_move_cursor_left(v: AppView) -> AppView {
    if v.sel_char == 0 {
        v
    } else {
        AppView { sel_char: v.sel_char - 1, ..v }
    }
}

pub open spec fn spec_move_cursor_start(v: AppView) -> AppView {
    AppView { sel_char: 0, ..v }
}

pub open spec fn spec_move_cursor_end(v: AppView) -> AppView {
    match spec_selected_todo(v) {
        None => v,
        Some((li, ti)) => AppView { sel_char: v.lists[li].todos[ti].name.len() as int, ..v },
    }
}

/// Undo: a no-op when nothing is undoable; otherwise the snapshot before
/// the cursor becomes the live content and the discarded live content
/// takes its slot as the redo target.
pub open spec fn spec_undo_action(v: AppView) -> AppView {
    if v.cur == 0 {
        v
    } else {
        let (s, c, restored) = spec_undo(v.snaps, v.cur, v.lists);
        AppView { lists: restored, snaps: s, cur: c, dirty: true, ..v }
    }
}

/// Redo: a no-op when nothing is redoable; otherwise the snapshot at the
/// cursor becomes the live content and the discarded live content takes
/// its slot as the undo target.
pub open spec fn spec_redo_action(v: AppView) -> AppView {
    if v.cur == v.snaps.len() {
        v
    } else {
        let (s, c, restored) = spec_redo(v.snaps, v.cur, v.lists);
        AppView { lists: restored, snaps: s, cur: c, dirty: true, ..v }
    }
}

/// An undo directly after a redo (with no intervening edit) restores the
/// exact list-sequence content that existed immediately before that redo,
/// and leaves the history as it was.
pub proof fn lemma_app_undo_after_redo(v: AppView)
    requires
        view_inv(v),
        v.cur < v.snaps.len(),
    ensures
        ({
            let v1 = spec_redo_action(v);
            let v2 = spec_undo_action(v1);
            &&& v2.lists == v.lists
            &&& v2.snaps == v.snaps
            &&& v2.cur == v.cur
        }),
{
    lemma_undo_after_redo(v.snaps, v.cur, v.lists);
}

/// A redo directly after an undo (with no intervening edit) restores the
/// exact list-sequence content that existed immediately before that undo,
/// and leaves the history as it was.
pub proof fn lemma_app_redo_after_undo(v: AppView)
    requires
        view_inv(v),
        v.cur > 0,
    ensures
        ({
            let v1 = spec_undo_action(v);
            let v2 = spec_redo_action(v1);
            &&& v2.lists == v.lists
            &&& v2.snaps == v.snaps
            &&& v2.cur == v.cur
        }),
{
    lemma_redo_after_undo(v.snaps, v.cur, v.lists);
}

/// The state machine transition function: what one action does to the
/// whole application state.
pub open spec fn spec_update(v: AppView, action: Action) -> AppView {
    match action {
        Action::Quit => spec_quit(v),
        Action::DeleteTodo => spec_delete_todo(v),
        Action::MoveTodoLeft => spec_move_todo_left(v),
        Action::MoveTodoRight => spec_move_todo_right(v),
        Action::MoveTodoUp => spec_move_todo_up(v),
        Action::MoveTodoDown => spec_move_todo_down(v),
        Action::MoveLeft => spec_move_left(v),
        Action::MoveRight => spec_move_right(v),
        Action::MoveUp => spec_move_up(v),
        Action::MoveDown => spec_move_down(v),
        Action::MoveUpHalf => spec_move_up_half(v),
        Action::MoveDownHalf => spec_move_down_half(v),
        Action::MoveTop => spec_move_top(v),
        Action::MoveBottom => spec_move_bottom(v),
        Action::AddTodoAbove => spec_add_todo(v, false),
        Action::AddTodoBelow => spec_add_todo(v, true),
        Action::ToggleMark => spec_toggle_mark(v),
        Action::Input(key) => spec_input(v, key),
        Action::SetMode(m) => spec_set_mode(v, m),
        Action::MoveCursorRight => spec_move_cursor_right(v),
        Action::MoveCursorLeft => spec_move_cursor_left(v),
        Action::MoveCursorStart => spec_move_cursor_start(v),
        Action::MoveCursorEnd => spec_move_cursor_end(v),
        Action::Undo => spec_undo_action(v),
        Action::Redo => spec_redo_action(v),
        Action::Nop => v,
    }
}

impl App {
    /// The state invariant, over both the abstract value and the history
    /// representation.
    pub open spec fn inv(&self) -> bool {
        &&& self.history.wf()
        &&& view_inv(self@)
    }

    /// Creates the state for a run: the given content, cursor at the
    /// origin, Normal mode, an empty history with the given bound.
    pub fn new(todo_lists: Vec<TodoList>, max_snapshots: usize) -> (r: App)
        requires
            max_snapshots >= 1,
        ensures
            r@ == (AppView {
                lists: todo_lists.deep_view(),
                sel_list: 0,
                sel_todo: 0,
                sel_char: 0,
                mode: Mode::Normal,
                snaps: Seq::empty(),
                cur: 0,
                cap: max_snapshots as int,
                dirty: false,
                quit: false,
            }),
            r.inv(),
    {
        let r = App {
            todo_lists,
            selection: Selection { todo_list: 0, todo: 0, char_offset: 0 },
            mode: Mode::Normal,
            history: History::new(max_snapshots),
            needs_saving: false,
            quit: false,
        };
        proof {
            assert(r@.snaps =~~= Seq::<Seq<ListView>>::empty());
            assert(r@ =~~= (AppView {
                lists: r.todo_lists.deep_view(),
                sel_list: 0,
                sel_todo: 0,
                sel_char: 0,
                mode: Mode::Normal,
                snaps: Seq::empty(),
                cur: 0,
                cap: max_snapshots as int,
                dirty: false,
                quit: false,
            }));
        }
        r
    }

    /// Index of the currently selected todo list.
    pub fn selected_todo_list(&self) -> (r: Option<usize>)
        requires
            self.inv(),
        ensures
            r matches Some(li) ==> spec_selected_list(self@) == Some(li as int),
            r is None ==> spec_selected_list(self@) is None,
    {
        if self.todo_lists.is_empty() {
            return None;
        }
        Some(self.selection.todo_list)
    }

    /// Selects the desired todo list, if the index is valid.
    pub fn select_todo_list(&mut self, todo_list_idx: usize)
        requires
            old(self).inv(),
        ensures
            final(self)@ == (if todo_list_idx < old(self)@.lists.len() {
                AppView { sel_list: todo_list_idx as int, ..old(self)@ }
            } else {
                old(self)@
            }),
            final(self).inv(),
    {
        if todo_list_idx >= self.todo_lists.len() {
            return ;
        }
        self.selection.todo_list = todo_list_idx;
        proof {
            assert(final(self)@ =~~= (AppView { sel_list: todo_list_idx as int, ..old(self)@ }));
        }
    }

    /// Selects the desired todo.
    pub fn select_todo(&mut self, todo_list_idx: usize, todo_idx: usize)
        requires
            old(self).inv(),
        ensures
            final(self)@ == spec_select_todo(old(self)@, todo_list_idx as int, todo_idx as int),
            final(self).inv(),
    {
        if todo_list_idx >= self.todo_lists.len() {
            return ;
        }
        self.selection.todo_list = todo_list_idx;
        let todo_list = &self.todo_lists[todo_list_idx];
        if todo_idx >= todo_list.todos.len() {
            proof {
                assert(final(self)@ =~~= spec_select_todo(
                    old(self)@,
                    todo_list_idx as int,
                    todo_idx as int,
                ));
            }
            return ;
        }
        self.selection.todo = todo_idx;
        proof {
            assert(final(self)@ =~~= spec_select_todo(
                old(self)@,
                todo_list_idx as int,
                todo_idx as int,
            ));
        }
    }

    /// Indices of the currently selected todo: the stored item index is
    /// clamped to the active list's bounds before use.
    pub fn selected_todo(&self) -> (r: Option<(usize, usize)>)
        requires
            self.inv(),
        ensures
            r matches Some((li, ti)) ==> spec_selected_todo(self@) == Some((li as int, ti as int)),
            r is None ==> spec_selected_todo(self@) is None,
    {
        if self.todo_lists.is_empty() {
            return None;
        }
        let todo_list_idx = self.selection.todo_list;
        let todo_list = &self.todo_lists[todo_list_idx];
        if todo_list.todos.is_empty() {
            return None;
        }
        let last = todo_list.todos.len() - 1;
        let todo_idx = if self.selection.todo < last {
            self.selection.todo
        } else {
            last
        };
        Some((todo_list_idx, todo_idx))
    }

    pub fn move_left(&mut self)
        requires
            old(self).inv(),
        ensures
            final(self)@ == spec_move_left(old(self)@),
            final(self).inv(),
    {
        let Some(todo_list_idx) = self.selected_todo_list() else {
            return
        };
        if todo_list_idx == 0 {
            return ;
        }
        self.select_todo_list(todo_list_idx - 1);
        proof {
            assert(final(self)@ =~~= spec_move_left(old(self)@));
        }
    }

    pub fn move_right(&mut self)
        requires
            old(self).inv(),
        ensures
            final(self)@ == spec_move_right(old(self)@),
            final(self).inv(),
    {
        let Some(todo_list_idx) = self.selected_todo_list() else {
            return
        };
        let n = self.todo_lists.len();
        proof {
            assert(todo_list_idx < n);
        }
        self.select_todo_list(todo_list_idx + 1);
        proof {
            assert(final(self)@ =~~= spec_move_right(old(self)@));
        }
    }

    pub fn move_up(&mut self)
        requires
            old(self).inv(),
        ensures
            final(self)@ == spec_move_up(old(self)@),
            final(self).inv(),
    {
        let Some((todo_list_idx, todo_idx)) = self.selected_todo() else {
            return
        };
        if todo_idx == 0 {
            return ;
        }
        self.select_todo(todo_list_idx, todo_idx - 1);
    }

    pub fn move_down(&mut self)
        requires
            old(self).inv(),
        ensures
            final(self)@ == spec_move_down(old(self)@),
            final(self).inv(),
    {
        let Some((todo_list_idx, todo_idx)) = self.selected_todo() else {
            return
        };
        let todos_len = self.todo_lists[todo_list_idx].todos.len();
        proof {
            assert(todo_idx < todos_len);
        }
        self.select_todo(todo_list_idx, todo_idx + 1);
        proof {
            assert(final(self)@ =~~= spec_move_down(old(self)@));
        }
    }

    pub fn move_up_half(&mut self)
        requires
            old(self).inv(),
        ensures
            final(self)@ == spec_move_up_half(old(self)@),
            final(self).inv(),
    {
        let Some((todo_list_idx, todo_idx)) = self.selected_todo() else {
            return
        };
        let next_todo_idx = if todo_idx > MOVE_HALF_AMOUNT {
            todo_idx - MOVE_HALF_AMOUNT
        } else {
            0
        };
        self.select_todo(todo_list_idx, next_todo_idx);
    }

    pub fn move_down_half(&mut self)
        requires
            old(self).inv(),
        ensures
            final(self)@ == spec_move_down_half(old(self)@),
            final(self).inv(),
    {
        let Some((todo_list_idx, todo_idx)) = self.selected_todo() else {
            return
        };
        let todo_list = &self.todo_lists[todo_list_idx];
        let last_todo_idx = todo_list.todos.len() - 1;
        proof {
            assert(todo_idx <= last_todo_idx);
        }
        let next_todo_idx = if last_todo_idx - todo_idx > MOVE_HALF_AMOUNT {
            todo_idx + MOVE_HALF_AMOUNT
        } else {
            last_todo_idx
        };
        proof {
            let v = old(self)@;
            if let Some((li, ti)) = spec_selected_todo(v) {
                let lastg = v.lists[li].todos.len() - 1;
                assert(next_todo_idx as int == (if ti + MOVE_HALF_AMOUNT < lastg {
                    ti + MOVE_HALF_AMOUNT
                } else {
                    lastg
                }));
            }
        }
        self.select_todo(todo_list_idx, next_todo_idx);
    }

    pub fn move_top(&mut self)
        requires
            old(self).inv(),
        ensures
            final(self)@ == spec_move_top(old(self)@),
            final(self).inv(),
    {
        let Some(todo_list_idx) = self.selected_todo_list() else {
            return
        };
        self.select_todo(todo_list_idx, 0);
    }

    pub fn move_bottom(&mut self)
        requires
            old(self).inv(),
        ensures
            final(self)@ == spec_move_bottom(old(self)@),
            final(self).inv(),
    {
        let Some(todo_list_idx) = self.selected_todo_list() else {
            return
        };
        let todo_list = &self.todo_lists[todo_list_idx];
        if todo_list.todos.is_empty() {
            return ;
        }
        let last = todo_list.todos.len() - 1;
        self.select_todo(todo_list_idx, last);
    }

    /// Pushes a snapshot of the live content onto the history.
    pub fn create_snapshot(&mut self)
        requires
            old(self).inv(),
        ensures
            final(self)@ == spec_snapshot(old(self)@),
            final(self).inv(),
    {
        let snap = clone_lists(&self.todo_lists);
        self.history.record(snap);
        proof {
            let pre = old(self)@;
            let (s, c) = spec_record(pre.snaps, pre.cur, pre.cap, pre.lists);
            assert(final(self)@.snaps =~~= s);
            assert(final(self)@ =~~= spec_snapshot(pre));
        }
    }

    /// Inserts an empty item above or below the currently selected one,
    /// selects it, and enters Insert mode.
    pub fn add_todo(&mut self, below: bool)
        requires
            old(self).inv(),
        ensures
            final(self)@ == spec_add_todo(old(self)@, below),
            final(self).inv(),
    {
        if self.todo_lists.is_empty() {
            return ;
        }
        self.create_snapshot();
        let li = self.selection.todo_list;
        let todos_len = self.todo_lists[li].todos.len();
        let sel = self.selection.todo;
        let idx = if below {
            if sel < todos_len {
                sel + 1
            } else {
                todos_len
            }
        } else {
            if sel < todos_len {
                sel
            } else {
                todos_len
            }
        };
        let list = &mut self.todo_lists[li];
        list.todos.insert(idx, Todo::new(Vec::new()));
        self.selection.todo = idx;
        self.selection.char_offset = 0;
        self.mode = Mode::Insert;
        self.needs_saving = true;
        proof {
            assert(final(self)@ =~~= spec_add_todo(old(self)@, below));
        }
    }

    /// Flips the marked flag of the selected item.
    pub fn toggle_mark(&mut self)
        requires
            old(self).inv(),
        ensures
            final(self)@ == spec_toggle_mark(old(self)@),
            final(self).inv(),
    {
        let Some((li, ti)) = self.selected_todo() else {
            return
        };
        self.create_snapshot();
        let list = &mut self.todo_lists[li];
        let todo = &mut list.todos[ti];
        todo.marked = !todo.marked;
        self.needs_saving = true;
        proof {
            assert(final(self)@ =~~= spec_toggle_mark(old(self)@));
        }
    }

    /// Removes the currently selected item: outright if it is unmarked,
    /// already in the backlog list, or no backlog list exists; a marked
    /// item elsewhere is appended to the backlog list instead.
    pub fn delete_todo(&mut self)
        requires
            old(self).inv(),
        ensures
            final(self)@ == spec_delete_todo(old(self)@),
            final(self).inv(),
    {
        let Some((li, ti)) = self.selected_todo() else {
            return
        };
        let marked = self.todo_lists[li].todos[ti].marked;
        if !marked || li == BACKLOG_LIST_INDEX || BACKLOG_LIST_INDEX >= self.todo_lists.len() {
            self.create_snapshot();
            let list = &mut self.todo_lists[li];
            list.todos.remove(ti);
            self.needs_saving = true;
            proof {
                assert(final(self)@ =~~= spec_delete_todo(old(self)@));
            }
        } else {
            self.create_snapshot();
            let list = &mut self.todo_lists[li];
            let todo = list.todos.remove(ti);
            let backlog = &mut self.todo_lists[BACKLOG_LIST_INDEX];
            backlog.todos.push(todo);
            self.needs_saving = true;
            proof {
                assert(final(self)@ =~~= spec_delete_todo(old(self)@));
            }
        }
    }

    /// Relocates the selected item to the adjacent list on the left, at
    /// the stored item index clamped to that list's bounds; the selection
    /// follows it.
    pub fn move_todo_left(&mut self)
        requires
            old(self).inv(),
        ensures
            final(self)@ == spec_move_todo_left(old(self)@),
            final(self).inv(),
    {
        let Some((li, ti)) = self.selected_todo() else {
            return
        };
        if li == 0 {
            return ;
        }
        self.create_snapshot();
        let list = &mut self.todo_lists[li];
        let todo = list.todos.remove(ti);
        let next_list = &mut self.todo_lists[li - 1];
        let dest_len = next_list.todos.len();
        let sel = self.selection.todo;
        let dj = if sel < dest_len {
            sel
        } else {
            dest_len
        };
        next_list.todos.insert(dj, todo);
        self.selection.todo_list = li - 1;
        self.needs_saving = true;
        proof {
            assert(final(self)@ =~~= spec_move_todo_left(old(self)@));
        }
    }

    /// Relocates the selected item to the adjacent list on the right; the
    /// mirror image of moving left.
    pub fn move_todo_right(&mut self)
        requires
            old(self).inv(),
        ensures
            final(self)@ == spec_move_todo_right(old(self)@),
            final(self).inv(),
    {
        let Some((li, ti)) = self.selected_todo() else {
            return
        };
        let lists_len = self.todo_lists.len();
        proof {
            assert(li < lists_len);
        }
        if li + 1 >= lists_len {
            return ;
        }
        self.create_snapshot();
        let list = &mut self.todo_lists[li];
        let todo = list.todos.remove(ti);
        let next_list = &mut self.todo_lists[li + 1];
        let dest_len = next_list.todos.len();
        let sel = self.selection.todo;
        let dj = if sel < dest_len {
            sel
        } else {
            dest_len
        };
        next_list.todos.insert(dj, todo);
        self.selection.todo_list = li + 1;
        self.needs_saving = true;
        proof {
            assert(final(self)@ =~~= spec_move_todo_right(old(self)@));
        }
    }

    /// Swaps the selected item with its upper neighbour; the selection
    /// follows it.
    pub fn move_todo_up(&mut self)
        requires
            old(self).inv(),
        ensures
            final(self)@ == spec_move_todo_up(old(self)@),
            final(self).inv(),
    {
        let Some((li, ti)) = self.selected_todo() else {
            return
        };
        if ti == 0 {
            return ;
        }
        self.create_snapshot();
        let ghost pre_swap = self.todo_lists[li as int].todos.deep_view();
        let list = &mut self.todo_lists[li];
        let todo = list.todos.remove(ti);
        list.todos.insert(ti - 1, todo);
        proof {
            assert(list.todos.deep_view() =~~= pre_swap.update(ti as int, pre_swap[ti - 1]).update(
                ti - 1,
                pre_swap[ti as int],
            ));
        }
        self.select_todo(li, ti - 1);
        self.needs_saving = true;
        proof {
            assert(final(self)@ =~~= spec_move_todo_up(old(self)@));
        }
    }

    /// Swaps the selected item with its lower neighbour; the selection
    /// follows it.
    pub fn move_todo_down(&mut self)
        requires
            old(self).inv(),
        ensures
            final(self)@ == spec_move_todo_down(old(self)@),
            final(self).inv(),
    {
        let Some((li, ti)) = self.selected_todo() else {
            return
        };
        let todos_len = self.todo_lists[li].todos.len();
        if ti == todos_len - 1 {
            return ;
        }
        self.create_snapshot();
        let ghost pre_swap = self.todo_lists[li as int].todos.deep_view();
        let list = &mut self.todo_lists[li];
        let todo = list.todos.remove(ti);
        list.todos.insert(ti + 1, todo);
        proof {
            assert(list.todos.deep_view() =~~= pre_swap.update(ti as int, pre_swap[ti + 1]).update(
                ti + 1,
                pre_swap[ti as int],
            ));
        }
        self.select_todo(li, ti + 1);
        self.needs_saving = true;
        proof {
            assert(final(self)@ =~~= spec_move_todo_down(old(self)@));
        }
    }

    /// Signals the run loop to terminate; the caller persists the content
    /// first if it is dirty.
    pub fn quit(&mut self)
        requires
            old(self).inv(),
        ensures
            final(self)@ == spec_quit(old(self)@),
            final(self).inv(),
    {
        self.quit = true;
        proof {
            assert(final(self)@ =~~= spec_quit(old(self)@));
        }
    }

    /// Switches between Normal and Insert mode, with the entry guard and
    /// the provisional-item discard on exit.
    pub fn set_mode(&mut self, next_mode: Mode)
        requires
            old(self).inv(),
        ensures
            final(self)@ == spec_set_mode(old(self)@, next_mode),
            final(self).inv(),
    {
        match next_mode {
            Mode::Insert => {
                if self.todo_lists.is_empty() {
                    return ;
                }
                let li = self.selection.todo_list;
                if self.todo_lists[li].todos.is_empty() {
                    return ;
                }
                self.create_snapshot();
                self.selection.char_offset = 0;
                self.mode = Mode::Insert;
                proof {
                    assert(final(self)@ =~~= spec_enter_insert(old(self)@));
                }
            },
            Mode::Normal => {
                self.mode = Mode::Normal;
                let Some((li, ti)) = self.selected_todo() else {
                    proof {
                        assert(final(self)@ =~~= spec_exit_insert(old(self)@));
                    }
                    return
                };
                let blank = crate::todo::is_blank(&self.todo_lists[li].todos[ti].name);
                if blank {
                    let list = &mut self.todo_lists[li];
                    list.todos.remove(ti);
                    self.history.drop_newest();
                    if self.selection.todo > 0 {
                        self.selection.todo = self.selection.todo - 1;
                    }
                }
                proof {
                    assert(final(self)@ =~~= spec_exit_insert(old(self)@));
                }
            },
        }
    }

    /// Applies one key of literal text input to the active item.
    pub fn input(&mut self, key: Key)
        requires
            old(self).inv(),
        ensures
            final(self)@ == spec_input(old(self)@, key),
            final(self).inv(),
    {
        if self.todo_lists.is_empty() {
            return ;
        }
        let li = self.selection.todo_list;
        let todos_len = self.todo_lists[li].todos.len();
        if todos_len == 0 {
            return ;
        }
        let ti = if self.selection.todo < todos_len {
            self.selection.todo
        } else {
            todos_len - 1
        };
        let name_len = self.todo_lists[li].todos[ti].name.len();
        let ci = if self.selection.char_offset < name_len {
            self.selection.char_offset
        } else {
            name_len
        };
        match key {
            Key::Char(c) => {
                let list = &mut self.todo_lists[li];
                let todo = &mut list.todos[ti];
                todo.name.insert(ci, c);
                let new_len = todo.name.len();
                proof {
                    assert(ci < new_len);
                }
                self.selection.char_offset = ci + 1;
            },
            Key::Backspace => {
                if ci > 0 {
                    let list = &mut self.todo_lists[li];
                    let todo = &mut list.todos[ti];
                    todo.name.remove(ci - 1);
                    self.selection.char_offset = ci - 1;
                }
            },
            Key::Delete => {
                if ci < name_len {
                    let list = &mut self.todo_lists[li];
                    let todo = &mut list.todos[ti];
                    todo.name.remove(ci);
                }
            },
            _ => {},
        }
        self.needs_saving = true;
        proof {
            assert(final(self)@ =~~= spec_input(old(self)@, key));
        }
    }

    pub fn move_cursor_right(&mut self)
        requires
            old(self).inv(),
        ensures
            final(self)@ == spec_move_cursor_right(old(self)@),
            final(self).inv(),
    {
        let Some((li, ti)) = self.selected_todo() else {
            return
        };
        let name_len = self.todo_lists[li].todos[ti].name.len();
        if self.selection.char_offset >= name_len {
            return ;
        }
        self.selection.char_offset = self.selection.char_offset + 1;
        proof {
            assert(final(self)@ =~~= spec_move_cursor_right(old(self)@));
        }
    }

    pub fn move_cursor_left(&mut self)
        requires
            old(self).inv(),
        ensures
            final(self)@ == spec_move_cursor_left(old(self)@),
            final(self).inv(),
    {
        if self.selection.char_offset == 0 {
            return ;
        }
        self.selection.char_offset = self.selection.char_offset - 1;
        proof {
            assert(final(self)@ =~~= spec_move_cursor_left(old(self)@));
        }
    }

    pub fn move_cursor_start(&mut self)
        requires
            old(self).inv(),
        ensures
            final(self)@ == spec_move_cursor_start(old(self)@),
            final(self).inv(),
    {
        self.selection.char_offset = 0;
        proof {
            assert(final(self)@ =~~= spec_move_cursor_start(old(self)@));
        }
    }

    pub fn move_cursor_end(&mut self)
        requires
            old(self).inv(),
        ensures
            final(self)@ == spec_move_cursor_end(old(self)@),
            final(self).inv(),
    {
        let Some((li, ti)) = self.selected_todo() else {
            return
        };
        let name_len = self.todo_lists[li].todos[ti].name.len();
        self.selection.char_offset = name_len;
        proof {
            assert(final(self)@ =~~= spec_move_cursor_end(old(self)@));
        }
    }

    /// Restores the state from before the most recent edit; the discarded
    /// live content becomes a redo target.
    pub fn undo(&mut self)
        requires
            old(self).inv(),
        ensures
            final(self)@ == spec_undo_action(old(self)@),
            final(self).inv(),
    {
        if !self.history.can_undo() {
            return ;
        }
        let live = clone_lists(&self.todo_lists);
        let restored = self.history.undo(live);
        self.todo_lists = restored;
        self.needs_saving = true;
        proof {
            let pre = old(self)@;
            let (s, c, restored_v) = spec_undo(pre.snaps, pre.cur, pre.lists);
            assert(final(self)@.snaps =~~= s);
            assert(final(self)@.lists =~~= restored_v);
            assert(final(self)@ =~~= spec_undo_action(pre));
        }
    }

    /// Restores the state discarded by the most recent undo; the live
    /// content becomes an undo target again.
    pub fn redo(&mut self)
        requires
            old(self).inv(),
        ensures
            final(self)@ == spec_redo_action(old(self)@),
            final(self).inv(),
    {
        if !self.history.can_redo() {
            return ;
        }
        let live = clone_lists(&self.todo_lists);
        let restored = self.history.redo(live);
        self.todo_lists = restored;
        self.needs_saving = true;
        proof {
            let pre = old(self)@;
            let (s, c, restored_v) = spec_redo(pre.snaps, pre.cur, pre.lists);
            assert(final(self)@.snaps =~~= s);
            assert(final(self)@.lists =~~= restored_v);
            assert(final(self)@ =~~= spec_redo_action(pre));
        }
    }

    /// Applies one resolved action to the state: the single transition
    /// step of the run loop.
    pub fn update(&mut self, action: Action)
        requires
            old(self).inv(),
        ensures
            final(self)@ == spec_update(old(self)@, action),
            final(self).inv(),
    {
        match action {
            Action::Quit => self.quit(),
            Action::DeleteTodo => self.delete_todo(),
            Action::MoveTodoLeft => self.move_todo_left(),
            Action::MoveTodoRight => self.move_todo_right(),
            Action::MoveTodoUp => self.move_todo_up(),
            Action::MoveTodoDown => self.move_todo_down(),
            Action::SetMode(mode) => self.set_mode(mode),
            Action::MoveLeft => self.move_left(),
            Action::MoveRight => self.move_right(),
            Action::MoveUp => self.move_up(),
            Action::MoveDown => self.move_down(),
            Action::MoveUpHalf => self.move_up_half(),
            Action::MoveDownHalf => self.move_down_half(),
            Action::MoveTop => self.move_top(),
            Action::MoveBottom => self.move_bottom(),
            Action::AddTodoAbove => self.add_todo(false),
            Action::AddTodoBelow => self.add_todo(true),
            Action::ToggleMark => self.toggle_mark(),
            Action::Input(key) => self.input(key),
            Action::MoveCursorRight => self.move_cursor_right(),
            Action::MoveCursorLeft => self.move_cursor_left(),
            Action::MoveCursorStart => self.move_cursor_start(),
            Action::MoveCursorEnd => self.move_cursor_end(),
            Action::Undo => self.undo(),
            Action::Redo => self.redo(),
            Action::Nop => {},
        }
    }
}

} // verus!
