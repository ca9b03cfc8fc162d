//! The content tree: named lists of checklist items.

use vstd::prelude::*;

verus! {

/// Abstract value of a [`Todo`]: its text and its marked flag.
#[verifier::ext_equal]
pub ghost struct TodoView {
    pub name: Seq<char>,
    pub marked: bool,
}

/// Abstract value of a [`TodoList`]: its display name and its items.
#[verifier::ext_equal]
pub ghost struct ListView {
    pub name: Seq<char>,
    pub todos: Seq<TodoView>,
}

/// A single checklist entry with free-form text and a marked flag.
pub struct Todo {
    pub name: Vec<char>,
    pub marked: bool,
}

impl View for Todo {
    type V = TodoView;

    open spec fn view(&self) -> TodoView {
        TodoView { name: self.name@, marked: self.marked }
    }
}

impl DeepView for Todo {
    type V = TodoView;

    open spec fn deep_view(&self) -> TodoView {
        self@
    }
}

impl Todo {
    /// Creates an unmarked entry with the given text.
    pub fn new(name: Vec<char>) -> (r: Self)
        ensures
            r@ == (TodoView { name: name@, marked: false }),
    {
        Todo { name, marked: false }
    }
}

impl Clone for Todo {
    fn clone(&self) -> (r: Self)
        ensures
            r@ == self@,
    {
        let name = self.name.clone();
        proof {
            assert(name@ =~= self.name@);
        }
        Todo { name, marked: self.marked }
    }
}

/// A named, ordered collection of items rendered as one column.
pub struct TodoList {
    pub name: Vec<char>,
    pub todos: Vec<Todo>,
}

impl View for TodoList {
    type V = ListView;

    open spec fn view(&self) -> ListView {
        ListView { name: self.name@, todos: self.todos.deep_view() }
    }
}

impl DeepView for TodoList {
    type V = ListView;

    open spec fn deep_view(&self) -> ListView {
        self@
    }
}

impl Clone for TodoList {
    fn clone(&self) -> (r: Self)
        ensures
            r@ == self@,
    {
        let name = self.name.clone();
        let todos = self.todos.clone();
        proof {
            assert(name@ =~= self.name@);
            assert forall|i: int| 0 <= i < todos@.len() implies todos@[i]@ == self.todos@[i]@ by {
                assert(cloned::<Todo>(self.todos@[i], todos@[i]));
            }
            assert(todos.deep_view() =~= self.todos.deep_view());
        }
        TodoList { name, todos }
    }
}

/// Whether a character counts as whitespace for the blank-text test.
pub open spec fn is_space_char(c: char) -> bool {
    c == ' ' || c == '\t' || c == '\n' || c == '\r'
}

/// Whether a text is empty or consists of whitespace only.
pub open spec fn spec_is_blank(s: Seq<char>) -> bool {
    forall|i: int| 0 <= i < s.len() ==> is_space_char(#[trigger] s[i])
}

/// Tests whether a text is empty or whitespace-only.
pub fn is_blank(s: &Vec<char>) -> (r: bool)
    ensures
        r == spec_is_blank(s@),
{
    let mut i: usize = 0;
    while i < s.len()
        invariant
            0 <= i <= s@.len(),
            forall|j: int| 0 <= j < i ==> is_space_char(#[trigger] s@[j]),
        decreases s@.len() - i,
    {
        let c = s[i];
        if !(c == ' ' || c == '\t' || c == '\n' || c == '\r') {
            return false;
        }
        i = i + 1;
    }
    true
}

/// Clones a whole content tree; the copy has the same abstract value.
pub fn clone_lists(lists: &Vec<TodoList>) -> (r: Vec<TodoList>)
    ensures
        r.deep_view() == lists.deep_view(),
{
    let r = lists.clone();
    proof {
        assert forall|i: int| 0 <= i < r@.len() implies r@[i]@ == lists@[i]@ by {
            assert(cloned::<TodoList>(lists@[i], r@[i]));
        }
        assert(r.deep_view() =~~= lists.deep_view());
    }
    r
}

/// The built-in content used when nothing was persisted: exactly two empty
/// lists named "Todo" and "Backlog".
pub fn default_todo_lists() -> (r: Vec<TodoList>)
    ensures
        r.deep_view().len() == 2,
        r.deep_view()[0] == (ListView { name: seq!['T', 'o', 'd', 'o'], todos: Seq::empty() }),
        r.deep_view()[1] == (ListView {
            name: seq!['B', 'a', 'c', 'k', 'l', 'o', 'g'],
            todos: Seq::empty(),
        }),
{
    let todo_name: Vec<char> = vec!['T', 'o', 'd', 'o'];
    let backlog_name: Vec<char> = vec!['B', 'a', 'c', 'k', 'l', 'o', 'g'];
    let first = TodoList { name: todo_name, todos: Vec::new() };
    let second = TodoList { name: backlog_name, todos: Vec::new() };
    let mut r: Vec<TodoList> = Vec::new();
    r.push(first);
    r.push(second);
    proof {
        assert(r.deep_view().len() == 2);
        assert(r.deep_view()[0].name =~= seq!['T', 'o', 'd', 'o']);
        assert(r.deep_view()[0].todos =~= Seq::<TodoView>::empty());
        assert(r.deep_view()[1].name =~= seq!['B', 'a', 'c', 'k', 'l', 'o', 'g']);
        assert(r.deep_view()[1].todos =~= Seq::<TodoView>::empty());
        assert(r.deep_view()[0] =~~= (ListView {
            name: seq!['T', 'o', 'd', 'o'],
            todos: Seq::empty(),
        }));
        assert(r.deep_view()[1] =~~= (ListView {
            name: seq!['B', 'a', 'c', 'k', 'l', 'o', 'g'],
            todos: Seq::empty(),
        }));
    }
    r
}

} // verus!
