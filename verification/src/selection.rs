//! An ordered collection with a single cursor: a sequence of elements of
//! which exactly one is selected whenever the sequence is non-empty.

use vstd::prelude::*;
use vstd::arithmetic::div_mod::{
    lemma_add_mod_noop, lemma_mod_bound, lemma_small_mod, lemma_sub_mod_noop,
};

verus! {

/// Where the cursor lands after moving forwards by `amount` with wrap-around
/// on a collection of length `len`.
pub open spec fn wrap_forwards(sel: int, amount: int, len: int) -> int
    recommends
        len > 0,
{
    (sel + amount) % len
}

/// Where the cursor lands after moving backwards by `amount` with wrap-around
/// on a collection of length `len` (mathematical non-negative modulus).
pub open spec fn wrap_backwards(sel: int, amount: int, len: int) -> int
    recommends
        len > 0,
{
    (sel - amount) % len
}

/// Moving backwards by `amount` with wrap-around and then forwards by the
/// same `amount` with wrap-around returns the cursor to where it started,
/// for every `amount` and every in-bounds starting position.
pub proof fn lemma_wrapping_round_trip(sel: int, amount: int, len: int)
    requires
        len > 0,
        0 <= sel < len,
    ensures
        wrap_forwards(wrap_backwards(sel, amount, len), amount, len) == sel,
{
    let b = wrap_backwards(sel, amount, len);
    lemma_mod_bound(sel - amount, len);
    lemma_small_mod(b as nat, len as nat);
    lemma_add_mod_noop(sel - amount, amount, len);
    assert((b + amount) % len == ((sel - amount) + amount) % len) by {
        lemma_add_mod_noop(b, amount, len);
        lemma_add_mod_noop(sel - amount, amount, len);
    }
    lemma_small_mod(sel as nat, len as nat);
}

/// A list of elements where one of them is considered selected if non-empty.
pub struct SelectionList<T> {
    elements: Vec<T>,
    selected_index: Option<usize>,
}

impl<T> SelectionList<T> {
    /// The elements as a mathematical sequence.
    pub closed spec fn elems(&self) -> Seq<T> {
        self.elements@
    }

    /// The selected index, if any.
    pub closed spec fn selection(&self) -> Option<usize> {
        self.selected_index
    }

    /// The cursor invariant: the selected index is `None` exactly when the
    /// collection is empty, and otherwise lies in `[0, len - 1]`. Every
    /// mutating operation re-establishes this.
    pub open spec fn wf(&self) -> bool {
        match self.selection() {
            None => self.elems().len() == 0,
            Some(i) => i < self.elems().len(),
        }
    }

    pub fn new() -> (r: Self)
        ensures
            r.elems() == Seq::<T>::empty(),
            r.selection() is None,
            r.wf(),
    {
        SelectionList { elements: Vec::new(), selected_index: None }
    }

    pub fn elements(&self) -> (r: &[T])
        ensures
            r@ == self.elems(),
    {
        self.elements.as_slice()
    }

    pub fn elements_mut(&mut self) -> (r: &mut [T])
        ensures
            r@ == old(self).elems(),
            final(self).elems() == final(r)@,
            final(self).selection() == old(self).selection(),
    {
        self.elements.as_mut_slice()
    }

    pub fn push(&mut self, element: T)
        requires
            old(self).wf(),
        ensures
            final(self).elems() == old(self).elems().push(element),
            final(self).selection() == (if old(self).elems().len() == 0 {
                Some(0usize)
            } else {
                old(self).selection()
            }),
            final(self).wf(),
    {
        self.elements.push(element);
        if self.elements.len() == 1 {
            self.selected_index = Some(0);
        }
    }

    /// Inserts at `index` clamped to `[0, len]`; selects index 0 if this
    /// becomes the first element and does not otherwise move the selection.
    pub fn insert(&mut self, index: usize, element: T)
        requires
            old(self).wf(),
        ensures
            final(self).elems() == old(self).elems().insert(
                if index <= old(self).elems().len() {
                    index as int
                } else {
                    old(self).elems().len() as int
                },
                element,
            ),
            final(self).selection() == (if old(self).elems().len() == 0 {
                Some(0usize)
            } else {
                old(self).selection()
            }),
            final(self).wf(),
    {
        let len = self.elements.len();
        let index = if index < len {
            index
        } else {
            len
        };
        self.elements.insert(index, element);
        if self.elements.len() == 1 {
            self.selected_index = Some(0);
        }
    }

    /// Removes and returns the element at `index`; the selection becomes
    /// `None` if the collection empties, and is otherwise clamped to the
    /// new last index.
    pub fn remove(&mut self, index: usize) -> (r: T)
        requires
            old(self).wf(),
            index < old(self).elems().len(),
        ensures
            r == old(self).elems()[index as int],
            final(self).elems() == old(self).elems().remove(index as int),
            final(self).selection() == (if old(self).elems().len() == 1 {
                None::<usize>
            } else if old(self).selection().unwrap() + 1 >= old(self).elems().len() {
                Some((old(self).elems().len() - 2) as usize)
            } else {
                old(self).selection()
            }),
            final(self).wf(),
    {
        let result = self.elements.remove(index);
        if self.elements.is_empty() {
            self.selected_index = None;
        } else {
            let selected_index = self.selected_index.unwrap();
            let last_index = self.elements.len() - 1;
            if selected_index > last_index {
                self.selected_index = Some(last_index);
            }
        }
        result
    }

    pub fn len(&self) -> (r: usize)
        ensures
            r == self.elems().len(),
    {
        self.elements.len()
    }

    pub fn is_empty(&self) -> (r: bool)
        ensures
            r == (self.elems().len() == 0),
    {
        self.elements.is_empty()
    }

    pub fn select_first(&mut self)
        requires
            old(self).wf(),
        ensures
            final(self).elems() == old(self).elems(),
            final(self).selection() == (if old(self).elems().len() == 0 {
                None::<usize>
            } else {
                Some(0usize)
            }),
            final(self).wf(),
    {
        if self.elements.is_empty() {
            return ;
        }
        self.selected_index = Some(0);
    }

    pub fn select_last(&mut self)
        requires
            old(self).wf(),
        ensures
            final(self).elems() == old(self).elems(),
            final(self).selection() == (if old(self).elems().len() == 0 {
                None::<usize>
            } else {
                Some((old(self).elems().len() - 1) as usize)
            }),
            final(self).wf(),
    {
        if self.elements.is_empty() {
            return ;
        }
        self.selected_index = Some(self.elements.len() - 1);
    }

    /// Selects `index` clamped to the last valid index; no-op if empty.
    pub fn select(&mut self, index: usize)
        requires
            old(self).wf(),
        ensures
            final(self).elems() == old(self).elems(),
            final(self).selection() == (if old(self).elems().len() == 0 {
                None::<usize>
            } else if index + 1 >= old(self).elems().len() {
                Some((old(self).elems().len() - 1) as usize)
            } else {
                Some(index)
            }),
            final(self).wf(),
    {
        if self.elements.is_empty() {
            return ;
        }
        let last = self.elements.len() - 1;
        let index = if index < last {
            index
        } else {
            last
        };
        self.selected_index = Some(index);
    }

    /// Moves the selection forwards by `amount`, saturating at the end;
    /// no-op if nothing is selected.
    pub fn select_forwards(&mut self, amount: usize)
        requires
            old(self).wf(),
        ensures
            final(self).elems() == old(self).elems(),
            final(self).selection() == (match old(self).selection() {
                None => None::<usize>,
                Some(s) => if s + amount + 1 >= old(self).elems().len() {
                    Some((old(self).elems().len() - 1) as usize)
                } else {
                    Some((s + amount) as usize)
                },
            }),
            final(self).wf(),
    {
        let Some(selected) = self.selected_index else {
            return
        };
        let last = self.elements.len() - 1;
        let next = if amount < last - selected {
            selected + amount
        } else {
            last
        };
        self.selected_index = Some(next);
    }

    /// Moves the selection forwards by `amount` modulo the length; no-op if
    /// nothing is selected.
    pub fn select_forwards_wrapping(&mut self, amount: usize)
        requires
            old(self).wf(),
        ensures
            final(self).elems() == old(self).elems(),
            final(self).selection() == (match old(self).selection() {
                None => None::<usize>,
                Some(s) => Some(
                    wrap_forwards(s as int, amount as int, old(self).elems().len() as int) as usize,
                ),
            }),
            final(self).wf(),
    {
        let Some(selected) = self.selected_index else {
            return
        };
        let len = self.elements.len();
        let step = amount % len;
        let next = if step < len - selected {
            selected + step
        } else {
            selected - (len - step)
        };
        proof {
            let s = selected as int;
            let a = amount as int;
            let l = len as int;
            lemma_add_mod_noop(s, a, l);
            lemma_small_mod(selected as nat, len as nat);
            assert((s + a % l) % l == (s + a) % l);
            lemma_small_mod(next as nat, len as nat);
            if step < len - selected {
                assert(next == s + a % l);
            } else {
                assert(next + l == s + a % l);
                assert((s + a % l) % l == (next as int) % l) by {
                    vstd::arithmetic::div_mod::lemma_mod_add_multiples_vanish(next as int, l);
                }
            }
        }
        self.selected_index = Some(next);
    }

    /// Moves the selection backwards by `amount`, saturating at index 0;
    /// no-op if nothing is selected.
    pub fn select_backwards(&mut self, amount: usize)
        requires
            old(self).wf(),
        ensures
            final(self).elems() == old(self).elems(),
            final(self).selection() == (match old(self).selection() {
                None => None::<usize>,
                Some(s) => if amount > s {
                    Some(0usize)
                } else {
                    Some((s - amount) as usize)
                },
            }),
            final(self).wf(),
    {
        let Some(selected) = &mut self.selected_index else {
            return
        };
        if amount > *selected {
            *selected = 0;
        } else {
            *selected = *selected - amount;
        }
    }

    /// Moves the selection backwards by `amount` modulo the length, with a
    /// mathematically non-negative result; no-op if nothing is selected.
    pub fn select_backwards_wrapping(&mut self, amount: usize)
        requires
            old(self).wf(),
        ensures
            final(self).elems() == old(self).elems(),
            final(self).selection() == (match old(self).selection() {
                None => None::<usize>,
                Some(s) => Some(
                    wrap_backwards(s as int, amount as int, old(self).elems().len() as int) as usize,
                ),
            }),
            final(self).wf(),
    {
        let Some(selected) = self.selected_index else {
            return
        };
        let len = self.elements.len();
        let step = amount % len;
        let next = if step <= selected {
            selected - step
        } else {
            selected + (len - step)
        };
        proof {
            let s = selected as int;
            let a = amount as int;
            let l = len as int;
            lemma_sub_mod_noop(s, a, l);
            lemma_small_mod(selected as nat, len as nat);
            assert((s - a % l) % l == (s - a) % l);
            lemma_small_mod(next as nat, len as nat);
            if step <= selected {
                assert(next == s - a % l);
            } else {
                assert(next - l == s - a % l);
                assert((s - a % l) % l == (next as int) % l) by {
                    vstd::arithmetic::div_mod::lemma_mod_add_multiples_vanish(next - l, l);
                }
            }
        }
        self.selected_index = Some(next);
    }

    pub fn selected_index(&self) -> (r: Option<usize>)
        ensures
            r == self.selection(),
    {
        self.selected_index
    }

    pub fn selected(&self) -> (r: Option<&T>)
        requires
            self.wf(),
        ensures
            match r {
                None => self.selection() is None,
                Some(e) => self.selection() matches Some(i) && *e == self.elems()[i as int],
            },
    {
        match self.selected_index {
            None => None,
            Some(i) => Some(&self.elements[i]),
        }
    }

    pub fn selected_mut(&mut self) -> (r: Option<&mut T>)
        requires
            old(self).wf(),
        ensures
            final(self).selection() == old(self).selection(),
            match r {
                None => old(self).selection() is None && final(self).elems() == old(self).elems(),
                Some(m) => old(self).selection() matches Some(i) && *m == old(self).elems()[
                    i as int
                ] && final(self).elems() == old(self).elems().update(i as int, *final(m)),
            },
            final(self).wf(),
    {
        match self.selected_index {
            None => None,
            Some(i) => Some(&mut self.elements[i]),
        }
    }
}

impl<T> Default for SelectionList<T> {
    fn default() -> (r: Self)
        ensures
            r.elems() == Seq::<T>::empty(),
            r.selection() is None,
            r.wf(),
    {
        SelectionList::new()
    }
}

} // verus!
