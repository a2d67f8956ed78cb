//! A list of items with at most one of them selected, walked in a circle.

use crate::selection::selected_in;
use ratatui::widgets::ListState;
use vstd::prelude::*;

verus! {

/// The mathematical content of a [`StatefulList`]: the items in order, and
/// the index of the selected one.
pub ghost struct Cursor<T> {
    pub items: Seq<T>,
    pub selected: Option<int>,
}

impl<T> Cursor<T> {
    /// A selected index, where there is one, names an item. An empty list
    /// therefore has nothing selected.
    pub open spec fn wf(self) -> bool {
        self.selected matches Some(i) ==> 0 <= i < self.items.len()
    }

    /// The selected item, if any.
    pub open spec fn selected_item(self) -> Option<T>
        recommends
            self.wf(),
    {
        match self.selected {
            Some(i) => Some(self.items[i]),
            None => None,
        }
    }

    /// The cursor moved `step` places forward round the circle. An empty list
    /// stays as it is; with nothing selected the first item becomes selected,
    /// whatever `step` is.
    pub open spec fn advance(self, step: int) -> Cursor<T> {
        if self.items.len() == 0 {
            self
        } else {
            Cursor {
                items: self.items,
                selected: Some(
                    match self.selected {
                        Some(i) => (i + step) % (self.items.len() as int),
                        None => 0,
                    },
                ),
            }
        }
    }

    /// The cursor moved one place back round the circle: from the first item
    /// to the last. An empty list stays as it is; with nothing selected the
    /// first item becomes selected.
    pub open spec fn retreat(self) -> Cursor<T> {
        if self.items.len() == 0 {
            self
        } else {
            Cursor {
                items: self.items,
                selected: Some(
                    match self.selected {
                        Some(i) => if i == 0 {
                            self.items.len() - 1
                        } else {
                            i - 1
                        },
                        None => 0,
                    },
                ),
            }
        }
    }

    /// The same items with nothing selected.
    pub open spec fn unselected(self) -> Cursor<T> {
        Cursor { items: self.items, selected: None }
    }

    /// The list without its selected item, the later items each one place
    /// down, and nothing selected. With nothing selected it stays as it is.
    pub open spec fn without_selected(self) -> Cursor<T>
        recommends
            self.wf(),
    {
        match self.selected {
            Some(i) => Cursor { items: self.items.remove(i), selected: None },
            None => self,
        }
    }
}

/// Moving forward: an empty list never gets a selection; a list with items
/// and nothing selected gets its first item selected, whatever the step; and
/// otherwise the selected index grows by the step, modulo the length.
pub proof fn lemma_advance_cases<T>(c: Cursor<T>, step: int)
    ensures
        c.items.len() == 0 ==> c.advance(step) == c,
        c.items.len() == 0 && c.wf() ==> c.advance(step).selected is None,
        c.items.len() > 0 && c.selected is None ==> c.advance(step).selected == Some(0int),
        c.items.len() > 0 && c.selected is Some ==> c.advance(step).selected == Some(
            (c.selected.unwrap() + step) % (c.items.len() as int),
        ),
        c.advance(step).items == c.items,
        c.items.len() > 0 ==> c.advance(step).wf(),
{
}

/// Two moves forward, one after the other, land where one move by the sum of
/// their steps lands.
pub proof fn lemma_advance_twice<T>(c: Cursor<T>, first: int, second: int)
    requires
        c.selected is Some,
    ensures
        c.advance(first).advance(second) == c.advance(first + second),
{
    if c.items.len() > 0 {
        let i = c.selected.unwrap();
        let n = c.items.len() as int;
        vstd::arithmetic::div_mod::lemma_add_mod_noop_right(second, i + first, n);
        assert(second + (i + first) == i + (first + second));
    }
}

/// A move forward by the length of the list goes once round the circle and
/// comes back to the selected item.
pub proof fn lemma_advance_full_circle<T>(c: Cursor<T>)
    requires
        c.wf(),
        c.selected is Some,
    ensures
        c.advance(c.items.len() as int) == c,
{
    let i = c.selected.unwrap();
    let n = c.items.len() as int;
    vstd::arithmetic::div_mod::lemma_mod_add_multiples_vanish(i, n);
    vstd::arithmetic::div_mod::lemma_small_mod(i as nat, n as nat);
}

/// One move forward and then one move back comes back to the selected item,
/// and so does one move back and then one move forward.
pub proof fn lemma_advance_retreat<T>(c: Cursor<T>)
    requires
        c.wf(),
        c.selected is Some,
    ensures
        c.advance(1).retreat() == c,
        c.retreat().advance(1) == c,
{
    let i = c.selected.unwrap();
    let n = c.items.len() as int;
    if i + 1 < n {
        vstd::arithmetic::div_mod::lemma_small_mod((i + 1) as nat, n as nat);
    } else {
        vstd::arithmetic::div_mod::lemma_mod_self_0(n);
    }
    if i == 0 {
        vstd::arithmetic::div_mod::lemma_mod_self_0(n);
    } else {
        vstd::arithmetic::div_mod::lemma_small_mod(i as nat, n as nat);
    }
}

/// Taking out the selected item leaves nothing selected and the list one
/// item shorter: the items before it stay in place, those after it move one
/// place down.
pub proof fn lemma_without_selected<T>(c: Cursor<T>)
    requires
        c.wf(),
        c.selected is Some,
    ensures
        c.without_selected().selected_item() is None,
        c.without_selected().wf(),
        c.without_selected().items.len() == c.items.len() - 1,
        forall|j: int|
            0 <= j < c.selected.unwrap() ==> c.without_selected().items[j] == c.items[j],
        forall|j: int|
            c.selected.unwrap() <= j < c.items.len() - 1 ==> c.without_selected().items[j]
                == c.items[j + 1],
{
}

/// With nothing selected there is nothing to take out.
pub proof fn lemma_without_selected_none<T>(c: Cursor<T>)
    requires
        c.selected is None,
    ensures
        c.without_selected() == c,
{
}


/// `(a + b) mod m`, computed where `a + b` itself may not fit.
fn add_mod(a: usize, b: usize, m: usize) -> (r: usize)
    requires
        m > 0,
    ensures
        r == (a + b) % (m as int),
{
    let sum: u128 = a as u128 + b as u128;
    (sum % (m as u128)) as usize
}

/// Items in order, and the state of the widget that shows them, which holds
/// the selection.
#[derive(Debug)]
pub struct StatefulList<T> {
    pub state: ListState,
    pub items: Vec<T>,
}

impl<T> View for StatefulList<T> {
    type V = Cursor<T>;

    open spec fn view(&self) -> Cursor<T> {
        Cursor {
            items: self.items@,
            selected: match selected_in(self.state) {
                Some(i) => Some(i as int),
                None => None,
            },
        }
    }
}

impl<T: Clone> StatefulList<T> {
    /// A selected index, where there is one, names an item.
    pub open spec fn wf(&self) -> bool {
        self@.wf()
    }

    /// A list over `items`, in their order, with nothing selected.
    pub fn new(items: Vec<T>) -> (list: StatefulList<T>)
        ensures
            list.items == items,
            list@.selected is None,
            list.wf(),
    {
        StatefulList { state: ListState::default(), items }
    }

    /// Moves the selection `increment` places forward, past the last item on
    /// to the first.
    pub fn next(&mut self, increment: usize)
        ensures
            final(self).items == old(self).items,
            final(self)@ == old(self)@.advance(increment as int),
            old(self).items@.len() > 0 ==> final(self).wf(),
    {
        let len: usize = self.items.len();
        if len == 0 {
            return ;
        }
        let i: usize = match self.state.selected() {
            Some(i) => add_mod(i, increment, len),
            None => 0,
        };
        self.state.select(Some(i));
    }

    /// Moves the selection one place back, from the first item on to the
    /// last.
    pub fn previous(&mut self)
        ensures
            final(self).items == old(self).items,
            final(self)@ == old(self)@.retreat(),
            old(self).wf() ==> final(self).wf(),
    {
        let len: usize = self.items.len();
        if len == 0 {
            return ;
        }
        let i: usize = match self.state.selected() {
            Some(i) => {
                if i == 0 {
                    len - 1
                } else {
                    i - 1
                }
            },
            None => 0,
        };
        self.state.select(Some(i));
    }

    /// Leaves nothing selected.
    pub fn unselect(&mut self)
        ensures
            final(self).items == old(self).items,
            final(self)@ == old(self)@.unselected(),
            final(self).wf(),
    {
        self.state.select(None);
    }

    /// A copy of the selected item, if there is one. The list stays as it
    /// is.
    pub fn get_selected(&mut self) -> (item: Option<T>)
        requires
            old(self).wf(),
        ensures
            *final(self) == *old(self),
            item is Some <==> old(self)@.selected is Some,
            item matches Some(copy) ==> cloned(old(self)@.selected_item().unwrap(), copy),
    {
        match self.state.selected() {
            Some(index) => Some(self.items[index].clone()),
            _ => None,
        }
    }

    /// Takes the selected item out of the list and leaves nothing selected.
    /// With nothing selected the list stays as it is.
    pub fn remove(&mut self)
        requires
            old(self).wf(),
        ensures
            final(self)@ == old(self)@.without_selected(),
            old(self)@.selected is None ==> *final(self) == *old(self),
            final(self).wf(),
    {
        if self.items.is_empty() {
            return ;
        }
        let Some(i) = self.state.selected() else {
            return ;
        };

        self.items.remove(i);
        self.state.select(None);
    }
}

} // verus!
