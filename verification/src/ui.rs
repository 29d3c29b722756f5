use vstd::prelude::*;

verus! {

/// The selection that `next` moves to: one step forward, wrapping from the
/// last item to the first; with nothing selected, the first item.
pub open spec fn next_selection(selected: Option<usize>, len: nat) -> Option<usize> {
    match selected {
        Some(i) => if i >= len - 1 { Some(0usize) } else { Some((i + 1) as usize) },
        None => Some(0usize),
    }
}

/// The selection that `previous` moves to: one step back, wrapping from the
/// first item to the last; with nothing selected, the first item.
pub open spec fn previous_selection(selected: Option<usize>, len: nat) -> Option<usize> {
    match selected {
        Some(i) => if i == 0 { Some((len - 1) as usize) } else { Some((i - 1) as usize) },
        None => Some(0usize),
    }
}

/// The selection after `n` calls of `next`.
pub open spec fn next_selection_n(selected: Option<usize>, len: nat, n: nat) -> Option<usize>
    decreases n,
{
    if n == 0 {
        selected
    } else {
        next_selection(next_selection_n(selected, len, (n - 1) as nat), len)
    }
}

/// A key as the picker sees it.
pub enum Key {
    Char(char),
    Up,
    Down,
    Enter,
    Other,
}

/// What the picker does after a key: keep reading keys, or stop.
#[derive(PartialEq, Eq, Structural, Clone, Copy, Debug)]
pub enum Step {
    Continue,
    Finish,
}

/// A list of items with an optional cursor, as shown by the picker.
pub struct StatefulList<T> {
    selected: Option<usize>,
    items: Vec<T>,
}

impl<T> StatefulList<T> {
    /// The cursor points at an item, or at position 0 of an empty list
    /// (where `next` leaves it when there is nothing to select).
    #[verifier::type_invariant]
    spec fn cursor_in_range(&self) -> bool {
        match self.selected {
            Some(i) => i < self.items.len() || i == 0,
            None => true,
        }
    }

    pub closed spec fn spec_selected(&self) -> Option<usize> {
        self.selected
    }

    pub closed spec fn spec_items(&self) -> Seq<T> {
        self.items@
    }

    /// Whether `next` and `previous` can move the cursor: they cannot step
    /// through an empty list once a position is selected in it.
    pub open spec fn can_move(&self) -> bool {
        self.spec_items().len() > 0 || self.spec_selected() is None
    }

    /// The item under the cursor, if the cursor points at one.
    pub open spec fn spec_current(&self) -> Option<T> {
        match self.spec_selected() {
            Some(i) => if i < self.spec_items().len() {
                Some(self.spec_items()[i as int])
            } else {
                None
            },
            None => None,
        }
    }

    /// A list with no selection.
    pub fn with_items(items: Vec<T>) -> (r: StatefulList<T>)
        ensures
            r.spec_selected() is None,
            r.spec_items() == items@,
    {
        StatefulList { selected: None, items }
    }

    /// The position under the cursor.
    pub fn selected(&self) -> (r: Option<usize>)
        ensures
            r == self.spec_selected(),
    {
        self.selected
    }

    /// The items of the list.
    pub fn items(&self) -> (r: &Vec<T>)
        ensures
            r@ == self.spec_items(),
    {
        &self.items
    }

    /// Moves the cursor one item down, wrapping to the top.
    pub fn next(&mut self)
        requires
            old(self).can_move(),
        ensures
            final(self).spec_selected() == next_selection(
                old(self).spec_selected(),
                old(self).spec_items().len(),
            ),
            final(self).spec_items() == old(self).spec_items(),
    {
        proof {
            use_type_invariant(&*self);
        }
        let i = match self.selected {
            Some(i) => {
                if i >= self.items.len() - 1 {
                    0
                } else {
                    i + 1
                }
            },
            None => 0,
        };
        self.selected = Some(i);
    }

    /// Moves the cursor one item up, wrapping to the bottom.
    pub fn previous(&mut self)
        requires
            old(self).can_move(),
        ensures
            final(self).spec_selected() == previous_selection(
                old(self).spec_selected(),
                old(self).spec_items().len(),
            ),
            final(self).spec_items() == old(self).spec_items(),
    {
        proof {
            use_type_invariant(&*self);
        }
        let i = match self.selected {
            Some(i) => {
                if i == 0 {
                    self.items.len() - 1
                } else {
                    i - 1
                }
            },
            None => 0,
        };
        self.selected = Some(i);
    }

    /// Clears the cursor.
    pub fn unselect(&mut self)
        ensures
            final(self).spec_selected() is None,
            final(self).spec_items() == old(self).spec_items(),
    {
        self.selected = None;
    }

    /// The item under the cursor, if any.
    pub fn get_select(&self) -> (r: Option<&T>)
        ensures
            match r {
                Some(x) => self.spec_current() == Some(*x),
                None => self.spec_current() is None,
            },
    {
        match self.selected {
            Some(i) => {
                if i < self.items.len() {
                    Some(&self.items[i])
                } else {
                    None
                }
            },
            None => None,
        }
    }

    /// Reacts to one key of the picker: `q` and Enter finish, Up and Down
    /// move the cursor, anything else is ignored.
    pub fn handle_key(&mut self, key: Key) -> (r: Step)
        requires
            old(self).can_move(),
        ensures
            final(self).spec_items() == old(self).spec_items(),
            r == (match key {
                Key::Char(c) => if c == 'q' { Step::Finish } else { Step::Continue },
                Key::Enter => Step::Finish,
                _ => Step::Continue,
            }),
            final(self).spec_selected() == (match key {
                Key::Up => previous_selection(old(self).spec_selected(), old(self).spec_items().len()),
                Key::Down => next_selection(old(self).spec_selected(), old(self).spec_items().len()),
                _ => old(self).spec_selected(),
            }),
    {
        match key {
            Key::Char(c) => {
                if c == 'q' {
                    Step::Finish
                } else {
                    Step::Continue
                }
            },
            Key::Up => {
                self.previous();
                Step::Continue
            },
            Key::Down => {
                self.next();
                Step::Continue
            },
            Key::Enter => Step::Finish,
            Key::Other => Step::Continue,
        }
    }
}

/// On a non-empty list, `previous` undoes `next`.
pub proof fn lemma_previous_undoes_next(selected: usize, len: nat)
    requires
        selected < len,
        len <= usize::MAX,
    ensures
        previous_selection(next_selection(Some(selected), len), len) == Some(selected),
{
}

/// On a non-empty list, `next` undoes `previous`.
pub proof fn lemma_next_undoes_previous(selected: usize, len: nat)
    requires
        selected < len,
        len <= usize::MAX,
    ensures
        next_selection(previous_selection(Some(selected), len), len) == Some(selected),
{
}

/// On a non-empty list, both moves keep the cursor on an item.
pub proof fn lemma_moves_stay_in_range(selected: Option<usize>, len: nat)
    requires
        len > 0,
        len <= usize::MAX,
        selected matches Some(i) ==> i < len,
    ensures
        next_selection(selected, len) matches Some(j) && j < len,
        previous_selection(selected, len) matches Some(j) && j < len,
{
}

proof fn lemma_mod_step(a: int, len: int)
    requires
        a >= 0,
        len > 0,
    ensures
        (a + 1) % len == if a % len + 1 == len { 0 } else { a % len + 1 },
{
    vstd::arithmetic::div_mod::lemma_mod_pos_bound(a, len);
    vstd::arithmetic::div_mod::lemma_add_mod_noop(a, 1, len);
    vstd::arithmetic::div_mod::lemma_mod_self_0(len);
    if len == 1 {
        assert(1int % 1 == 0);
    } else {
        vstd::arithmetic::div_mod::lemma_small_mod(1, len as nat);
        if a % len + 1 < len {
            vstd::arithmetic::div_mod::lemma_small_mod((a % len + 1) as nat, len as nat);
        }
    }
}

/// Moving down `k` times from an item lands `k` places further, counted
/// around the list.
pub proof fn lemma_next_n_position(selected: usize, len: nat, k: nat)
    requires
        selected < len,
        len <= usize::MAX,
    ensures
        next_selection_n(Some(selected), len, k) == Some(((selected + k) % (len as int)) as usize),
    decreases k,
{
    if k == 0 {
        vstd::arithmetic::div_mod::lemma_small_mod(selected as nat, len);
    } else {
        lemma_next_n_position(selected, len, (k - 1) as nat);
        let a = selected + (k - 1);
        vstd::arithmetic::div_mod::lemma_mod_pos_bound(a, len as int);
        lemma_mod_step(a, len as int);
        assert(a + 1 == selected + k);
    }
}

/// Moving down as many times as there are items returns the cursor to
/// where it started.
pub proof fn lemma_next_cycles(selected: usize, len: nat)
    requires
        selected < len,
        len <= usize::MAX,
    ensures
        next_selection_n(Some(selected), len, len) == Some(selected),
{
    lemma_next_n_position(selected, len, len);
    vstd::arithmetic::div_mod::lemma_add_mod_noop(selected as int, len as int, len as int);
    vstd::arithmetic::div_mod::lemma_mod_self_0(len as int);
    vstd::arithmetic::div_mod::lemma_small_mod(selected as nat, len);
    vstd::arithmetic::div_mod::lemma_mod_twice(selected as int, len as int);
}

} // verus!
