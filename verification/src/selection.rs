use vstd::prelude::*;

verus! {

/// Which inventory the browser shows: the mounted partitions, or the
/// entries of the current working directory.
#[derive(Clone, Copy, PartialEq, Eq, Structural, Debug)]
pub enum Mode {
    Partitions,
    Files,
}

/// A key press, reduced to the inputs the browser reacts to.
#[derive(Clone, Copy, PartialEq, Eq, Structural, Debug)]
pub enum Key {
    Quit,
    Up,
    Down,
    Other,
}

/// The browser state: the list of labels built once at startup, the index
/// of the highlighted label, and the mode chosen on the command line.
pub struct App {
    pub items: Vec<String>,
    pub index: Option<usize>,
    pub mode: Mode,
}

/// The index one step forward in a cyclic list of length `len`, wrapping
/// to the start past the last entry.
pub open spec fn next_index(len: nat, i: nat) -> nat {
    if i + 1 >= len {
        0
    } else {
        i + 1
    }
}

/// The index one step backward in a cyclic list of length `len`, wrapping
/// to the end at the first entry.
pub open spec fn prev_index(len: nat, i: nat) -> nat {
    if i == 0 {
        (len - 1) as nat
    } else {
        (i - 1) as nat
    }
}

/// The index after `k` forward steps in a cyclic list of length `len`,
/// starting from `i`.
pub open spec fn next_index_iter(len: nat, i: nat, k: nat) -> nat
    decreases k,
{
    if k == 0 {
        i
    } else {
        next_index(len, next_index_iter(len, i, (k - 1) as nat))
    }
}

proof fn lemma_next_index_iter_closed(len: nat, i: nat, k: nat)
    requires
        i < len,
        k <= len,
    ensures
        next_index_iter(len, i, k) == if i + k < len {
            i + k
        } else {
            (i + k - len) as nat
        },
    decreases k,
{
    if k > 0 {
        lemma_next_index_iter_closed(len, i, (k - 1) as nat);
    }
}

/// Stepping forward once for each entry of a non-empty list returns the
/// selection to where it started.
pub proof fn lemma_next_full_cycle(len: nat, i: nat)
    requires
        0 < len,
        i < len,
    ensures
        next_index_iter(len, i, len) == i,
{
    lemma_next_index_iter_closed(len, i, len);
}

/// On a non-empty list, one step back undoes one step forward, and one
/// step forward undoes one step back.
pub proof fn lemma_next_prev_identity(len: nat, i: nat)
    requires
        0 < len,
        i < len,
    ensures
        prev_index(len, next_index(len, i)) == i,
        next_index(len, prev_index(len, i)) == i,
{
}

impl App {
    /// The index is set and in bounds exactly when the list is non-empty.
    pub open spec fn wf(self) -> bool {
        if self.items@.len() == 0 {
            self.index is None
        } else {
            self.index is Some && (self.index->0 as nat) < self.items@.len()
        }
    }

    /// Starts at the first label, or with nothing selected when the list
    /// is empty.
    pub fn new(items: Vec<String>, mode: Mode) -> (app: App)
        ensures
            app.wf(),
            app.items == items,
            app.mode == mode,
            items@.len() > 0 ==> app.index == Some(0usize),
            items@.len() == 0 ==> app.index is None,
    {
        let index: Option<usize> = if items.len() > 0 {
            Some(0)
        } else {
            None
        };
        App { items, index, mode }
    }

    /// Whether the state is well formed; always true for a state built by
    /// `new` and mutated only through this type's methods.
    pub fn check(&self) -> (r: bool)
        ensures
            r == self.wf(),
    {
        match self.index {
            Some(i) => self.items.len() > 0 && i < self.items.len(),
            None => self.items.len() == 0,
        }
    }

    /// Moves the selection one entry down, wrapping to the top; does
    /// nothing on an empty list.
    pub fn next(&mut self)
        requires
            old(self).wf(),
        ensures
            final(self).wf(),
            final(self).items == old(self).items,
            final(self).mode == old(self).mode,
            old(self).items@.len() == 0 ==> final(self).index is None,
            old(self).items@.len() > 0 ==> final(self).index == Some(
                next_index(old(self).items@.len(), old(self).index->0 as nat) as usize,
            ),
    {
        let len = self.items.len();
        if len > 0 {
            let i = match self.index {
                Some(i) => i,
                None => 0,
            };
            let ni: usize = if i + 1 >= len {
                0
            } else {
                i + 1
            };
            self.index = Some(ni);
        }
    }

    /// Moves the selection one entry up, wrapping to the bottom; does
    /// nothing on an empty list.
    pub fn previous(&mut self)
        requires
            old(self).wf(),
        ensures
            final(self).wf(),
            final(self).items == old(self).items,
            final(self).mode == old(self).mode,
            old(self).items@.len() == 0 ==> final(self).index is None,
            old(self).items@.len() > 0 ==> final(self).index == Some(
                prev_index(old(self).items@.len(), old(self).index->0 as nat) as usize,
            ),
    {
        let len = self.items.len();
        if len > 0 {
            let i = match self.index {
                Some(i) => i,
                None => 0,
            };
            let ni: usize = if i == 0 {
                len - 1
            } else {
                i - 1
            };
            self.index = Some(ni);
        }
    }

    /// Dispatches one key press: arrows move the selection, the quit key
    /// reports that the session is over, anything else is ignored.
    pub fn handle_key(&mut self, key: Key) -> (quit: bool)
        requires
            old(self).wf(),
        ensures
            final(self).wf(),
            final(self).items == old(self).items,
            final(self).mode == old(self).mode,
            quit == (key is Quit),
            old(self).items@.len() == 0 ==> final(self).index is None,
            old(self).items@.len() > 0 ==> final(self).index == Some(
                match key {
                    Key::Up => prev_index(old(self).items@.len(), old(self).index->0 as nat) as usize,
                    Key::Down => next_index(old(self).items@.len(), old(self).index->0 as nat) as usize,
                    _ => old(self).index->0,
                },
            ),
    {
        match key {
            Key::Quit => true,
            Key::Up => {
                self.previous();
                false
            },
            Key::Down => {
                self.next();
                false
            },
            Key::Other => false,
        }
    }

    /// The currently highlighted label, if any.
    pub fn selected(&self) -> (r: Option<&String>)
        requires
            self.wf(),
        ensures
            self.items@.len() == 0 ==> r is None,
            self.items@.len() > 0 ==> r is Some && *(r->0) == self.items@[self.index->0 as int],
    {
        match self.index {
            Some(i) => Some(&self.items[i]),
            None => None,
        }
    }
}

} // verus!
