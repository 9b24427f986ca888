//! The engine side of the tab list: the per-tab engine state, in display
//! order, and which of them is active.
use vstd::prelude::*;

verus! {

/// `s` with the item at `from` taken out and put back in at `to`.
pub open spec fn moved<T>(s: Seq<T>, from: int, to: int) -> Seq<T> {
    s.remove(from).insert(to, s[from])
}

/// Moves the item at `from` to position `to`; with an index out of range,
/// or `from == to`, nothing changes.
pub fn move_item<T>(v: &mut Vec<T>, from: usize, to: usize)
    ensures
        (from == to || from >= old(v)@.len() || to >= old(v)@.len()) ==> final(v)@ == old(v)@,
        !(from == to || from >= old(v)@.len() || to >= old(v)@.len()) ==> final(v)@ == moved(
            old(v)@,
            from as int,
            to as int,
        ),
{
    if from == to || from >= v.len() || to >= v.len() {
        return;
    }
    let item = v.remove(from);
    v.insert(to, item);
}

/// Where the active tab is after the tab at `from` moved to `to`.
pub open spec fn active_after_move(active: int, from: int, to: int) -> int {
    if active == from {
        to
    } else if from < active && to >= active {
        active - 1
    } else if from > active && to <= active {
        active + 1
    } else {
        active
    }
}

/// The engine's tabs, in display order, and the index of the active one.
pub struct TabStrip<T> {
    tabs: Vec<T>,
    active_index: usize,
}

/// The abstract state of a tab strip.
pub struct TabStripState<T> {
    pub tabs: Seq<T>,
    pub active: int,
}

impl<T> View for TabStrip<T> {
    type V = TabStripState<T>;

    closed spec fn view(&self) -> TabStripState<T> {
        TabStripState { tabs: self.tabs@, active: self.active_index as int }
    }
}

impl<T> TabStrip<T> {
    /// An empty strip; index 0 is active.
    pub fn new() -> (strip: Self)
        ensures
            strip@.tabs.len() == 0,
            strip@.active == 0,
    {
        TabStrip { tabs: Vec::new(), active_index: 0 }
    }

    /// The number of tabs.
    pub fn len(&self) -> (n: usize)
        ensures
            n == self@.tabs.len(),
    {
        self.tabs.len()
    }

    /// The index of the active tab.
    pub fn active_index(&self) -> (i: usize)
        ensures
            i == self@.active,
    {
        self.active_index
    }

    /// All tabs, in order.
    pub fn tabs(&self) -> (tabs: &Vec<T>)
        ensures
            tabs@ == self@.tabs,
    {
        &self.tabs
    }

    /// The active tab, if the active index is in range.
    pub fn get_active_tab(&self) -> (tab: Option<&T>)
        ensures
            self@.active < self@.tabs.len() ==> tab == Some(&self@.tabs[self@.active]),
            self@.active >= self@.tabs.len() ==> tab is None,
    {
        if self.active_index < self.tabs.len() {
            Some(&self.tabs[self.active_index])
        } else {
            None
        }
    }

    /// Appends a tab; the active index is unchanged.
    pub fn push(&mut self, tab: T)
        ensures
            final(self)@.tabs == old(self)@.tabs.push(tab),
            final(self)@.active == old(self)@.active,
    {
        self.tabs.push(tab);
    }

    /// Replaces the active tab with `tab` and hands the old one back; with
    /// the active index out of range, nothing changes and `tab` comes back.
    pub fn replace_active(&mut self, tab: T) -> (previous: T)
        ensures
            old(self)@.active < old(self)@.tabs.len() ==> {
                &&& previous == old(self)@.tabs[old(self)@.active]
                &&& final(self)@.tabs == old(self)@.tabs.update(old(self)@.active, tab)
            },
            old(self)@.active >= old(self)@.tabs.len() ==> {
                &&& previous == tab
                &&& final(self)@.tabs == old(self)@.tabs
            },
            final(self)@.active == old(self)@.active,
    {
        if self.active_index < self.tabs.len() {
            let previous = self.tabs.remove(self.active_index);
            self.tabs.insert(self.active_index, tab);
            assert(self.tabs@ =~= old(self)@.tabs.update(old(self)@.active, tab));
            previous
        } else {
            tab
        }
    }

    /// Closes the tab at `index` (no effect when out of range). If the
    /// active index then points past the end, the last tab becomes active.
    pub fn close_tab(&mut self, index: usize)
        ensures
            index >= old(self)@.tabs.len() ==> final(self)@ == old(self)@,
            index < old(self)@.tabs.len() ==> {
                &&& final(self)@.tabs == old(self)@.tabs.remove(index as int)
                &&& final(self)@.active == if old(self)@.active >= final(self)@.tabs.len()
                    && final(self)@.tabs.len() > 0 {
                    final(self)@.tabs.len() - 1
                } else {
                    old(self)@.active
                }
            },
    {
        if index >= self.tabs.len() {
            return;
        }
        self.tabs.remove(index);
        if self.active_index >= self.tabs.len() && self.tabs.len() > 0 {
            self.active_index = self.tabs.len() - 1;
        }
    }

    /// Makes the tab at `index` active (no effect when out of range).
    pub fn set_active_tab(&mut self, index: usize)
        ensures
            final(self)@.tabs == old(self)@.tabs,
            final(self)@.active == if index < old(self)@.tabs.len() {
                index as int
            } else {
                old(self)@.active
            },
    {
        if index < self.tabs.len() {
            self.active_index = index;
        }
    }

    /// Moves the tab at `from` to `to`, keeping the same tab active.
    pub fn move_tab(&mut self, from: usize, to: usize)
        ensures
            (from == to || from >= old(self)@.tabs.len() || to >= old(self)@.tabs.len())
                ==> final(self)@ == old(self)@,
            !(from == to || from >= old(self)@.tabs.len() || to >= old(self)@.tabs.len()) ==> {
                &&& final(self)@.tabs == moved(old(self)@.tabs, from as int, to as int)
                &&& final(self)@.active == active_after_move(old(self)@.active, from as int, to as int)
            },
    {
        if from >= self.tabs.len() || to >= self.tabs.len() || from == to {
            return;
        }
        move_item(&mut self.tabs, from, to);
        if self.active_index == from {
            self.active_index = to;
        } else if from < self.active_index && to >= self.active_index {
            self.active_index = self.active_index - 1;
        } else if from > self.active_index && to <= self.active_index {
            self.active_index = self.active_index + 1;
        }
    }
}

/// Moving a tab keeps the same tab active: the tab at the new active index
/// is the one that was active before the move.
pub proof fn lemma_move_keeps_active_tab<T>(tabs: Seq<T>, active: int, from: int, to: int)
    requires
        0 <= active < tabs.len(),
        0 <= from < tabs.len(),
        0 <= to < tabs.len(),
    ensures
        0 <= active_after_move(active, from, to) < tabs.len(),
        moved(tabs, from, to)[active_after_move(active, from, to)] == tabs[active],
{
    let r = tabs.remove(from);
    let m = r.insert(to, tabs[from]);
    let a = active_after_move(active, from, to);
    if active == from {
    } else if from < active {
        // after removal the active tab sits at active - 1
        assert(r[active - 1] == tabs[active]);
        if to >= active {
            assert(m[active - 1] == r[active - 1]);
        } else {
            assert(m[active] == r[active - 1]);
        }
    } else {
        assert(r[active] == tabs[active]);
        if to <= active {
            assert(m[active + 1] == r[active]);
        } else {
            assert(m[active] == r[active]);
        }
    }
}

/// Moving a tab only reorders: every tab is still there, once per earlier
/// occurrence, and the length is unchanged.
pub proof fn lemma_move_is_permutation<T>(tabs: Seq<T>, from: int, to: int)
    requires
        0 <= from < tabs.len(),
        0 <= to < tabs.len(),
    ensures
        moved(tabs, from, to).len() == tabs.len(),
        moved(tabs, from, to).to_multiset() == tabs.to_multiset(),
{
    broadcast use vstd::seq_lib::group_to_multiset_ensures;
    broadcast use vstd::multiset::group_multiset_axioms;

    let r = tabs.remove(from);
    assert(r.to_multiset() =~= tabs.to_multiset().remove(tabs[from]));
    assert(r.insert(to, tabs[from]).to_multiset() == r.to_multiset().insert(tabs[from]));
    assert(tabs.to_multiset().contains(tabs[from]));
    assert(r.to_multiset().insert(tabs[from]) =~= tabs.to_multiset());
}

} // verus!
