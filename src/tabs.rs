use vstd::prelude::*;

verus! {

/// Weak address of a tab: the window it lives in and its index there.
#[derive(Clone, Copy, Debug, PartialEq, Eq, Structural)]
pub struct TabHandle {
    pub window_id: u64,
    pub tab_id: usize,
}

/// One tab: its handle, the last title its terminal reported, and the
/// identifier of the PTY I/O thread that serves it.
#[derive(Debug)]
pub struct TermTab {
    pub handle: TabHandle,
    pub title: String,
    pub pty: u64,
}

/// What a tab carries across reorders: its title and its PTY.
pub open spec fn tab_content(t: TermTab) -> (Seq<char>, u64) {
    (t.title@, t.pty)
}

/// The contents of a sequence of tabs, in order.
pub open spec fn contents(tabs: Seq<TermTab>) -> Seq<(Seq<char>, u64)> {
    tabs.map_values(|t: TermTab| tab_content(t))
}

/// Every tab's handle names the window and the tab's own index.
pub open spec fn handles_dense(tabs: Seq<TermTab>, window_id: u64) -> bool {
    forall|i: int|
        0 <= i < tabs.len() ==> #[trigger] tabs[i].handle == (TabHandle {
            window_id,
            tab_id: i as usize,
        })
}

/// Where the active index goes when the tab at `closed` is removed.
pub open spec fn active_after_close(active: int, closed: int, len_after: int) -> int {
    if closed < active {
        active - 1
    } else if active >= len_after && len_after > 0 {
        len_after - 1
    } else {
        active
    }
}

/// Where the tab at index `i` goes when the tab at `from` is moved to `to`.
pub open spec fn moved_pos(from: int, to: int, i: int) -> int {
    if i == from {
        to
    } else if from < i && i <= to {
        i - 1
    } else if to <= i && i < from {
        i + 1
    } else {
        i
    }
}

/// The ordered tabs of one window, with the index of the active one.
#[derive(Debug)]
pub struct TermTabCollection {
    window_id: u64,
    active_tab: usize,
    tabs: Vec<TermTab>,
}

impl View for TermTabCollection {
    type V = Seq<TermTab>;

    closed spec fn view(&self) -> Seq<TermTab> {
        self.tabs@
    }
}

impl TermTabCollection {
    /// The window that owns the collection.
    pub closed spec fn spec_window_id(&self) -> u64 {
        self.window_id
    }

    /// The index of the active tab.
    pub closed spec fn spec_active(&self) -> int {
        self.active_tab as int
    }

    /// Handles are dense and the active index points at a tab (or is zero
    /// when there is none).
    pub open spec fn wf(&self) -> bool {
        &&& handles_dense(self@, self.spec_window_id())
        &&& (self@.len() > 0 ==> 0 <= self.spec_active() < self@.len())
        &&& (self@.len() == 0 ==> self.spec_active() == 0)
    }

    /// An empty collection for the given window.
    pub fn new(window_id: u64) -> (r: Self)
        ensures
            r.wf(),
            r@.len() == 0,
            r.spec_window_id() == window_id,
    {
        TermTabCollection { window_id, active_tab: 0, tabs: Vec::new() }
    }

    pub fn window_id(&self) -> (r: u64)
        ensures
            r == self.spec_window_id(),
    {
        self.window_id
    }

    pub fn active_index(&self) -> (r: usize)
        ensures
            r == self.spec_active(),
    {
        self.active_tab
    }

    pub fn is_empty(&self) -> (r: bool)
        ensures
            r == (self@.len() == 0),
    {
        self.tabs.len() == 0
    }

    pub fn tab_count(&self) -> (r: usize)
        ensures
            r == self@.len(),
    {
        self.tabs.len()
    }

    /// The tab at `tab_id`.
    pub fn tab(&self, tab_id: usize) -> (r: &TermTab)
        requires
            tab_id < self@.len(),
        ensures
            *r == self@[tab_id as int],
    {
        &self.tabs[tab_id]
    }

    /// The active tab, if there is any.
    pub fn active_tab(&self) -> (r: Option<&TermTab>)
        requires
            self.wf(),
        ensures
            self@.len() == 0 ==> r.is_none(),
            self@.len() > 0 ==> r == Some(&self@[self.spec_active()]),
    {
        if self.active_tab < self.tabs.len() {
            Some(&self.tabs[self.active_tab])
        } else {
            None
        }
    }

    /// The active tab of a collection that has one.
    pub fn get_active_tab(&self) -> (r: &TermTab)
        requires
            self.wf(),
            self@.len() > 0,
        ensures
            *r == self@[self.spec_active()],
    {
        &self.tabs[self.active_tab]
    }

    /// Rewrites every handle from the tab's index.
    fn renumber(&mut self)
        ensures
            final(self).window_id == old(self).window_id,
            final(self).active_tab == old(self).active_tab,
            final(self).tabs@.len() == old(self).tabs@.len(),
            contents(final(self).tabs@) == contents(old(self).tabs@),
            handles_dense(final(self).tabs@, final(self).window_id),
    {
        let n = self.tabs.len();
        let mut i: usize = 0;
        while i < n
            invariant
                n == self.tabs@.len(),
                0 <= i <= n,
                self.window_id == old(self).window_id,
                self.active_tab == old(self).active_tab,
                self.tabs@.len() == old(self).tabs@.len(),
                forall|j: int|
                    0 <= j < n ==> tab_content(#[trigger] self.tabs@[j]) == tab_content(
                        old(self).tabs@[j],
                    ),
                forall|j: int|
                    0 <= j < i ==> #[trigger] self.tabs@[j].handle == (TabHandle {
                        window_id: self.window_id,
                        tab_id: j as usize,
                    }),
            decreases n - i,
        {
            let window_id = self.window_id;
            self.tabs[i].handle = TabHandle { window_id, tab_id: i };
            i = i + 1;
        }
        assert(contents(self.tabs@) =~= contents(old(self).tabs@));
    }

    /// Appends a tab served by the PTY thread `pty` and returns its index.
    /// The active tab does not change.
    pub fn add_tab(&mut self, pty: u64) -> (r: usize)
        requires
            old(self).wf(),
            old(self)@.len() < usize::MAX,
        ensures
            final(self).wf(),
            r == old(self)@.len(),
            final(self)@.len() == old(self)@.len() + 1,
            final(self)@.drop_last() == old(self)@,
            final(self)@[r as int].title@ == Seq::<char>::empty(),
            final(self)@[r as int].pty == pty,
            final(self).spec_window_id() == old(self).spec_window_id(),
            final(self).spec_active() == old(self).spec_active(),
            contents(final(self)@) == contents(old(self)@).push((Seq::<char>::empty(), pty)),
    {
        let tab_id = self.tabs.len();
        let handle = TabHandle { window_id: self.window_id, tab_id };
        self.tabs.push(TermTab { handle, title: String::new(), pty });
        assert(self.tabs@.drop_last() =~= old(self).tabs@);
        assert(contents(self.tabs@) =~= contents(old(self).tabs@).push((Seq::<char>::empty(), pty)));
        tab_id
    }

    /// Makes `tab_id` the active tab; nothing happens when it is out of range.
    pub fn activate_tab(&mut self, tab_id: usize)
        requires
            old(self).wf(),
        ensures
            final(self).wf(),
            final(self)@ == old(self)@,
            final(self).spec_window_id() == old(self).spec_window_id(),
            final(self).spec_active() == if tab_id < old(self)@.len() {
                tab_id as int
            } else {
                old(self).spec_active()
            },
    {
        if tab_id < self.tabs.len() {
            self.active_tab = tab_id;
        }
    }

    /// Replaces the title of `tab_id`; nothing happens when it is out of range.
    pub fn set_title(&mut self, tab_id: usize, title: String)
        requires
            old(self).wf(),
        ensures
            final(self).wf(),
            final(self).spec_window_id() == old(self).spec_window_id(),
            final(self).spec_active() == old(self).spec_active(),
            final(self)@.len() == old(self)@.len(),
            contents(final(self)@) == if tab_id < old(self)@.len() {
                contents(old(self)@).update(tab_id as int, (title@, old(self)@[tab_id as int].pty))
            } else {
                contents(old(self)@)
            },
    {
        if tab_id < self.tabs.len() {
            self.tabs[tab_id].title = title;
            assert(contents(self.tabs@) =~= contents(old(self).tabs@).update(
                tab_id as int,
                (title@, old(self).tabs@[tab_id as int].pty),
            ));
        }
    }

    /// Moves the tab at `from` to index `to`, keeping the order of the others
    /// and renumbering every handle. The active index follows the tab that
    /// was active. Nothing happens when either index is out of range.
    pub fn move_tab(&mut self, from: usize, to: usize)
        requires
            old(self).wf(),
        ensures
            final(self).wf(),
            final(self).spec_window_id() == old(self).spec_window_id(),
            final(self)@.len() == old(self)@.len(),
            from < old(self)@.len() && to < old(self)@.len() ==> {
                &&& contents(final(self)@) == contents(old(self)@).remove(from as int).insert(
                    to as int,
                    contents(old(self)@)[from as int],
                )
                &&& forall|i: int|
                    0 <= i < old(self)@.len() ==> tab_content(
                        final(self)@[#[trigger] moved_pos(from as int, to as int, i)],
                    ) == tab_content(old(self)@[i])
                &&& final(self).spec_active() == moved_pos(
                    from as int,
                    to as int,
                    old(self).spec_active(),
                )
            },
            !(from < old(self)@.len() && to < old(self)@.len()) ==> *final(self) == *old(self),
    {
        if from < self.tabs.len() && to < self.tabs.len() {
            let ghost c0 = contents(self.tabs@);
            let tab = self.tabs.remove(from);
            self.tabs.insert(to, tab);
            assert(contents(self.tabs@) =~= c0.remove(from as int).insert(to as int, c0[from as int]));
            let active = self.active_tab;
            if active == from {
                self.active_tab = to;
            } else if from < active && active <= to {
                self.active_tab = active - 1;
            } else if to <= active && active < from {
                self.active_tab = active + 1;
            }
            self.renumber();
            proof {
                let n = self.tabs@;
                let o = old(self).tabs@;
                lemma_move_keeps_order(c0, from as int, to as int);
                assert forall|i: int| 0 <= i < o.len() implies tab_content(
                    n[#[trigger] moved_pos(from as int, to as int, i)],
                ) == tab_content(o[i]) by {
                    let m = moved_pos(from as int, to as int, i);
                    assert(contents(n)[m] == c0.remove(from as int).insert(to as int, c0[from as int])[m]);
                    assert(c0[i] == tab_content(o[i]));
                }
            }
        }
    }

    /// Removes the tab at `tab_id` and renumbers the rest. Returns the PTY
    /// thread of the removed tab, which the caller shuts down and joins; the
    /// active index keeps pointing at the same tab where that tab remains.
    /// Nothing happens, and `None` comes back, when `tab_id` is out of range.
    pub fn close_tab(&mut self, tab_id: usize) -> (r: Option<u64>)
        requires
            old(self).wf(),
        ensures
            final(self).wf(),
            final(self).spec_window_id() == old(self).spec_window_id(),
            tab_id < old(self)@.len() ==> {
                &&& r == Some(old(self)@[tab_id as int].pty)
                &&& final(self)@.len() == old(self)@.len() - 1
                &&& contents(final(self)@) == contents(old(self)@).remove(tab_id as int)
                &&& forall|j: int|
                    0 <= j < tab_id ==> tab_content(#[trigger] final(self)@[j]) == tab_content(
                        old(self)@[j],
                    )
                &&& forall|j: int|
                    tab_id <= j < final(self)@.len() ==> tab_content(#[trigger] final(self)@[j])
                        == tab_content(old(self)@[j + 1])
                &&& final(self).spec_active() == active_after_close(
                    old(self).spec_active(),
                    tab_id as int,
                    final(self)@.len() as int,
                )
            },
            tab_id >= old(self)@.len() ==> r.is_none() && *final(self) == *old(self),
    {
        if tab_id >= self.tabs.len() {
            return None;
        }
        let ghost c0 = contents(self.tabs@);
        let removed = self.tabs.remove(tab_id);
        assert(contents(self.tabs@) =~= c0.remove(tab_id as int));
        let len = self.tabs.len();
        if tab_id < self.active_tab {
            self.active_tab = self.active_tab - 1;
        } else if self.active_tab >= len && len > 0 {
            self.active_tab = len - 1;
        }
        self.renumber();
        proof {
            let n = self.tabs@;
            let o = old(self).tabs@;
            assert forall|j: int| 0 <= j < n.len() implies tab_content(#[trigger] n[j]) == tab_content(
                o.remove(tab_id as int)[j],
            ) by {
                assert(contents(n)[j] == contents(o.remove(tab_id as int))[j]);
            }
            assert forall|j: int| 0 <= j < tab_id implies tab_content(#[trigger] n[j]) == tab_content(o[j]) by {
                assert(o.remove(tab_id as int)[j] == o[j]);
            }
            assert forall|j: int| tab_id <= j < n.len() implies tab_content(#[trigger] n[j]) == tab_content(o[j + 1]) by {
                assert(o.remove(tab_id as int)[j] == o[j + 1]);
            }
        }
        Some(removed.pty)
    }

    /// Closes the active tab.
    pub fn close_current_tab(&mut self) -> (r: Option<u64>)
        requires
            old(self).wf(),
        ensures
            final(self).wf(),
            final(self).spec_window_id() == old(self).spec_window_id(),
            old(self)@.len() > 0 ==> {
                &&& r == Some(old(self)@[old(self).spec_active()].pty)
                &&& contents(final(self)@) == contents(old(self)@).remove(old(self).spec_active())
                &&& final(self).spec_active() == active_after_close(
                    old(self).spec_active(),
                    old(self).spec_active(),
                    final(self)@.len() as int,
                )
            },
            old(self)@.len() == 0 ==> r.is_none() && *final(self) == *old(self),
    {
        let active = self.active_tab;
        self.close_tab(active)
    }

    /// Removes every tab and returns their PTY threads, in tab order.
    pub fn close_all_tabs(&mut self) -> (r: Vec<u64>)
        requires
            old(self).wf(),
        ensures
            final(self).wf(),
            final(self)@.len() == 0,
            final(self).spec_window_id() == old(self).spec_window_id(),
            r@ == old(self)@.map_values(|t: TermTab| t.pty),
    {
        let mut ptys: Vec<u64> = Vec::new();
        let mut i: usize = 0;
        let n = self.tabs.len();
        while i < n
            invariant
                n == self.tabs@.len(),
                0 <= i <= n,
                ptys@ == self.tabs@.subrange(0, i as int).map_values(|t: TermTab| t.pty),
            decreases n - i,
        {
            ptys.push(self.tabs[i].pty);
            assert(self.tabs@.subrange(0, i + 1).map_values(|t: TermTab| t.pty) =~= self.tabs@.subrange(0, i as int).map_values(|t: TermTab| t.pty).push(self.tabs@[i as int].pty));
            i = i + 1;
        }
        assert(self.tabs@.subrange(0, n as int) =~= self.tabs@);
        self.tabs.clear();
        self.active_tab = 0;
        ptys
    }
}

/// Moving the element at `from` to `to` puts it at `to`, sends every other
/// element `i` to `moved_pos(from, to, i)`, and keeps the order of the
/// others.
pub proof fn lemma_move_keeps_order<T>(c: Seq<T>, from: int, to: int)
    requires
        0 <= from < c.len(),
        0 <= to < c.len(),
    ensures
        ({
            let r = c.remove(from).insert(to, c[from]);
            &&& r.len() == c.len()
            &&& r[to] == c[from]
            &&& forall|i: int| 0 <= i < c.len() ==> r[#[trigger] moved_pos(from, to, i)] == c[i]
            &&& forall|i: int, j: int|
                0 <= i < j < c.len() && i != from && j != from ==> #[trigger] moved_pos(from, to, i)
                    < #[trigger] moved_pos(from, to, j)
        }),
{
    let r = c.remove(from).insert(to, c[from]);
    assert forall|i: int| 0 <= i < c.len() implies r[#[trigger] moved_pos(from, to, i)] == c[i] by {
        if i != from {
            let k = if i < from { i } else { i - 1 };
            assert(c.remove(from)[k] == c[i]);
        }
    }
}

} // verus!
