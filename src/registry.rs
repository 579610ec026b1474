use vstd::prelude::*;
use crate::commands::MultiWindowCommandQueue;
use crate::geometry::BarGeometry;
use crate::tab_bar::{TabBarEvent, TabBarOutcome, TabBarProcessor, bar_event_done};
use crate::tabs::{TermTab, TermTabCollection, contents, active_after_close, moved_pos};

verus! {

/// Work that the registry leaves to the embedding program, in the order it
/// must be done.
#[derive(Clone, Copy, Debug, PartialEq, Eq, Structural)]
pub enum Effect {
    /// Create the native window, its GPU context and its display for
    /// `window_id`. Where that fails, the program calls `abandon_window` with
    /// `previous_active`, the window that had the focus before, and drops the
    /// remaining jobs for `window_id`.
    OpenWindow { window_id: u64, previous_active: Option<u64> },
    /// Start the PTY I/O thread `pty` for the new tab `tab_id` of
    /// `window_id`. Where that fails for a tab added to an open window, the
    /// program calls `abandon_tab` with `previous_active`, the index of the
    /// tab that was active before.
    SpawnPty { window_id: u64, pty: u64, tab_id: usize, previous_active: usize },
    /// Tell the user, in the window's message bar, that a new tab could not
    /// be started.
    ReportSpawnFailure(u64),
    /// Send `Shutdown` to the PTY I/O thread and join it before dropping the
    /// tab's terminal.
    ShutdownAndJoin(u64),
    /// Drop the native window and its display.
    DestroyWindow(u64),
    /// Resize the active tab's terminal and PTY to the window.
    UpdateSize(u64),
    /// Redraw the window.
    RequestRedraw(u64),
}

/// One window: its identifier, its tabs and its tab-bar input state.
#[derive(Debug)]
pub struct WindowContext {
    pub window_id: u64,
    pub term_tab_collection: TermTabCollection,
    pub tab_bar_processor: TabBarProcessor,
}

/// The identifiers of a sequence of windows, in order.
pub open spec fn ids(ws: Seq<WindowContext>) -> Seq<u64> {
    ws.map_values(|c: WindowContext| c.window_id)
}

/// No identifier occurs twice.
pub open spec fn ids_unique(ws: Seq<WindowContext>) -> bool {
    forall|i: int, j: int|
        0 <= i < ws.len() && 0 <= j < ws.len() && i != j ==> #[trigger] ws[i].window_id
            != #[trigger] ws[j].window_id
}

/// Each window holds at least one tab, every handle of which names it.
pub open spec fn windows_wf(ws: Seq<WindowContext>) -> bool {
    forall|i: int|
        0 <= i < ws.len() ==> {
            &&& (#[trigger] ws[i]).term_tab_collection.wf()
            &&& ws[i].term_tab_collection.spec_window_id() == ws[i].window_id
            &&& ws[i].term_tab_collection@.len() > 0
        }
}

/// Whether a window with identifier `id` is among `ws`.
pub open spec fn has_window(ws: Seq<WindowContext>, id: u64) -> bool {
    exists|i: int| 0 <= i < ws.len() && (#[trigger] ws[i]).window_id == id
}

impl WindowContext {
    /// The active tab of the window.
    pub fn get_active_tab(&self) -> (r: Option<&TermTab>)
        requires
            self.term_tab_collection.wf(),
        ensures
            self.term_tab_collection@.len() == 0 ==> r.is_none(),
            self.term_tab_collection@.len() > 0 ==> r == Some(
                &self.term_tab_collection@[self.term_tab_collection.spec_active()],
            ),
    {
        self.term_tab_collection.active_tab()
    }
}

/// The joins that closing every tab of a window asks for, in tab order.
pub open spec fn join_effects(tabs: Seq<TermTab>) -> Seq<Effect> {
    tabs.map_values(|t: TermTab| Effect::ShutdownAndJoin(t.pty))
}

/// Only the window `id` differs between `old_ws` and `new_ws`, and it kept
/// its identifier and its place.
pub open spec fn only_window_changed(old_ws: Seq<WindowContext>, new_ws: Seq<WindowContext>, id: u64) -> bool {
    &&& new_ws.len() == old_ws.len()
    &&& forall|i: int|
        0 <= i < old_ws.len() ==> {
            &&& (#[trigger] new_ws[i]).window_id == old_ws[i].window_id
            &&& old_ws[i].window_id != id ==> new_ws[i] == old_ws[i]
        }
}

proof fn lemma_has_window_remove(ws: Seq<WindowContext>, i: int, id: u64)
    requires
        ids_unique(ws),
        0 <= i < ws.len(),
    ensures
        has_window(ws.remove(i), id) == (has_window(ws, id) && id != ws[i].window_id),
        ids_unique(ws.remove(i)),
{
    let r = ws.remove(i);
    if has_window(r, id) {
        let j = choose|j: int| 0 <= j < r.len() && (#[trigger] r[j]).window_id == id;
        let k = if j < i { j } else { j + 1 };
        assert(ws[k] == r[j]);
    }
    if has_window(ws, id) && id != ws[i].window_id {
        let j = choose|j: int| 0 <= j < ws.len() && (#[trigger] ws[j]).window_id == id;
        let k = if j < i { j } else { j - 1 };
        assert(r[k] == ws[j]);
    }
    assert forall|a: int, b: int|
        0 <= a < r.len() && 0 <= b < r.len() && a != b implies #[trigger] r[a].window_id
            != #[trigger] r[b].window_id by {
        let a2 = if a < i { a } else { a + 1 };
        let b2 = if b < i { b } else { b + 1 };
        assert(r[a] == ws[a2] && r[b] == ws[b2]);
    }
}

proof fn lemma_has_window_update(ws: Seq<WindowContext>, i: int, c: WindowContext, id: u64)
    requires
        ids_unique(ws),
        0 <= i < ws.len(),
        c.window_id == ws[i].window_id,
    ensures
        has_window(ws.update(i, c), id) == has_window(ws, id),
        ids_unique(ws.update(i, c)),
{
    let r = ws.update(i, c);
    if has_window(r, id) {
        let j = choose|j: int| 0 <= j < r.len() && (#[trigger] r[j]).window_id == id;
        assert(ws[j].window_id == id);
    }
    if has_window(ws, id) {
        let j = choose|j: int| 0 <= j < ws.len() && (#[trigger] ws[j]).window_id == id;
        assert(r[j].window_id == id);
    }
}

proof fn lemma_windows_wf_remove(ws: Seq<WindowContext>, i: int)
    requires
        windows_wf(ws),
        0 <= i < ws.len(),
    ensures
        windows_wf(ws.remove(i)),
{
    let r = ws.remove(i);
    assert forall|j: int| 0 <= j < r.len() implies {
        &&& (#[trigger] r[j]).term_tab_collection.wf()
        &&& r[j].term_tab_collection.spec_window_id() == r[j].window_id
        &&& r[j].term_tab_collection@.len() > 0
    } by {
        let j2 = if j < i { j } else { j + 1 };
        assert(r[j] == ws[j2]);
    }
}

/// Every window, and which of them has the focus.
pub struct WindowContextTracker {
    active_window_id: Option<u64>,
    windows: Vec<WindowContext>,
    next_window_id: u64,
    next_pty_id: u64,
    closed: Ghost<Set<u64>>,
}

impl WindowContextTracker {
    /// The windows, in the order they were created.
    pub closed spec fn spec_windows(&self) -> Seq<WindowContext> {
        self.windows@
    }

    /// The focused window, if any.
    pub closed spec fn spec_active(&self) -> Option<u64> {
        self.active_window_id
    }

    /// Every identifier below this one has been handed to a window.
    pub closed spec fn spec_next_window(&self) -> u64 {
        self.next_window_id
    }

    /// The identifier the next PTY thread gets.
    pub closed spec fn spec_next_pty(&self) -> u64 {
        self.next_pty_id
    }

    /// The windows that have been closed.
    pub closed spec fn spec_closed(&self) -> Set<u64> {
        self.closed@
    }

    /// Identifiers are unique; every window is well formed and has a tab;
    /// the active window is one of them; and a window is present exactly
    /// when it was created and not closed since.
    pub open spec fn wf(&self) -> bool {
        &&& ids_unique(self.spec_windows())
        &&& windows_wf(self.spec_windows())
        &&& (self.spec_active() matches Some(a) ==> has_window(self.spec_windows(), a))
        &&& forall|id: u64| #[trigger] self.spec_closed().contains(id) ==> id < self.spec_next_window()
        &&& forall|id: u64|
            #[trigger] has_window(self.spec_windows(), id) <==> (id < self.spec_next_window()
                && !self.spec_closed().contains(id))
    }

    /// An empty registry.
    pub fn new() -> (r: Self)
        ensures
            r.wf(),
            r.spec_windows().len() == 0,
            r.spec_active().is_none(),
            r.spec_next_window() == 0,
            r.spec_next_pty() == 0,
            r.spec_closed() == Set::<u64>::empty(),
    {
        WindowContextTracker {
            active_window_id: None,
            windows: Vec::new(),
            next_window_id: 0,
            next_pty_id: 0,
            closed: Ghost(Set::empty()),
        }
    }

    pub fn is_empty(&self) -> (r: bool)
        ensures
            r == (self.spec_windows().len() == 0),
    {
        self.windows.len() == 0
    }

    pub fn window_count(&self) -> (r: usize)
        ensures
            r == self.spec_windows().len(),
    {
        self.windows.len()
    }

    pub fn has_active_window(&self) -> (r: bool)
        ensures
            r == self.spec_active().is_some(),
    {
        self.active_window_id.is_some()
    }

    pub fn active_window_id(&self) -> (r: Option<u64>)
        ensures
            r == self.spec_active(),
    {
        self.active_window_id
    }

    /// The window at position `index`, in order of creation.
    pub fn window_at(&self, index: usize) -> (r: &WindowContext)
        requires
            index < self.spec_windows().len(),
        ensures
            *r == self.spec_windows()[index as int],
    {
        &self.windows[index]
    }

    /// Every window, in order of creation.
    pub fn get_all_window_contexts(&self) -> (r: &Vec<WindowContext>)
        ensures
            r@ == self.spec_windows(),
    {
        &self.windows
    }

    /// The position of window `window_id`, if it is present.
    pub fn find(&self, window_id: u64) -> (r: Option<usize>)
        ensures
            match r {
                Some(i) => i < self.spec_windows().len() && self.spec_windows()[i as int].window_id
                    == window_id,
                None => !has_window(self.spec_windows(), window_id),
            },
    {
        let mut i: usize = 0;
        while i < self.windows.len()
            invariant
                0 <= i <= self.windows@.len(),
                forall|j: int| 0 <= j < i ==> (#[trigger] self.windows@[j]).window_id != window_id,
            decreases self.windows@.len() - i,
        {
            if self.windows[i].window_id == window_id {
                return Some(i);
            }
            i = i + 1;
        }
        None
    }

    /// The window `window_id`, if it is present.
    pub fn get_context(&self, window_id: u64) -> (r: Option<&WindowContext>)
        ensures
            match r {
                Some(c) => c.window_id == window_id && exists|i: int|
                    0 <= i < self.spec_windows().len() && self.spec_windows()[i] == *c,
                None => !has_window(self.spec_windows(), window_id),
            },
    {
        match self.find(window_id) {
            Some(i) => Some(&self.windows[i]),
            None => None,
        }
    }

    /// The focused window, if any.
    pub fn get_active_window_context(&self) -> (r: Option<&WindowContext>)
        requires
            self.wf(),
        ensures
            self.spec_active().is_none() ==> r.is_none(),
            self.spec_active() matches Some(a) ==> r matches Some(c) && c.window_id == a,
    {
        match self.active_window_id {
            Some(a) => self.get_context(a),
            None => None,
        }
    }

    /// Focuses window `window_id`; an unknown window changes nothing.
    pub fn activate_window(&mut self, window_id: u64)
        requires
            old(self).wf(),
        ensures
            final(self).wf(),
            activate_window_done(*old(self), *final(self), window_id),
    {
        if let Some(i) = self.find(window_id) {
            self.active_window_id = Some(window_id);
        }
    }

    /// Takes the focus from window `window_id` if it has it.
    pub fn deactivate_window(&mut self, window_id: u64)
        requires
            old(self).wf(),
        ensures
            final(self).wf(),
            deactivate_window_done(*old(self), *final(self), window_id),
    {
        if self.active_window_id == Some(window_id) {
            self.active_window_id = None;
        }
    }

    /// Puts `ctx` back at `i`, where it was taken from `full`, after a
    /// change that kept its identifier and left it well formed.
    fn put_back(&mut self, i: usize, ctx: WindowContext, Ghost(full): Ghost<Seq<WindowContext>>)
        requires
            0 <= i < full.len(),
            old(self).windows@ == full.remove(i as int),
            ids_unique(full),
            windows_wf(full),
            ctx.window_id == full[i as int].window_id,
            ctx.term_tab_collection.wf(),
            ctx.term_tab_collection.spec_window_id() == ctx.window_id,
            ctx.term_tab_collection@.len() > 0,
            old(self).spec_active() matches Some(a) ==> has_window(full, a),
            forall|id: u64|
                #[trigger] has_window(full, id) <==> (id < old(self).spec_next_window()
                    && !old(self).spec_closed().contains(id)),
            forall|id: u64| #[trigger] old(self).spec_closed().contains(id) ==> id < old(self).spec_next_window(),
        ensures
            final(self).wf(),
            final(self).spec_windows() == full.update(i as int, ctx),
            final(self).spec_active() == old(self).spec_active(),
            final(self).spec_next_window() == old(self).spec_next_window(),
            final(self).spec_next_pty() == old(self).spec_next_pty(),
            final(self).spec_closed() == old(self).spec_closed(),
    {
        self.windows.insert(i, ctx);
        proof {
            let ws = self.windows@;
            assert(ws =~= full.update(i as int, ctx));
            lemma_has_window_update(full, i as int, ctx, 0);
            assert forall|id: u64| #[trigger] has_window(ws, id) <==> (id < self.spec_next_window()
                && !self.spec_closed().contains(id)) by {
                lemma_has_window_update(full, i as int, ctx, id);
            }
            if let Some(a) = self.active_window_id {
                lemma_has_window_update(full, i as int, ctx, a);
            }
            assert forall|id: u64| #[trigger] self.spec_closed().contains(id) implies id
                < self.spec_next_window() by {
                assert(old(self).spec_closed().contains(id));
            }
            assert(windows_wf(ws)) by {
                assert forall|j: int| 0 <= j < ws.len() implies {
                    &&& (#[trigger] ws[j]).term_tab_collection.wf()
                    &&& ws[j].term_tab_collection.spec_window_id() == ws[j].window_id
                    &&& ws[j].term_tab_collection@.len() > 0
                } by {
                    if j != i {
                        assert(ws[j] == full[j]);
                    }
                }
            }
        }
    }

    /// Creates a window with one tab and focuses it. The window is
    /// `spec_next_window()` and its tab's PTY is `spec_next_pty()`; when
    /// either counter is spent nothing happens and `None` comes back.
    pub fn create_window_context(&mut self, effects: &mut Vec<Effect>) -> (r: Option<u64>)
        requires
            old(self).wf(),
        ensures
            final(self).wf(),
            create_window_context_done(*old(self), *final(self), old(effects)@, final(effects)@),
            r == if old(self).spec_next_window() < u64::MAX && old(self).spec_next_pty() < u64::MAX {
                Some(old(self).spec_next_window())
            } else {
                None
            },
    {
        if self.next_window_id == u64::MAX || self.next_pty_id == u64::MAX {
            return None;
        }
        let id = self.next_window_id;
        let pty = self.next_pty_id;
        let mut tabs = TermTabCollection::new(id);
        tabs.add_tab(pty);
        tabs.activate_tab(0);
        assert(contents(tabs@) =~= seq![(Seq::<char>::empty(), pty)]);
        let ctx = WindowContext {
            window_id: id,
            term_tab_collection: tabs,
            tab_bar_processor: TabBarProcessor::new(),
        };
        let ghost old_ws = self.windows@;
        let previous_active = self.active_window_id;
        self.windows.push(ctx);
        self.next_window_id = id + 1;
        self.next_pty_id = pty + 1;
        self.active_window_id = Some(id);
        effects.push(Effect::OpenWindow { window_id: id, previous_active });
        effects.push(Effect::SpawnPty { window_id: id, pty, tab_id: 0, previous_active: 0 });
        proof {
            let ws = self.windows@;
            assert(ws.drop_last() =~= old_ws);
            assert forall|k: u64| #[trigger] has_window(ws, k) <==> (k < self.next_window_id
                && !self.closed@.contains(k)) by {
                if has_window(ws, k) {
                    let j = choose|j: int| 0 <= j < ws.len() && (#[trigger] ws[j]).window_id == k;
                    if j < old_ws.len() {
                        assert(old_ws[j] == ws[j]);
                        assert(has_window(old_ws, k));
                    } else {
                        assert(k == id);
                        assert(!old(self).spec_closed().contains(id));
                    }
                }
                if k < self.next_window_id && !self.closed@.contains(k) {
                    if k == id {
                        assert(ws[ws.len() - 1].window_id == k);
                    } else {
                        assert(has_window(old_ws, k));
                        let j = choose|j: int| 0 <= j < old_ws.len() && (#[trigger] old_ws[j]).window_id == k;
                        assert(ws[j] == old_ws[j]);
                    }
                }
            }
            assert forall|a: int, b: int|
                0 <= a < ws.len() && 0 <= b < ws.len() && a != b implies #[trigger] ws[a].window_id
                    != #[trigger] ws[b].window_id by {
                if a < old_ws.len() {
                    assert(has_window(old_ws, ws[a].window_id));
                }
                if b < old_ws.len() {
                    assert(has_window(old_ws, ws[b].window_id));
                }
            }
            assert(has_window(ws, id)) by {
                assert(ws[ws.len() - 1].window_id == id);
            }
            assert forall|k: u64| #[trigger] self.spec_closed().contains(k) implies k
                < self.spec_next_window() by {
                assert(old(self).spec_closed().contains(k));
            }
            assert(windows_wf(ws)) by {
                assert forall|i: int| 0 <= i < ws.len() implies {
                    &&& (#[trigger] ws[i]).term_tab_collection.wf()
                    &&& ws[i].term_tab_collection.spec_window_id() == ws[i].window_id
                    &&& ws[i].term_tab_collection@.len() > 0
                } by {
                    if i < old_ws.len() {
                        assert(ws[i] == old_ws[i]);
                    }
                }
            }
        }
        Some(id)
    }

    /// Closes window `window_id`: joins the PTY thread of each of its tabs,
    /// in tab order, destroys it, and takes the focus from it if it had it.
    /// An unknown window changes nothing.
    pub fn close_window(&mut self, window_id: u64, effects: &mut Vec<Effect>)
        requires
            old(self).wf(),
        ensures
            final(self).wf(),
            close_window_done(*old(self), *final(self), window_id, old(effects)@, final(effects)@),
    {
        match self.find(window_id) {
            Some(i) => {
                let ctx = self.windows.remove(i);
                assert(self.windows@.insert(i as int, ctx) =~= old(self).windows@);
                assert forall|id: u64| #[trigger] self.spec_closed().contains(id) implies id
                    < self.spec_next_window() by {
                    assert(old(self).spec_closed().contains(id));
                }
                proof {
                    lemma_windows_wf_remove(old(self).windows@, i as int);
                }
                self.retire(i, ctx, effects);
            },
            None => {},
        }
    }

    /// Finishes closing window `ctx`, already taken out from position `i`.
    fn retire(&mut self, i: usize, ctx: WindowContext, effects: &mut Vec<Effect>)
        requires
            ids_unique(old(self).windows@.insert(i as int, ctx)),
            windows_wf(old(self).windows@),
            ctx.term_tab_collection.wf(),
            i <= old(self).windows@.len(),
            old(self).active_window_id matches Some(a) ==> has_window(
                old(self).windows@.insert(i as int, ctx),
                a,
            ),
            forall|id: u64|
                #[trigger] has_window(old(self).windows@.insert(i as int, ctx), id) <==> (id
                    < old(self).next_window_id && !old(self).closed@.contains(id)),
            forall|id: u64| #[trigger] old(self).spec_closed().contains(id) ==> id < old(self).spec_next_window(),
        ensures
            final(self).wf(),
            final(self).windows@ == old(self).windows@,
            final(self).next_window_id == old(self).next_window_id,
            final(self).next_pty_id == old(self).next_pty_id,
            final(self).closed@ == old(self).closed@.insert(ctx.window_id),
            final(self).active_window_id == if old(self).active_window_id == Some(ctx.window_id) {
                None
            } else {
                old(self).active_window_id
            },
            final(effects)@ == old(effects)@ + join_effects(ctx.term_tab_collection@) + seq![
                Effect::DestroyWindow(ctx.window_id),
            ],
            !has_window(final(self).spec_windows(), ctx.window_id),
    {
        let ghost full = self.windows@.insert(i as int, ctx);
        let ghost c0 = ctx;
        let ghost tabs0 = ctx.term_tab_collection@;
        let window_id = ctx.window_id;
        let mut ctx = ctx;
        let ptys = ctx.term_tab_collection.close_all_tabs();
        let ghost e0 = effects@;
        let mut k: usize = 0;
        while k < ptys.len()
            invariant
                0 <= k <= ptys@.len(),
                ptys@ == tabs0.map_values(|t: TermTab| t.pty),
                effects@ == e0 + join_effects(tabs0).subrange(0, k as int),
            decreases ptys@.len() - k,
        {
            effects.push(Effect::ShutdownAndJoin(ptys[k]));
            assert(join_effects(tabs0).subrange(0, k + 1) =~= join_effects(tabs0).subrange(
                0,
                k as int,
            ).push(Effect::ShutdownAndJoin(ptys@[k as int])));
            k = k + 1;
        }
        assert(join_effects(tabs0).subrange(0, ptys@.len() as int) =~= join_effects(tabs0));
        effects.push(Effect::DestroyWindow(window_id));
        assert(effects@ =~= e0 + join_effects(tabs0) + seq![Effect::DestroyWindow(window_id)]);
        if self.active_window_id == Some(window_id) {
            self.active_window_id = None;
        }
        self.closed = Ghost(self.closed@.insert(window_id));
        proof {
            assert(full.remove(i as int) =~= self.windows@);
            assert(full[i as int] == c0);
            lemma_has_window_remove(full, i as int, window_id);
            assert forall|id: u64| #[trigger] has_window(self.windows@, id) <==> (id
                < self.next_window_id && !self.closed@.contains(id)) by {
                lemma_has_window_remove(full, i as int, id);
            }
            assert forall|id: u64| #[trigger] self.spec_closed().contains(id) implies id < self.spec_next_window() by {
                if id != window_id {
                    assert(old(self).spec_closed().contains(id));
                } else {
                    assert(has_window(full, window_id)) by {
                        assert(full[i as int].window_id == window_id);
                    }
                }
            }
            if let Some(a) = self.active_window_id {
                lemma_has_window_remove(full, i as int, a);
            }
        }
    }

    /// Adds a tab, served by the PTY thread `spec_next_pty()`, to window
    /// `window_id` and makes it active. An unknown window, or a spent PTY
    /// counter, changes nothing.
    pub fn create_tab(&mut self, window_id: u64, effects: &mut Vec<Effect>) -> (r: Option<usize>)
        requires
            old(self).wf(),
        ensures
            final(self).wf(),
            create_tab_done(*old(self), *final(self), window_id, old(effects)@, final(effects)@),
            final(self).spec_active() == old(self).spec_active(),
            final(self).spec_next_window() == old(self).spec_next_window(),
            final(self).spec_closed() == old(self).spec_closed(),
            only_window_changed(old(self).spec_windows(), final(self).spec_windows(), window_id),
            r.is_some() ==> has_window(old(self).spec_windows(), window_id)
                && old(self).spec_next_pty() < u64::MAX,
            has_window(old(self).spec_windows(), window_id) && old(self).spec_next_pty() < u64::MAX
                && (forall|i: int|
                0 <= i < old(self).spec_windows().len() && #[trigger] old(
                    self,
                ).spec_windows()[i].window_id == window_id
                    ==> old(self).spec_windows()[i].term_tab_collection@.len() < usize::MAX)
                ==> r.is_some(),
            r.is_none() ==> final(self).spec_windows() == old(self).spec_windows()
                && final(self).spec_next_pty() == old(self).spec_next_pty() && final(effects)@ == old(
                effects,
            )@,
            r.is_some() ==> {
                let pty = old(self).spec_next_pty();
                &&& final(self).spec_next_pty() == pty + 1
                &&& forall|i: int|
                    0 <= i < old(self).spec_windows().len() && #[trigger] old(
                        self,
                    ).spec_windows()[i].window_id == window_id ==> {
                        let o = old(self).spec_windows()[i].term_tab_collection;
                        let n = final(self).spec_windows()[i].term_tab_collection;
                        &&& final(effects)@ == old(effects)@ + seq![
                            Effect::SpawnPty {
                                window_id,
                                pty,
                                tab_id: o@.len() as usize,
                                previous_active: o.spec_active() as usize,
                            },
                            Effect::UpdateSize(window_id),
                            Effect::RequestRedraw(window_id),
                        ]
                        &&& r == Some(o@.len() as usize)
                        &&& contents(n@) == contents(o@).push((Seq::<char>::empty(), pty))
                        &&& n.spec_active() == o@.len()
                    }
            },
    {
        if self.next_pty_id == u64::MAX {
            return None;
        }
        match self.find(window_id) {
            Some(i) => {
                let ghost full = self.windows@;
                let mut ctx = self.windows.remove(i);
                assert forall|id: u64| #[trigger] self.spec_closed().contains(id) implies id
                    < self.spec_next_window() by {
                    assert(old(self).spec_closed().contains(id));
                }
                if ctx.term_tab_collection.tab_count() == usize::MAX {
                    self.put_back(i, ctx, Ghost(full));
                    assert(self.windows@ =~= full);
                    return None;
                }
                let pty = self.next_pty_id;
                let previous_active = ctx.term_tab_collection.active_index();
                let tab_id = ctx.term_tab_collection.add_tab(pty);
                ctx.term_tab_collection.activate_tab(tab_id);
                assert(contents(ctx.term_tab_collection@).len() == ctx.term_tab_collection@.len());
                self.put_back(i, ctx, Ghost(full));
                self.next_pty_id = pty + 1;
                effects.push(Effect::SpawnPty { window_id, pty, tab_id, previous_active });
                effects.push(Effect::UpdateSize(window_id));
                effects.push(Effect::RequestRedraw(window_id));
                proof {
                    assert forall|j: int|
                        0 <= j < full.len() && #[trigger] full[j].window_id == window_id implies j
                        == i by {
                        if j != i {
                            assert(full[j].window_id != full[i as int].window_id);
                        }
                    }
                }
                Some(tab_id)
            },
            None => None,
        }
    }

    /// Makes `tab_id` the active tab of window `window_id` and asks for a
    /// redraw; a tab out of range leaves the tabs as they are.
    pub fn activate_tab(&mut self, window_id: u64, tab_id: usize, effects: &mut Vec<Effect>)
        requires
            old(self).wf(),
        ensures
            final(self).wf(),
            activate_tab_done(*old(self), *final(self), window_id, tab_id, old(effects)@, final(effects)@),
    {
        match self.find(window_id) {
            Some(i) => {
                let ghost full = self.windows@;
                let mut ctx = self.windows.remove(i);
                assert forall|id: u64| #[trigger] self.spec_closed().contains(id) implies id
                    < self.spec_next_window() by {
                    assert(old(self).spec_closed().contains(id));
                }
                ctx.term_tab_collection.activate_tab(tab_id);
                self.put_back(i, ctx, Ghost(full));
                effects.push(Effect::RequestRedraw(window_id));
                proof {
                    assert forall|j: int|
                        0 <= j < full.len() && #[trigger] full[j].window_id == window_id implies j
                        == i by {
                        if j != i {
                            assert(full[j].window_id != full[i as int].window_id);
                        }
                    }
                }
            },
            None => {
                assert(old(effects)@ + Seq::<Effect>::empty() =~= old(effects)@);
            },
        }
    }

    /// Moves tab `from` of window `window_id` to index `to` and asks for a
    /// redraw; indices out of range leave the tabs as they are.
    pub fn move_tab(&mut self, window_id: u64, from: usize, to: usize, effects: &mut Vec<Effect>)
        requires
            old(self).wf(),
        ensures
            final(self).wf(),
            move_tab_done(*old(self), *final(self), window_id, from, to, old(effects)@, final(effects)@),
    {
        match self.find(window_id) {
            Some(i) => {
                let ghost full = self.windows@;
                let mut ctx = self.windows.remove(i);
                assert forall|id: u64| #[trigger] self.spec_closed().contains(id) implies id
                    < self.spec_next_window() by {
                    assert(old(self).spec_closed().contains(id));
                }
                ctx.term_tab_collection.move_tab(from, to);
                self.put_back(i, ctx, Ghost(full));
                effects.push(Effect::RequestRedraw(window_id));
                proof {
                    assert forall|j: int|
                        0 <= j < full.len() && #[trigger] full[j].window_id == window_id implies j
                        == i by {
                        if j != i {
                            assert(full[j].window_id != full[i as int].window_id);
                        }
                    }
                }
            },
            None => {
                assert(old(effects)@ + Seq::<Effect>::empty() =~= old(effects)@);
            },
        }
    }

    /// Sets the title of tab `tab_id` of window `window_id` and asks for a
    /// redraw; a tab out of range keeps its title.
    pub fn set_tab_title(&mut self, window_id: u64, tab_id: usize, title: String, effects: &mut Vec<Effect>)
        requires
            old(self).wf(),
        ensures
            final(self).wf(),
            set_tab_title_done(*old(self), *final(self), window_id, tab_id, title, old(effects)@, final(effects)@),
    {
        match self.find(window_id) {
            Some(i) => {
                let ghost full = self.windows@;
                let mut ctx = self.windows.remove(i);
                assert forall|id: u64| #[trigger] self.spec_closed().contains(id) implies id
                    < self.spec_next_window() by {
                    assert(old(self).spec_closed().contains(id));
                }
                ctx.term_tab_collection.set_title(tab_id, title);
                self.put_back(i, ctx, Ghost(full));
                effects.push(Effect::RequestRedraw(window_id));
                proof {
                    assert forall|j: int|
                        0 <= j < full.len() && #[trigger] full[j].window_id == window_id implies j
                        == i by {
                        if j != i {
                            assert(full[j].window_id != full[i as int].window_id);
                        }
                    }
                }
            },
            None => {
                assert(old(effects)@ + Seq::<Effect>::empty() =~= old(effects)@);
            },
        }
    }

    /// Closes tab `tab_id` of window `window_id`: its PTY thread is shut down
    /// and joined, and the PTY comes back. A window left without tabs is
    /// closed with it; otherwise its size is synced and it is redrawn. An
    /// unknown window or a tab out of range changes nothing.
    pub fn close_tab(&mut self, window_id: u64, tab_id: usize, effects: &mut Vec<Effect>) -> (r:
        Option<u64>)
        requires
            old(self).wf(),
        ensures
            final(self).wf(),
            close_tab_done(*old(self), *final(self), window_id, tab_id, old(effects)@, final(effects)@),
            !has_window(old(self).spec_windows(), window_id) ==> r.is_none(),
            forall|i: int|
                0 <= i < old(self).spec_windows().len() && #[trigger] old(self).spec_windows()[i].window_id
                    == window_id ==> r == if tab_id < old(self).spec_windows()[i].term_tab_collection@.len() {
                    Some(old(self).spec_windows()[i].term_tab_collection@[tab_id as int].pty)
                } else {
                    None
                },
    {
        match self.find(window_id) {
            Some(i) => {
                let ghost full = self.windows@;
                let mut ctx = self.windows.remove(i);
                assert forall|id: u64| #[trigger] self.spec_closed().contains(id) implies id
                    < self.spec_next_window() by {
                    assert(old(self).spec_closed().contains(id));
                }
                proof {
                    assert forall|j: int|
                        0 <= j < full.len() && #[trigger] full[j].window_id == window_id implies j
                        == i by {
                        if j != i {
                            assert(full[j].window_id != full[i as int].window_id);
                        }
                    }
                }
                let r = ctx.term_tab_collection.close_tab(tab_id);
                match r {
                    Some(pty) => {
                        effects.push(Effect::ShutdownAndJoin(pty));
                        if ctx.term_tab_collection.is_empty() {
                            proof {
                                lemma_windows_wf_remove(full, i as int);
                                assert(self.windows@.insert(i as int, ctx) =~= full.update(
                                    i as int,
                                    ctx,
                                ));
                                lemma_has_window_update(full, i as int, ctx, window_id);
                                assert forall|id: u64| #[trigger] has_window(
                                    self.windows@.insert(i as int, ctx),
                                    id,
                                ) <==> (id < self.next_window_id && !self.closed@.contains(id)) by {
                                    lemma_has_window_update(full, i as int, ctx, id);
                                }
                                if let Some(a) = self.active_window_id {
                                    lemma_has_window_update(full, i as int, ctx, a);
                                }
                                assert(join_effects(ctx.term_tab_collection@) =~= Seq::<Effect>::empty());
                            }
                            self.retire(i, ctx, effects);
                            assert(effects@ =~= old(effects)@ + seq![
                                Effect::ShutdownAndJoin(pty),
                                Effect::DestroyWindow(window_id),
                            ]);
                        } else {
                            assert(contents(ctx.term_tab_collection@).len() == ctx.term_tab_collection@.len());
                            self.put_back(i, ctx, Ghost(full));
                            effects.push(Effect::UpdateSize(window_id));
                            effects.push(Effect::RequestRedraw(window_id));
                        }
                    },
                    None => {
                        self.put_back(i, ctx, Ghost(full));
                        assert(self.windows@ =~= full);
                    },
                }
                r
            },
            None => None,
        }
    }

    /// Closes the active tab of window `window_id`, as `close_tab` does.
    pub fn close_current_tab(&mut self, window_id: u64, effects: &mut Vec<Effect>) -> (r: Option<u64>)
        requires
            old(self).wf(),
        ensures
            final(self).wf(),
            close_current_tab_done(*old(self), *final(self), window_id, old(effects)@, final(effects)@),
            !has_window(old(self).spec_windows(), window_id) ==> r.is_none(),
            forall|i: int|
                0 <= i < old(self).spec_windows().len() && #[trigger] old(self).spec_windows()[i].window_id
                    == window_id ==> r == Some(
                    old(self).spec_windows()[i].term_tab_collection@[old(
                        self,
                    ).spec_windows()[i].term_tab_collection.spec_active()].pty,
                ),
    {
        match self.find(window_id) {
            Some(i) => {
                let t = self.windows[i].term_tab_collection.active_index();
                self.close_tab(window_id, t, effects)
            },
            None => self.close_tab(window_id, 0, effects),
        }
    }

    /// Runs an event through the tab bar of the focused window, queueing the
    /// commands it issues. Without a focused window nothing happens and
    /// `None` comes back.
    pub fn handle_tab_bar_event(
        &mut self,
        geo: BarGeometry,
        event: TabBarEvent,
        queue: &mut MultiWindowCommandQueue,
    ) -> (r: Option<TabBarOutcome>)
        requires
            old(self).wf(),
            old(queue).wf(),
        ensures
            final(self).wf(),
            final(queue).wf(),
            final(self).spec_active() == old(self).spec_active(),
            final(self).spec_next_window() == old(self).spec_next_window(),
            final(self).spec_next_pty() == old(self).spec_next_pty(),
            final(self).spec_closed() == old(self).spec_closed(),
            final(self).spec_windows().len() == old(self).spec_windows().len(),
            forall|i: int|
                0 <= i < old(self).spec_windows().len() ==> {
                    &&& (#[trigger] final(self).spec_windows()[i]).window_id == old(
                        self,
                    ).spec_windows()[i].window_id
                    &&& final(self).spec_windows()[i].term_tab_collection == old(
                        self,
                    ).spec_windows()[i].term_tab_collection
                    &&& Some(old(self).spec_windows()[i].window_id) != old(self).spec_active()
                        ==> final(self).spec_windows()[i] == old(self).spec_windows()[i]
                },
            old(self).spec_active().is_none() ==> r.is_none() && final(queue)@ == old(queue)@,
            old(self).spec_active() matches Some(a) ==> r.is_some() && forall|i: int|
                0 <= i < old(self).spec_windows().len() && #[trigger] old(
                    self,
                ).spec_windows()[i].window_id == a ==> {
                    let w = old(self).spec_windows()[i];
                    bar_event_done(
                        w.tab_bar_processor,
                        final(self).spec_windows()[i].tab_bar_processor,
                        w.term_tab_collection,
                        geo,
                        a,
                        event,
                        old(queue)@,
                        final(queue)@,
                        r.unwrap(),
                    )
                },
    {
        let a = match self.active_window_id {
            Some(a) => a,
            None => {
                return None;
            },
        };
        match self.find(a) {
            Some(i) => {
                let ghost full = self.windows@;
                let mut ctx = self.windows.remove(i);
                assert forall|id: u64| #[trigger] self.spec_closed().contains(id) implies id
                    < self.spec_next_window() by {
                    assert(old(self).spec_closed().contains(id));
                }
                proof {
                    assert(windows_wf(full));
                    assert(full[i as int] == ctx);
                }
                let out = ctx.tab_bar_processor.handle_event(
                    &ctx.term_tab_collection,
                    geo,
                    a,
                    event,
                    queue,
                );
                self.put_back(i, ctx, Ghost(full));
                proof {
                    assert forall|j: int|
                        0 <= j < full.len() && #[trigger] full[j].window_id == a implies j == i by {
                        if j != i {
                            assert(full[j].window_id != full[i as int].window_id);
                        }
                    }
                }
                Some(out)
            },
            None => None,
        }
    }

    /// Opens the first window, with one tab, and focuses it.
    pub fn initialize(&mut self, effects: &mut Vec<Effect>) -> (r: Option<u64>)
        requires
            old(self).wf(),
        ensures
            final(self).wf(),
            create_window_context_done(*old(self), *final(self), old(effects)@, final(effects)@),
            r == if old(self).spec_next_window() < u64::MAX && old(self).spec_next_pty() < u64::MAX {
                Some(old(self).spec_next_window())
            } else {
                None
            },
    {
        self.create_window_context(effects)
    }

    /// Undoes the creation of window `window_id` whose native window could
    /// not be opened: the window goes, and if it had the focus the focus
    /// returns to `previous_active` when that window is still open. No job
    /// is issued.
    pub fn abandon_window(&mut self, window_id: u64, previous_active: Option<u64>)
        requires
            old(self).wf(),
        ensures
            final(self).wf(),
            final(self).spec_next_window() == old(self).spec_next_window(),
            final(self).spec_next_pty() == old(self).spec_next_pty(),
            !has_window(final(self).spec_windows(), window_id),
            !has_window(old(self).spec_windows(), window_id) ==> {
                &&& final(self).spec_windows() == old(self).spec_windows()
                &&& final(self).spec_active() == old(self).spec_active()
                &&& final(self).spec_closed() == old(self).spec_closed()
            },
            has_window(old(self).spec_windows(), window_id) ==> {
                &&& exists|i: int|
                    0 <= i < old(self).spec_windows().len() && old(self).spec_windows()[i].window_id
                        == window_id && final(self).spec_windows() == old(self).spec_windows().remove(i)
                &&& final(self).spec_closed() == old(self).spec_closed().insert(window_id)
                &&& final(self).spec_active() == if old(self).spec_active() == Some(window_id) {
                    match previous_active {
                        Some(a) => if a != window_id && has_window(old(self).spec_windows(), a) {
                            Some(a)
                        } else {
                            None
                        },
                        None => None,
                    }
                } else {
                    old(self).spec_active()
                }
            },
    {
        let was_active = self.active_window_id == Some(window_id);
        let ghost before = self.windows@;
        let mut jobs: Vec<Effect> = Vec::new();
        self.close_window(window_id, &mut jobs);
        if was_active {
            if let Some(a) = previous_active {
                proof {
                    if has_window(before, window_id) {
                        let i = choose|i: int|
                            0 <= i < before.len() && before[i].window_id == window_id && self.windows@
                                == before.remove(i);
                        lemma_has_window_remove(before, i, a);
                    }
                }
                self.activate_window(a);
            }
        }
    }

    /// Undoes the creation of tab `tab_id` of window `window_id` whose PTY
    /// thread could not be started: the tab goes, `previous_active` becomes
    /// the active tab again, and the failure is reported in the window. A
    /// window's only tab is not removed here (`abandon_window` is for that);
    /// then, as for an unknown window or tab, nothing happens.
    pub fn abandon_tab(
        &mut self,
        window_id: u64,
        tab_id: usize,
        previous_active: usize,
        effects: &mut Vec<Effect>,
    )
        requires
            old(self).wf(),
        ensures
            final(self).wf(),
            final(self).spec_active() == old(self).spec_active(),
            final(self).spec_next_window() == old(self).spec_next_window(),
            final(self).spec_next_pty() == old(self).spec_next_pty(),
            final(self).spec_closed() == old(self).spec_closed(),
            only_window_changed(old(self).spec_windows(), final(self).spec_windows(), window_id),
            !has_window(old(self).spec_windows(), window_id) ==> final(self).spec_windows()
                == old(self).spec_windows() && final(effects)@ == old(effects)@,
            forall|i: int|
                0 <= i < old(self).spec_windows().len() && #[trigger] old(
                    self,
                ).spec_windows()[i].window_id == window_id ==> {
                    let o = old(self).spec_windows()[i].term_tab_collection;
                    let n = final(self).spec_windows()[i].term_tab_collection;
                    &&& tab_id < o@.len() && o@.len() > 1 ==> {
                        &&& contents(n@) == contents(o@).remove(tab_id as int)
                        &&& n.spec_active() == if previous_active < n@.len() {
                            previous_active as int
                        } else {
                            active_after_close(o.spec_active(), tab_id as int, n@.len() as int)
                        }
                        &&& final(effects)@ == old(effects)@ + seq![
                            Effect::ReportSpawnFailure(window_id),
                            Effect::RequestRedraw(window_id),
                        ]
                    }
                    &&& !(tab_id < o@.len() && o@.len() > 1) ==> {
                        &&& final(self).spec_windows() == old(self).spec_windows()
                        &&& final(effects)@ == old(effects)@
                    }
                },
    {
        let i = match self.find(window_id) {
            Some(i) => i,
            None => {
                return ;
            },
        };
        let n = self.windows[i].term_tab_collection.tab_count();
        proof {
            assert forall|j: int|
                0 <= j < self.windows@.len() && #[trigger] self.windows@[j].window_id == window_id
                    implies j == i by {
                if j != i {
                    assert(self.windows@[j].window_id != self.windows@[i as int].window_id);
                }
            }
        }
        if !(tab_id < n && n > 1) {
            return ;
        }
        let mut jobs: Vec<Effect> = Vec::new();
        let ghost w0 = self.windows@;
        self.close_tab(window_id, tab_id, &mut jobs);
        let ghost w1 = self.windows@;
        assert(w1[i as int].window_id == window_id);
        assert(only_window_changed(w0, w1, window_id));
        self.activate_tab(window_id, previous_active, &mut jobs);
        proof {
            let w2 = self.windows@;
            assert(w2[i as int].window_id == window_id);
            assert forall|j: int| 0 <= j < w0.len() implies {
                &&& (#[trigger] w2[j]).window_id == w0[j].window_id
                &&& w0[j].window_id != window_id ==> w2[j] == w0[j]
            } by {
                assert(w1[j].window_id == w0[j].window_id);
            }
        }
        effects.push(Effect::ReportSpawnFailure(window_id));
        effects.push(Effect::RequestRedraw(window_id));
    }
}

/// The focused window, when there is one, is one of the registry's windows.
pub proof fn lemma_active_is_registered(t: &WindowContextTracker)
    requires
        t.wf(),
    ensures
        t.spec_active() matches Some(a) ==> has_window(t.spec_windows(), a),
{
}

/// The registry is empty exactly when every window it ever created has been
/// closed.
pub proof fn lemma_empty_iff_all_closed(t: &WindowContextTracker)
    requires
        t.wf(),
    ensures
        t.spec_windows().len() == 0 <==> forall|id: u64|
            id < t.spec_next_window() ==> #[trigger] t.spec_closed().contains(id),
{
    let ws = t.spec_windows();
    if ws.len() == 0 {
        assert forall|id: u64| id < t.spec_next_window() implies #[trigger] t.spec_closed().contains(
            id,
        ) by {
            assert(!has_window(ws, id));
        }
    } else {
        let id = ws[0].window_id;
        assert(has_window(ws, id));
    }
}

/// Every tab of every window carries a handle that names that window and
/// the tab's own index.
pub proof fn lemma_handles_match_positions(t: &WindowContextTracker, i: int, j: int)
    requires
        t.wf(),
        0 <= i < t.spec_windows().len(),
        0 <= j < t.spec_windows()[i].term_tab_collection@.len(),
    ensures
        t.spec_windows()[i].term_tab_collection@[j].handle.tab_id == j as usize,
        t.spec_windows()[i].term_tab_collection@[j].handle.window_id == t.spec_windows()[i].window_id,
{
    let c = t.spec_windows()[i].term_tab_collection;
    assert(c.wf());
    assert(c@[j].handle == (crate::tabs::TabHandle { window_id: c.spec_window_id(), tab_id: j as usize }));
}

/// What `activate_window` leaves behind, from the registry `before` to
/// `after`.
pub open spec fn activate_window_done(
    before: WindowContextTracker,
    after: WindowContextTracker,
    window_id: u64,
) -> bool {
    &&& after.spec_windows() =~= before.spec_windows()
    &&& after.spec_next_window() == before.spec_next_window()
    &&& after.spec_next_pty() == before.spec_next_pty()
    &&& after.spec_closed() == before.spec_closed()
    &&& after.spec_active() == (if has_window(before.spec_windows(), window_id) {
        Some(window_id)
    } else {
        before.spec_active()
    })
}

/// What `deactivate_window` leaves behind, from the registry `before` to
/// `after`.
pub open spec fn deactivate_window_done(
    before: WindowContextTracker,
    after: WindowContextTracker,
    window_id: u64,
) -> bool {
    &&& after.spec_windows() =~= before.spec_windows()
    &&& after.spec_next_window() == before.spec_next_window()
    &&& after.spec_next_pty() == before.spec_next_pty()
    &&& after.spec_closed() == before.spec_closed()
    &&& after.spec_active() == (if before.spec_active() == Some(window_id) {
        None
    } else {
        before.spec_active()
    })
}

/// What `create_window_context` leaves behind, from the registry `before` (with the
/// effects `e0` queued) to `after` (with `e1`).
pub open spec fn create_window_context_done(
    before: WindowContextTracker,
    after: WindowContextTracker,
    e0: Seq<Effect>,
    e1: Seq<Effect>,
) -> bool {
    &&& after.spec_closed() == before.spec_closed()
    &&& before.spec_next_window() < u64::MAX && before.spec_next_pty() < u64::MAX ==> {
        let id = before.spec_next_window();
        let pty = before.spec_next_pty();
        let c = after.spec_windows().last();
        &&& after.spec_windows().len() == before.spec_windows().len() + 1
        &&& after.spec_windows().drop_last() == before.spec_windows()
        &&& c.window_id == id
        &&& contents(c.term_tab_collection@) =~= seq![(Seq::<char>::empty(), pty)]
        &&& c.term_tab_collection.spec_active() == 0
        &&& after.spec_active() == Some(id)
        &&& after.spec_next_window() == id + 1
        &&& after.spec_next_pty() == pty + 1
        &&& e1 =~= e0 + seq![
            Effect::OpenWindow { window_id: id, previous_active: before.spec_active() },
            Effect::SpawnPty { window_id: id, pty, tab_id: 0, previous_active: 0 },
        ]
    }
    &&& !(before.spec_next_window() < u64::MAX && before.spec_next_pty() < u64::MAX) ==> {
        &&& after == before
        &&& e1 =~= e0
    }
}

/// What `close_window` leaves behind, from the registry `before` (with the
/// effects `e0` queued) to `after` (with `e1`).
pub open spec fn close_window_done(
    before: WindowContextTracker,
    after: WindowContextTracker,
    window_id: u64,
    e0: Seq<Effect>,
    e1: Seq<Effect>,
) -> bool {
    &&& after.spec_next_window() == before.spec_next_window()
    &&& after.spec_next_pty() == before.spec_next_pty()
    &&& !has_window(after.spec_windows(), window_id)
    &&& has_window(before.spec_windows(), window_id) ==> exists|i: int|
        0 <= i < before.spec_windows().len() && before.spec_windows()[i].window_id
            == window_id && after.spec_windows() =~= before.spec_windows().remove(i)
            && e1 =~= e0 + join_effects(
            before.spec_windows()[i].term_tab_collection@,
        ) + seq![Effect::DestroyWindow(window_id)]
    &&& has_window(before.spec_windows(), window_id) ==> {
        &&& after.spec_closed() == before.spec_closed().insert(window_id)
        &&& after.spec_active() == (if before.spec_active() == Some(window_id) {
            None
        } else {
            before.spec_active()
        })
    }
    &&& !has_window(before.spec_windows(), window_id) ==> {
        &&& after == before
        &&& e1 =~= e0
    }
}

/// What `activate_tab` leaves behind, from the registry `before` (with the
/// effects `e0` queued) to `after` (with `e1`).
pub open spec fn activate_tab_done(
    before: WindowContextTracker,
    after: WindowContextTracker,
    window_id: u64,
    tab_id: usize,
    e0: Seq<Effect>,
    e1: Seq<Effect>,
) -> bool {
    &&& after.spec_active() == before.spec_active()
    &&& after.spec_next_window() == before.spec_next_window()
    &&& after.spec_next_pty() == before.spec_next_pty()
    &&& after.spec_closed() == before.spec_closed()
    &&& only_window_changed(before.spec_windows(), after.spec_windows(), window_id)
    &&& e1 =~= e0 + (if has_window(before.spec_windows(), window_id) {
        seq![Effect::RequestRedraw(window_id)]
    } else {
        Seq::empty()
    })
    &&& forall|i: int|
        0 <= i < before.spec_windows().len() && #[trigger] before.spec_windows()[i].window_id == window_id ==> {
            let o = before.spec_windows()[i].term_tab_collection;
            let n = after.spec_windows()[i].term_tab_collection;
            &&& after.spec_windows()[i].tab_bar_processor == before.spec_windows()[i].tab_bar_processor
            &&& n@ =~= o@
            &&& n.spec_active() == (if tab_id < o@.len() {
                tab_id as int
            } else {
                o.spec_active()
            })
        }
}

/// What `move_tab` leaves behind, from the registry `before` (with the
/// effects `e0` queued) to `after` (with `e1`).
pub open spec fn move_tab_done(
    before: WindowContextTracker,
    after: WindowContextTracker,
    window_id: u64,
    from: usize,
    to: usize,
    e0: Seq<Effect>,
    e1: Seq<Effect>,
) -> bool {
    &&& after.spec_active() == before.spec_active()
    &&& after.spec_next_window() == before.spec_next_window()
    &&& after.spec_next_pty() == before.spec_next_pty()
    &&& after.spec_closed() == before.spec_closed()
    &&& only_window_changed(before.spec_windows(), after.spec_windows(), window_id)
    &&& e1 =~= e0 + (if has_window(before.spec_windows(), window_id) {
        seq![Effect::RequestRedraw(window_id)]
    } else {
        Seq::empty()
    })
    &&& forall|i: int|
        0 <= i < before.spec_windows().len() && #[trigger] before.spec_windows()[i].window_id == window_id ==> {
            let o = before.spec_windows()[i].term_tab_collection;
            let n = after.spec_windows()[i].term_tab_collection;
            &&& after.spec_windows()[i].tab_bar_processor == before.spec_windows()[i].tab_bar_processor
            &&& n@.len() == o@.len()
            &&& from < o@.len() && to < o@.len() ==> {
                &&& contents(n@) =~= contents(o@).remove(from as int).insert(
                    to as int,
                    contents(o@)[from as int],
                )
                &&& n.spec_active() == moved_pos(from as int, to as int, o.spec_active())
            }
            &&& !(from < o@.len() && to < o@.len()) ==> n == o
        }
}

/// What `set_tab_title` leaves behind, from the registry `before` (with the
/// effects `e0` queued) to `after` (with `e1`).
pub open spec fn set_tab_title_done(
    before: WindowContextTracker,
    after: WindowContextTracker,
    window_id: u64,
    tab_id: usize,
    title: String,
    e0: Seq<Effect>,
    e1: Seq<Effect>,
) -> bool {
    &&& after.spec_active() == before.spec_active()
    &&& after.spec_next_window() == before.spec_next_window()
    &&& after.spec_next_pty() == before.spec_next_pty()
    &&& after.spec_closed() == before.spec_closed()
    &&& only_window_changed(before.spec_windows(), after.spec_windows(), window_id)
    &&& e1 =~= e0 + (if has_window(before.spec_windows(), window_id) {
        seq![Effect::RequestRedraw(window_id)]
    } else {
        Seq::empty()
    })
    &&& forall|i: int|
        0 <= i < before.spec_windows().len() && #[trigger] before.spec_windows()[i].window_id == window_id ==> {
            let o = before.spec_windows()[i].term_tab_collection;
            let n = after.spec_windows()[i].term_tab_collection;
            &&& after.spec_windows()[i].tab_bar_processor == before.spec_windows()[i].tab_bar_processor
            &&& n.spec_active() == o.spec_active()
            &&& n@.len() == o@.len()
            &&& contents(n@) =~= (if tab_id < o@.len() {
                contents(o@).update(tab_id as int, (title@, o@[tab_id as int].pty))
            } else {
                contents(o@)
            })
        }
}

/// What `close_tab` leaves behind, from the registry `before` (with the
/// effects `e0` queued) to `after` (with `e1`).
pub open spec fn close_tab_done(
    before: WindowContextTracker,
    after: WindowContextTracker,
    window_id: u64,
    tab_id: usize,
    e0: Seq<Effect>,
    e1: Seq<Effect>,
) -> bool {
    &&& after.spec_next_window() == before.spec_next_window()
    &&& after.spec_next_pty() == before.spec_next_pty()
    &&& !has_window(before.spec_windows(), window_id) ==> {
        &&& after.spec_windows() =~= before.spec_windows()
        &&& after.spec_active() == before.spec_active()
        &&& after.spec_closed() == before.spec_closed()
        &&& e1 =~= e0
    }
    &&& forall|i: int|
        0 <= i < before.spec_windows().len() && #[trigger] before.spec_windows()[i].window_id == window_id ==> {
            let o = before.spec_windows()[i].term_tab_collection;
            &&& tab_id >= o@.len() ==> {
                &&& after.spec_windows() =~= before.spec_windows()
                &&& after.spec_active() == before.spec_active()
                &&& after.spec_closed() == before.spec_closed()
                &&& e1 =~= e0
            }
            &&& tab_id < o@.len() && o@.len() == 1 ==> {
                &&& after.spec_windows() =~= before.spec_windows().remove(i)
                &&& after.spec_closed() == before.spec_closed().insert(window_id)
                &&& after.spec_active() == (if before.spec_active() == Some(
                    window_id,
                ) {
                    None
                } else {
                    before.spec_active()
                })
                &&& e1 =~= e0 + seq![
                    Effect::ShutdownAndJoin(o@[tab_id as int].pty),
                    Effect::DestroyWindow(window_id),
                ]
            }
            &&& tab_id < o@.len() && o@.len() > 1 ==> {
                let n = after.spec_windows()[i].term_tab_collection;
                &&& only_window_changed(
                    before.spec_windows(),
                    after.spec_windows(),
                    window_id,
                )
                &&& after.spec_active() == before.spec_active()
                &&& after.spec_closed() == before.spec_closed()
                &&& contents(n@) =~= contents(o@).remove(tab_id as int)
                &&& n.spec_active() == active_after_close(
                    o.spec_active(),
                    tab_id as int,
                    n@.len() as int,
                )
                &&& after.spec_windows()[i].tab_bar_processor == before.spec_windows()[i].tab_bar_processor
                &&& e1 =~= e0 + seq![
                    Effect::ShutdownAndJoin(o@[tab_id as int].pty),
                    Effect::UpdateSize(window_id),
                    Effect::RequestRedraw(window_id),
                ]
            }
        }
}

/// What `close_current_tab` leaves behind, from the registry `before` (with the
/// effects `e0` queued) to `after` (with `e1`).
pub open spec fn close_current_tab_done(
    before: WindowContextTracker,
    after: WindowContextTracker,
    window_id: u64,
    e0: Seq<Effect>,
    e1: Seq<Effect>,
) -> bool {
    &&& after.spec_next_window() == before.spec_next_window()
    &&& after.spec_next_pty() == before.spec_next_pty()
    &&& !has_window(before.spec_windows(), window_id) ==> {
        &&& after.spec_windows() =~= before.spec_windows()
        &&& after.spec_active() == before.spec_active()
        &&& after.spec_closed() == before.spec_closed()
        &&& e1 =~= e0
    }
    &&& forall|i: int|
        0 <= i < before.spec_windows().len() && #[trigger] before.spec_windows()[i].window_id == window_id ==> {
            let o = before.spec_windows()[i].term_tab_collection;
            let t = o.spec_active();
            &&& o@.len() == 1 ==> {
                &&& after.spec_windows() =~= before.spec_windows().remove(i)
                &&& after.spec_closed() == before.spec_closed().insert(window_id)
                &&& after.spec_active() == (if before.spec_active() == Some(
                    window_id,
                ) {
                    None
                } else {
                    before.spec_active()
                })
                &&& e1 =~= e0 + seq![
                    Effect::ShutdownAndJoin(o@[t].pty),
                    Effect::DestroyWindow(window_id),
                ]
            }
            &&& o@.len() > 1 ==> {
                let n = after.spec_windows()[i].term_tab_collection;
                &&& only_window_changed(
                    before.spec_windows(),
                    after.spec_windows(),
                    window_id,
                )
                &&& after.spec_active() == before.spec_active()
                &&& after.spec_closed() == before.spec_closed()
                &&& contents(n@) =~= contents(o@).remove(t)
                &&& n.spec_active() == active_after_close(t, t, n@.len() as int)
                &&& e1 =~= e0 + seq![
                    Effect::ShutdownAndJoin(o@[t].pty),
                    Effect::UpdateSize(window_id),
                    Effect::RequestRedraw(window_id),
                ]
            }
        }
}

/// What `create_tab` leaves behind, from the registry `before` (with the
/// effects `e0` queued) to `after` (with `e1`): either the tab was added,
/// served by the next PTY, and made active, or nothing changed (an unknown
/// window or a spent counter).
pub open spec fn create_tab_done(
    before: WindowContextTracker,
    after: WindowContextTracker,
    window_id: u64,
    e0: Seq<Effect>,
    e1: Seq<Effect>,
) -> bool {
    let pty = before.spec_next_pty();
    let added = {
        &&& after.spec_next_pty() == pty + 1
        &&& forall|i: int|
            0 <= i < before.spec_windows().len() && #[trigger] before.spec_windows()[i].window_id
                == window_id ==> {
                let o = before.spec_windows()[i].term_tab_collection;
                let n = after.spec_windows()[i].term_tab_collection;
                &&& e1 =~= e0 + seq![
                    Effect::SpawnPty {
                        window_id,
                        pty,
                        tab_id: o@.len() as usize,
                        previous_active: o.spec_active() as usize,
                    },
                    Effect::UpdateSize(window_id),
                    Effect::RequestRedraw(window_id),
                ]
                &&& contents(n@) =~= contents(o@).push((Seq::<char>::empty(), pty))
                &&& n.spec_active() == o@.len()
            }
    };
    let unchanged = {
        &&& after.spec_windows() =~= before.spec_windows()
        &&& after.spec_next_pty() == pty
        &&& e1 =~= e0
    };
    &&& after.spec_active() == before.spec_active()
    &&& after.spec_next_window() == before.spec_next_window()
    &&& after.spec_closed() == before.spec_closed()
    &&& only_window_changed(before.spec_windows(), after.spec_windows(), window_id)
    &&& added || unchanged
    &&& (has_window(before.spec_windows(), window_id) && pty < u64::MAX && (forall|i: int|
        0 <= i < before.spec_windows().len() && #[trigger] before.spec_windows()[i].window_id
            == window_id ==> before.spec_windows()[i].term_tab_collection@.len() < usize::MAX))
        ==> added
    &&& !has_window(before.spec_windows(), window_id) ==> unchanged
}

} // verus!
