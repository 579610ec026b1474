use vstd::prelude::*;
use crate::commands::{MultiWindowCommand, MultiWindowCommandQueue};
use crate::geometry::{
    BarGeometry, hit_spec, hit_test, on_close_spec, tab_left_spec, is_on_close_button,
    is_detached, detached_spec, ghost_index, ghost_spec, clamp_spec,
};
use crate::tabs::TermTabCollection;

verus! {

/// A cursor position in physical pixels, relative to the window's top-left
/// corner.
#[derive(Clone, Copy, Debug, PartialEq, Eq, Structural)]
pub struct Position {
    pub x: i32,
    pub y: i32,
}

/// The mouse cursor shape the tab bar asks for.
#[derive(Clone, Copy, Debug, PartialEq, Eq, Structural)]
pub enum CursorIcon {
    Default,
    Hand,
}

/// A window event, as far as the tab bar looks at it.
#[derive(Clone, Copy, Debug, PartialEq, Eq, Structural)]
pub enum TabBarEvent {
    RedrawRequested,
    CursorMoved(Position),
    /// A mouse button changed state.
    MouseInput { pressed: bool, left: bool },
    Other,
}

/// One tab as drawn in the strip, in physical pixels.
#[derive(Debug)]
pub struct TabState {
    pub title: String,
    pub x: i128,
    pub y: i64,
    pub width: u32,
    pub height: u32,
    pub active: bool,
    pub hovered: bool,
}

/// A drag in progress: the tab being dragged, the slot it would drop into
/// (none once detached), and how it looked when the drag began.
#[derive(Debug)]
pub struct DraggingInfo {
    pub tab_id: usize,
    pub ghost_tab_index: Option<usize>,
    pub is_detached: bool,
    pub initial_tab_state: TabState,
}

/// What the tab bar draws, and the hover and drag state behind it.
#[derive(Debug)]
pub struct TabBarState {
    pub tabs: Vec<TabState>,
    pub dragged_tab: Option<TabState>,
    pub active_tab_index: Option<usize>,
    pub hovered_tab: Option<usize>,
    pub dragging_info: Option<DraggingInfo>,
}

/// Width of each tab in the strip: the window shared by the tabs in it.
pub open spec fn slot_width_spec(window_width: int, tab_count: int, detached: bool) -> int {
    let shown = if detached {
        tab_count - 1
    } else {
        tab_count
    };
    if shown <= 0 {
        window_width
    } else {
        window_width / shown
    }
}

/// Left edge of tab `i`, drawn as the `k`-th tab of the strip, while the
/// tab `drag` is dragged towards slot `ghost`: the dragged tab sits at the
/// ghost slot, the tabs it passed shift by one slot to make room.
pub open spec fn slot_x_spec(i: int, k: int, drag: Option<(int, Option<usize>)>, width: int) -> int {
    let cur = k * width;
    match drag {
        Some((d, Some(g))) => if i == d {
            g * width
        } else if g <= i && i < d {
            cur + width
        } else if d < i && i <= g {
            cur - width
        } else {
            cur
        },
        _ => cur,
    }
}

/// The tab shown as the `k`-th of the strip: a detached tab leaves a gap
/// that the later tabs close.
pub open spec fn source_spec(k: int, drag: Option<(int, Option<usize>)>, detached: bool) -> int {
    match drag {
        Some((d, _)) => if detached && k >= d {
            k + 1
        } else {
            k
        },
        None => k,
    }
}

impl DraggingInfo {
    pub open spec fn key(&self) -> (int, Option<usize>) {
        (self.tab_id as int, self.ghost_tab_index)
    }
}

impl TabState {
    /// A copy of the tab.
    pub fn duplicate(&self) -> (r: TabState)
        ensures
            r == *self,
    {
        TabState {
            title: self.title.clone(),
            x: self.x,
            y: self.y,
            width: self.width,
            height: self.height,
            active: self.active,
            hovered: self.hovered,
        }
    }
}

impl TabBarState {
    /// The dragged tab and its ghost slot, if a drag is on.
    pub open spec fn drag_key(&self) -> Option<(int, Option<usize>)> {
        match self.dragging_info {
            Some(d) => Some(d.key()),
            None => None,
        }
    }

    pub open spec fn spec_detached(&self) -> bool {
        match self.dragging_info {
            Some(d) => d.is_detached,
            None => false,
        }
    }

    /// Whether the strip's `k`-th tab shows the tab `i` as laid out by
    /// `update` from `coll` in a window `window_width` wide.
    pub open spec fn shows(&self, k: int, coll: TermTabCollection, geo: BarGeometry) -> bool {
        self.entry_shows(self.tabs@[k], k, coll, geo)
    }

    /// Whether `e`, drawn as the `k`-th tab of the strip, shows the tab of
    /// `coll` that belongs there under this state's drag and hover.
    pub open spec fn entry_shows(&self, e: TabState, k: int, coll: TermTabCollection, geo: BarGeometry) -> bool {
        let i = source_spec(k, self.drag_key(), self.spec_detached());
        let width = slot_width_spec(geo.window_width as int, coll@.len() as int, self.spec_detached());
        let dragged = match self.dragging_info {
            Some(d) => d.tab_id == i,
            None => false,
        };
        &&& 0 <= i < coll@.len()
        &&& e.width == width
        &&& e.height == geo.bar_height
        &&& e.y == 0
        &&& e.x == slot_x_spec(i, k, self.drag_key(), width)
        &&& e.title@ == if dragged {
            Seq::<char>::empty()
        } else {
            coll@[i].title@
        }
        &&& e.active == (!dragged && self.active_tab_index == Some(i as usize))
        &&& e.hovered == (!dragged && self.hovered_tab == Some(i as usize))
    }

    /// A strip with nothing in it.
    pub fn new() -> (r: TabBarState)
        ensures
            r.tabs@.len() == 0,
            r.dragged_tab.is_none(),
            r.active_tab_index.is_none(),
            r.hovered_tab.is_none(),
            r.dragging_info.is_none(),
    {
        TabBarState {
            tabs: Vec::new(),
            dragged_tab: None,
            active_tab_index: None,
            hovered_tab: None,
            dragging_info: None,
        }
    }

    pub fn tab_count(&self) -> (r: usize)
        ensures
            r == self.tabs@.len(),
    {
        self.tabs.len()
    }

    /// The strip is drawn only when it holds two tabs or more.
    pub fn tab_bar_visible(&self) -> (r: bool)
        ensures
            r == (self.tabs@.len() > 1),
    {
        self.tabs.len() > 1
    }

    pub fn tab_state(&self, index: usize) -> (r: &TabState)
        requires
            index < self.tabs@.len(),
        ensures
            *r == self.tabs@[index as int],
    {
        &self.tabs[index]
    }

    fn is_dragging_detached(&self) -> (r: bool)
        ensures
            r == self.spec_detached(),
    {
        match &self.dragging_info {
            Some(d) => d.is_detached,
            None => false,
        }
    }

    fn is_dragged(&self, i: usize) -> (r: bool)
        ensures
            r == match self.dragging_info {
                Some(d) => d.tab_id == i,
                None => false,
            },
    {
        match &self.dragging_info {
            Some(d) => d.tab_id == i,
            None => false,
        }
    }

    /// Lays the strip out again from the live tabs: one entry per tab that
    /// is not detached, each `window_width / shown` wide, the dragged tab's
    /// slot left blank and the tabs it passed shifted to make room.
    pub fn update(&mut self, geo: BarGeometry, coll: &TermTabCollection)
        requires
            coll.wf(),
        ensures
            final(self).hovered_tab == old(self).hovered_tab,
            final(self).dragging_info == old(self).dragging_info,
            final(self).dragged_tab == old(self).dragged_tab,
            final(self).active_tab_index == if coll@.len() > 0 {
                Some(coll.spec_active() as usize)
            } else {
                None
            },
            final(self).tabs@.len() == if old(self).spec_detached() && coll@.len() > 0 && (
            old(self).dragging_info.unwrap().tab_id < coll@.len()) {
                coll@.len() - 1
            } else {
                coll@.len() as int
            },
            forall|k: int|
                0 <= k < final(self).tabs@.len() ==> #[trigger] final(self).shows(k, *coll, geo),
    {
        let tab_count = coll.tab_count();
        let detached = self.is_dragging_detached();
        self.active_tab_index = match coll.active_tab() {
            Some(_) => Some(coll.active_index()),
            None => None,
        };
        let shown: usize = if detached {
            if tab_count > 0 {
                tab_count - 1
            } else {
                0
            }
        } else {
            tab_count
        };
        let width: u32 = if shown == 0 {
            geo.window_width
        } else {
            (geo.window_width as usize / shown) as u32
        };
        let ghost_slot: Option<usize> = match &self.dragging_info {
            Some(d) => d.ghost_tab_index,
            None => None,
        };
        let mut tabs: Vec<TabState> = Vec::new();
        let mut i: usize = 0;
        while i < tab_count
            invariant
                tab_count == coll@.len(),
                0 <= i <= tab_count,
                detached == self.spec_detached(),
                width == slot_width_spec(geo.window_width as int, tab_count as int, detached),
                ghost_slot == match self.dragging_info {
                    Some(d) => d.ghost_tab_index,
                    None => None,
                },
                self.active_tab_index == if coll@.len() > 0 {
                    Some(coll.spec_active() as usize)
                } else {
                    None
                },
                self.hovered_tab == old(self).hovered_tab,
                self.dragging_info == old(self).dragging_info,
                self.dragged_tab == old(self).dragged_tab,
                tabs@.len() == if detached && self.dragging_info.unwrap().tab_id < i {
                    i - 1
                } else {
                    i as int
                },
                forall|k: int|
                    0 <= k < tabs@.len() ==> self.entry_shows(#[trigger] tabs@[k], k, *coll, geo),
            decreases tab_count - i,
        {
            let dragged = self.is_dragged(i);
            if !(dragged && detached) {
                let active = match self.active_tab_index {
                    Some(a) => !dragged && a == i,
                    None => false,
                };
                let hovered = match self.hovered_tab {
                    Some(h) => !dragged && h == i,
                    None => false,
                };
                let title = if dragged {
                    String::new()
                } else {
                    coll.tab(i).title.clone()
                };
                let k = tabs.len();
                proof {
                    assert((k as int) * (width as int) < 0x1_0000_0000_0000_0000 * 0x1_0000_0000)
                        by (nonlinear_arith)
                        requires
                            k < 0x1_0000_0000_0000_0000,
                            width < 0x1_0000_0000,
                    ;
                }
                let cur = k as i128 * width as i128;
                let x: i128 = match ghost_slot {
                    Some(g) => {
                        let d = match &self.dragging_info {
                            Some(di) => di.tab_id,
                            None => i,
                        };
                        proof {
                            assert((g as int) * (width as int) < 0x1_0000_0000_0000_0000
                                * 0x1_0000_0000) by (nonlinear_arith)
                                requires
                                    g < 0x1_0000_0000_0000_0000,
                                    width < 0x1_0000_0000,
                            ;
                        }
                        if i == d {
                            g as i128 * width as i128
                        } else if g <= i && i < d {
                            cur + width as i128
                        } else if d < i && i <= g {
                            cur - width as i128
                        } else {
                            cur
                        }
                    },
                    None => cur,
                };
                tabs.push(TabState { x, y: 0, width, height: geo.bar_height, title, active, hovered });
            }
            i = i + 1;
        }
        self.tabs = tabs;
    }
}

/// The commands a press of the left button at `p` issues: close the tab
/// when on its close hotspot, else activate it.
pub open spec fn press_commands(p: Position, tab_count: int, geo: BarGeometry, window_id: u64) -> Seq<
    MultiWindowCommand,
> {
    match hit_spec(p.x as int, p.y as int, tab_count, geo) {
        Some(t) => if on_close_spec(p.x - tab_left_spec(t, tab_count, geo.window_width as int)) {
            seq![MultiWindowCommand::CloseTab(window_id, t as usize)]
        } else {
            seq![MultiWindowCommand::ActivateTab(window_id, t as usize)]
        },
        None => Seq::empty(),
    }
}

/// The commands a release ending the drag `drag` issues: a move to the ghost
/// slot when the tab is still in the strip and has left its slot. A detached
/// tab drops back to where it was.
pub open spec fn release_commands(drag: Option<DraggingInfo>, window_id: u64) -> Seq<MultiWindowCommand> {
    match drag {
        Some(d) => match d.ghost_tab_index {
            Some(g) => if !d.is_detached && g != d.tab_id {
                seq![MultiWindowCommand::MoveTab(window_id, d.tab_id, g)]
            } else {
                Seq::empty()
            },
            None => Seq::empty(),
        },
        None => Seq::empty(),
    }
}

/// The cursor over `p`: a hand on a close hotspot, the default elsewhere.
pub open spec fn cursor_spec(p: Option<Position>, tab_count: int, geo: BarGeometry) -> CursorIcon {
    match p {
        Some(p) => match hit_spec(p.x as int, p.y as int, tab_count, geo) {
            Some(t) => if on_close_spec(p.x - tab_left_spec(t, tab_count, geo.window_width as int)) {
                CursorIcon::Hand
            } else {
                CursorIcon::Default
            },
            None => CursorIcon::Default,
        },
        None => CursorIcon::Default,
    }
}

/// The tab under `p`, if any.
pub open spec fn hover_spec(p: Option<Position>, tab_count: int, geo: BarGeometry) -> Option<usize> {
    match p {
        Some(p) => match hit_spec(p.x as int, p.y as int, tab_count, geo) {
            Some(t) => Some(t as usize),
            None => None,
        },
        None => None,
    }
}

fn clamp_i128(v: i128, lo: i128, hi: i128) -> (r: i128)
    requires
        lo <= hi,
    ensures
        r == clamp_spec(v as int, lo as int, hi as int),
{
    if v < lo {
        lo
    } else if v > hi {
        hi
    } else {
        v
    }
}

impl TabBarState {
    /// Records the tab under the cursor; tells whether it changed.
    pub fn update_hovered_tab(&mut self, hovered_tab: Option<usize>) -> (r: bool)
        ensures
            r == (old(self).hovered_tab != hovered_tab),
            final(self).hovered_tab == hovered_tab,
            final(self).tabs == old(self).tabs,
            final(self).dragging_info == old(self).dragging_info,
            final(self).dragged_tab == old(self).dragged_tab,
            final(self).active_tab_index == old(self).active_tab_index,
    {
        let did_update = match (self.hovered_tab, hovered_tab) {
            (Some(a), Some(b)) => a != b,
            (None, None) => false,
            _ => true,
        };
        self.hovered_tab = hovered_tab;
        did_update
    }

    /// Ends any drag; tells whether one was on.
    pub fn clear_dragging_info(&mut self) -> (r: bool)
        ensures
            r == old(self).dragging_info.is_some(),
            final(self).dragging_info.is_none(),
            final(self).dragged_tab.is_none(),
            final(self).tabs == old(self).tabs,
            final(self).hovered_tab == old(self).hovered_tab,
            final(self).active_tab_index == old(self).active_tab_index,
    {
        let did_change = self.dragging_info.is_some();
        self.dragging_info = None;
        self.dragged_tab = None;
        did_change
    }

    /// Follows a drag of tab `tab_id` that has moved `(dx, dy)` pixels from
    /// where the button went down. Past one and a half strip heights down the
    /// tab detaches; otherwise its ghost slot is the rounded number of tab
    /// widths it has moved, kept within the strip.
    pub fn update_dragging_info(
        &mut self,
        geo: BarGeometry,
        coll: &TermTabCollection,
        tab_id: usize,
        dx: i64,
        dy: i64,
    )
        requires
            coll.wf(),
            tab_id < coll@.len(),
        ensures
            final(self).tabs == old(self).tabs,
            final(self).hovered_tab == old(self).hovered_tab,
            final(self).active_tab_index == old(self).active_tab_index,
            final(self).dragged_tab.is_some(),
            ({
                let d = final(self).dragging_info.unwrap();
                &&& final(self).dragging_info.is_some()
                &&& d.tab_id == tab_id
                &&& d.is_detached == detached_spec(dy as int, geo.bar_height as int)
                &&& d.is_detached ==> d.ghost_tab_index.is_none()
                &&& !d.is_detached && d.initial_tab_state.width > 0 ==> d.ghost_tab_index == Some(
                    ghost_spec(
                        tab_id as int,
                        dx as int,
                        d.initial_tab_state.width as int,
                        coll@.len() as int,
                    ) as usize,
                )
                &&& !d.is_detached && d.initial_tab_state.width == 0 ==> d.ghost_tab_index == Some(
                    tab_id,
                )
                &&& old(self).dragging_info.is_some() ==> d.initial_tab_state
                    == old(self).dragging_info.unwrap().initial_tab_state
                &&& old(self).dragging_info.is_none() ==> {
                    let width = geo.window_width as int / coll@.len() as int;
                    &&& d.initial_tab_state.title@ == coll@[tab_id as int].title@
                    &&& d.initial_tab_state.x == tab_id * width
                    &&& d.initial_tab_state.y == 0
                    &&& d.initial_tab_state.width == width
                    &&& d.initial_tab_state.height == geo.bar_height
                }
            }),
            ({
                let d = final(self).dragging_info.unwrap();
                let g = final(self).dragged_tab.unwrap();
                let init = d.initial_tab_state;
                let right = if init.width <= geo.window_width {
                    geo.window_width - init.width
                } else {
                    0
                };
                &&& g.x == clamp_spec(
                    clamp_spec(init.x as int, 0, geo.window_width as int) + dx,
                    0,
                    right,
                )
                &&& g.y == (if d.is_detached && dy > 0 {
                    dy as int
                } else {
                    0
                })
                &&& g.width == init.width
                &&& g.height == init.height
                &&& g.title@ == init.title@
                &&& g.active
                &&& g.hovered
            }),
    {
        let n = coll.tab_count();
        let width = (geo.window_width as usize / n) as u32;
        let initial = match &self.dragging_info {
            Some(d) => d.initial_tab_state.duplicate(),
            None => {
                let active = coll.active_index() == tab_id;
                let hovered = match self.hovered_tab {
                    Some(h) => h == tab_id,
                    None => false,
                };
                proof {
                    assert((tab_id as int) * (width as int) < 0x1_0000_0000_0000_0000
                        * 0x1_0000_0000) by (nonlinear_arith)
                        requires
                            tab_id < 0x1_0000_0000_0000_0000,
                            width < 0x1_0000_0000,
                    ;
                }
                TabState {
                    title: coll.tab(tab_id).title.clone(),
                    x: tab_id as i128 * width as i128,
                    y: 0,
                    width,
                    height: geo.bar_height,
                    active,
                    hovered,
                }
            },
        };
        let detached = is_detached(dy, geo.bar_height);
        let ghost_slot: Option<usize> = if detached {
            None
        } else if initial.width > 0 {
            Some(ghost_index(tab_id, dx, initial.width, n))
        } else {
            Some(tab_id)
        };
        let right = if initial.width <= geo.window_width {
            (geo.window_width - initial.width) as i128
        } else {
            0
        };
        let base = clamp_i128(initial.x, 0, geo.window_width as i128);
        let x = clamp_i128(base + dx as i128, 0, right);
        let y: i128 = if detached && dy > 0 {
            dy as i128
        } else {
            0
        };
        self.dragged_tab = Some(
            TabState {
                title: initial.title.clone(),
                x,
                y: y as i64,
                width: initial.width,
                height: initial.height,
                active: true,
                hovered: true,
            },
        );
        self.dragging_info = Some(
            DraggingInfo {
                tab_id,
                ghost_tab_index: ghost_slot,
                is_detached: detached,
                initial_tab_state: initial,
            },
        );
    }
}

/// What the tab bar made of an event: whether the window needs a redraw,
/// whether the terminal must not see the event, and the cursor to show.
#[derive(Clone, Copy, Debug, PartialEq, Eq, Structural)]
pub struct TabBarOutcome {
    pub need_redraw: bool,
    pub skip_processor_run: bool,
    pub cursor_icon: Option<CursorIcon>,
}

/// The mouse state the tab bar keeps across events, with the strip it
/// draws.
#[derive(Debug)]
pub struct TabBarProcessor {
    pub tab_bar_state: TabBarState,
    pub is_mouse_down: bool,
    pub mouse_down_position: Option<Position>,
    pub current_mouse_position: Option<Position>,
    pub mouse_down_window: Option<u64>,
    pub current_window: Option<u64>,
}

/// Whether the event comes from the mouse.
pub open spec fn is_mouse_event(e: TabBarEvent) -> bool {
    e is CursorMoved || e is MouseInput
}

/// Whether `p` lies in the visible strip, which reaches up past the top of
/// the window.
pub open spec fn in_strip(p: Position, tab_count: int, geo: BarGeometry) -> bool {
    tab_count > 1 && p.y < geo.bar_height
}

impl TabBarProcessor {
    /// The commands that `event` issues from this state.
    pub open spec fn commands_for(&self, tab_count: int, geo: BarGeometry, window_id: u64, event: TabBarEvent) -> Seq<MultiWindowCommand> {
        match event {
            TabBarEvent::MouseInput { pressed, left } => {
                let press = if pressed && left && !self.is_mouse_down {
                    match self.current_mouse_position {
                        Some(p) => press_commands(p, tab_count, geo, window_id),
                        None => Seq::empty(),
                    }
                } else {
                    Seq::empty()
                };
                let release = if self.is_mouse_down && !pressed {
                    release_commands(self.tab_bar_state.dragging_info, window_id)
                } else {
                    Seq::empty()
                };
                press + release
            },
            _ => Seq::empty(),
        }
    }

    /// Whether a move to `p` drags a tab: the button is down and went down
    /// over a tab.
    pub open spec fn drags_to(&self, p: Position, tab_count: int, geo: BarGeometry) -> bool {
        let down = match self.mouse_down_position {
            Some(d) => d,
            None => p,
        };
        self.is_mouse_down && hit_spec(down.x as int, down.y as int, tab_count, geo).is_some()
    }

    pub fn new() -> (r: TabBarProcessor)
        ensures
            !r.is_mouse_down,
            r.mouse_down_position.is_none(),
            r.current_mouse_position.is_none(),
            r.tab_bar_state.dragging_info.is_none(),
            r.tab_bar_state.hovered_tab.is_none(),
    {
        TabBarProcessor {
            tab_bar_state: TabBarState::new(),
            is_mouse_down: false,
            mouse_down_position: None,
            current_mouse_position: None,
            mouse_down_window: None,
            current_window: None,
        }
    }

    /// The tab under `position`, counting the live tabs.
    fn get_tab_from_mouse_position(&self, geo: BarGeometry, tab_count: usize, position: Position) -> (r:
        Option<usize>)
        ensures
            r == hover_spec(Some(position), tab_count as int, geo),
            match hit_spec(position.x as int, position.y as int, tab_count as int, geo) {
                Some(i) => r == Some(i as usize) && 0 <= i < tab_count,
                None => r.is_none(),
            },
    {
        hit_test(position.x, position.y, tab_count, geo)
    }

    /// Whether the cursor is on the close hotspot of the tab under it.
    fn is_hover_close_button(&self, geo: BarGeometry, tab_count: usize) -> (r: bool)
        ensures
            r == (cursor_spec(self.current_mouse_position, tab_count as int, geo) == CursorIcon::Hand),
    {
        match self.current_mouse_position {
            Some(p) => match hit_test(p.x, p.y, tab_count, geo) {
                Some(t) => is_on_close_button(p.x, t, tab_count, geo.window_width),
                None => false,
            },
            None => false,
        }
    }

    /// Updates the hovered tab from the cursor; returns whether it changed
    /// and the cursor to show.
    fn handle_hover(&mut self, geo: BarGeometry, tab_count: usize) -> (r: (bool, CursorIcon))
        ensures
            final(self).tab_bar_state.hovered_tab == hover_spec(
                old(self).current_mouse_position,
                tab_count as int,
                geo,
            ),
            r.0 == (old(self).tab_bar_state.hovered_tab != final(self).tab_bar_state.hovered_tab),
            r.1 == cursor_spec(old(self).current_mouse_position, tab_count as int, geo),
            final(self).tab_bar_state.dragging_info == old(self).tab_bar_state.dragging_info,
            final(self).is_mouse_down == old(self).is_mouse_down,
            final(self).mouse_down_position == old(self).mouse_down_position,
            final(self).current_mouse_position == old(self).current_mouse_position,
            final(self).current_window == old(self).current_window,
            final(self).mouse_down_window == old(self).mouse_down_window,
            final(self).tab_bar_state.dragged_tab == old(self).tab_bar_state.dragged_tab,
    {
        let hovered = match self.current_mouse_position {
            Some(p) => self.get_tab_from_mouse_position(geo, tab_count, p),
            None => None,
        };
        let did_update = self.tab_bar_state.update_hovered_tab(hovered);
        let icon = if self.is_hover_close_button(geo, tab_count) {
            CursorIcon::Hand
        } else {
            CursorIcon::Default
        };
        (did_update, icon)
    }

    /// A press of the left button at `position`: close or activate the tab
    /// under it.
    fn handle_mouse_down(
        &self,
        window_id: u64,
        position: Position,
        geo: BarGeometry,
        tab_count: usize,
        queue: &mut MultiWindowCommandQueue,
    )
        requires
            old(queue).wf(),
        ensures
            final(queue).wf(),
            final(queue)@ == old(queue)@ + press_commands(position, tab_count as int, geo, window_id),
    {
        match self.get_tab_from_mouse_position(geo, tab_count, position) {
            Some(pressed_tab) => {
                if is_on_close_button(position.x, pressed_tab, tab_count, geo.window_width) {
                    queue.push(MultiWindowCommand::CloseTab(window_id, pressed_tab));
                } else {
                    queue.push(MultiWindowCommand::ActivateTab(window_id, pressed_tab));
                }
            },
            None => {
                assert(old(queue)@ + Seq::<MultiWindowCommand>::empty() =~= old(queue)@);
            },
        }
        proof {
            if hit_spec(position.x as int, position.y as int, tab_count as int, geo).is_some() {
                assert(final(queue)@ =~= old(queue)@ + press_commands(position, tab_count as int, geo, window_id));
            }
        }
    }

    /// The left button went up: a drag within the strip moves its tab to the
    /// ghost slot; any drag ends. Returns whether a drag was on.
    fn handle_mouse_up(&mut self, window_id: u64, queue: &mut MultiWindowCommandQueue) -> (r: bool)
        requires
            old(queue).wf(),
        ensures
            final(queue).wf(),
            final(queue)@ == old(queue)@ + release_commands(
                old(self).tab_bar_state.dragging_info,
                window_id,
            ),
            r == old(self).tab_bar_state.dragging_info.is_some(),
            final(self).tab_bar_state.dragging_info.is_none(),
            final(self).tab_bar_state.dragged_tab.is_none(),
            final(self).tab_bar_state.hovered_tab == old(self).tab_bar_state.hovered_tab,
            final(self).is_mouse_down == old(self).is_mouse_down,
            final(self).mouse_down_window == old(self).mouse_down_window,
            final(self).current_window == old(self).current_window,
            final(self).mouse_down_position == old(self).mouse_down_position,
            final(self).current_mouse_position == old(self).current_mouse_position,
    {
        let mut pushed = false;
        match &self.tab_bar_state.dragging_info {
            Some(d) => {
                match d.ghost_tab_index {
                    Some(g) => {
                        if !d.is_detached && g != d.tab_id {
                            queue.push(MultiWindowCommand::MoveTab(window_id, d.tab_id, g));
                            pushed = true;
                        }
                    },
                    None => {},
                }
            },
            None => {},
        }
        if !pushed {
            assert(old(queue)@ + release_commands(old(self).tab_bar_state.dragging_info, window_id)
                =~= old(queue)@);
        } else {
            assert(final(queue)@ =~= old(queue)@ + release_commands(
                old(self).tab_bar_state.dragging_info,
                window_id,
            ));
        }
        self.tab_bar_state.clear_dragging_info()
    }

    /// Follows a move of the cursor while the button is down. Returns
    /// whether a tab is being dragged.
    fn handle_tab_drag(&mut self, geo: BarGeometry, coll: &TermTabCollection) -> (r: bool)
        requires
            coll.wf(),
            old(self).mouse_down_position.is_some(),
            old(self).current_mouse_position.is_some(),
        ensures
            ({
                let down = old(self).mouse_down_position.unwrap();
                let cur = old(self).current_mouse_position.unwrap();
                match hit_spec(down.x as int, down.y as int, coll@.len() as int, geo) {
                    Some(t) => {
                        &&& r
                        &&& final(self).tab_bar_state.dragging_info matches Some(d) && d.tab_id == t
                            && d.is_detached == detached_spec(cur.y - down.y, geo.bar_height as int)
                            && (!d.is_detached && d.initial_tab_state.width > 0 ==> d.ghost_tab_index
                            == Some(
                            ghost_spec(
                                t,
                                cur.x - down.x,
                                d.initial_tab_state.width as int,
                                coll@.len() as int,
                            ) as usize,
                        ))
                    },
                    None => !r && final(self).tab_bar_state.dragging_info.is_none(),
                }
            }),
            final(self).tab_bar_state.hovered_tab == old(self).tab_bar_state.hovered_tab,
            final(self).is_mouse_down == old(self).is_mouse_down,
            final(self).mouse_down_position == old(self).mouse_down_position,
            final(self).current_mouse_position == old(self).current_mouse_position,
            final(self).current_window == old(self).current_window,
            final(self).mouse_down_window == old(self).mouse_down_window,
    {
        let n = coll.tab_count();
        let down = match self.mouse_down_position {
            Some(d) => d,
            None => Position { x: 0, y: 0 },
        };
        let cur = match self.current_mouse_position {
            Some(c) => c,
            None => down,
        };
        match self.get_tab_from_mouse_position(geo, n, down) {
            Some(tab_id) => {
                let dx = cur.x as i64 - down.x as i64;
                let dy = cur.y as i64 - down.y as i64;
                self.tab_bar_state.update_dragging_info(geo, coll, tab_id, dx, dy);
                true
            },
            None => {
                self.tab_bar_state.clear_dragging_info();
                false
            },
        }
    }

    /// Runs one window event through the tab bar of window `window_id`,
    /// whose live tabs are `coll`, and queues the commands it issues.
    pub fn handle_event(
        &mut self,
        coll: &TermTabCollection,
        geo: BarGeometry,
        window_id: u64,
        event: TabBarEvent,
        queue: &mut MultiWindowCommandQueue,
    ) -> (r: TabBarOutcome)
        requires
            coll.wf(),
            old(queue).wf(),
        ensures
            final(queue).wf(),
            bar_event_done(*old(self), *final(self), *coll, geo, window_id, event, old(queue)@, final(queue)@, r),
    {
        let n = coll.tab_count();
        let mut tab_state_updated = false;
        let mut is_mouse_event = false;
        let mut is_mouse_up = false;
        let mut is_dragging = false;
        let mut cursor_icon: Option<CursorIcon> = None;
        match event {
            TabBarEvent::RedrawRequested => {
                self.tab_bar_state.update(geo, coll);
                assert(old(queue)@ + Seq::<MultiWindowCommand>::empty() =~= old(queue)@);
            },
            TabBarEvent::CursorMoved(position) => {
                if self.is_mouse_down && self.mouse_down_position.is_none() {
                    self.mouse_down_position = Some(position);
                }
                self.current_mouse_position = Some(position);
                self.current_window = Some(window_id);
                if self.is_mouse_down {
                    is_dragging = self.handle_tab_drag(geo, coll);
                    if is_dragging {
                        tab_state_updated = true;
                    }
                }
                if !is_dragging {
                    let (updated, icon) = self.handle_hover(geo, n);
                    tab_state_updated = updated;
                    cursor_icon = Some(icon);
                }
                is_mouse_event = true;
                assert(old(queue)@ + Seq::<MultiWindowCommand>::empty() =~= old(queue)@);
            },
            TabBarEvent::MouseInput { pressed, left } => {
                let new_mouse_down = pressed && left;
                if new_mouse_down && !self.is_mouse_down {
                    self.mouse_down_position = self.current_mouse_position;
                    self.mouse_down_window = Some(window_id);
                    match self.current_mouse_position {
                        Some(p) => self.handle_mouse_down(window_id, p, geo, n, queue),
                        None => {
                            assert(old(queue)@ + Seq::<MultiWindowCommand>::empty() =~= old(queue)@);
                        },
                    }
                    assert(old(self).commands_for(n as int, geo, window_id, event) =~= match old(self).current_mouse_position {
                        Some(p) => press_commands(p, n as int, geo, window_id),
                        None => Seq::empty(),
                    });
                } else if self.is_mouse_down && !pressed {
                    self.handle_mouse_up(window_id, queue);
                    is_mouse_up = true;
                    assert(old(self).commands_for(n as int, geo, window_id, event) =~= release_commands(old(self).tab_bar_state.dragging_info, window_id));
                } else {
                    assert(old(self).commands_for(n as int, geo, window_id, event) =~= Seq::<MultiWindowCommand>::empty());
                    assert(old(queue)@ + Seq::<MultiWindowCommand>::empty() =~= old(queue)@);
                }
                self.is_mouse_down = new_mouse_down;
                let (updated, icon) = self.handle_hover(geo, n);
                tab_state_updated = updated;
                cursor_icon = Some(icon);
                is_mouse_event = true;
            },
            TabBarEvent::Other => {
                assert(old(queue)@ + Seq::<MultiWindowCommand>::empty() =~= old(queue)@);
            },
        }
        let need_redraw = tab_state_updated || is_dragging || is_mouse_up;
        let skip_processor_run = if is_mouse_event {
            match self.current_mouse_position {
                Some(p) => n > 1 && (p.y as i64) < geo.bar_height as i64,
                None => false,
            }
        } else {
            false
        };
        TabBarOutcome { need_redraw, skip_processor_run, cursor_icon }
    }
}

/// What `TabBarProcessor::handle_event` leaves behind: from the state
/// `before` (with the commands `q0` queued) to `after` (with `q1`), for an
/// event in window `window_id` whose live tabs are `coll`, with outcome `r`.
pub open spec fn bar_event_done(
    before: TabBarProcessor,
    after: TabBarProcessor,
    coll: TermTabCollection,
    geo: BarGeometry,
    window_id: u64,
    event: TabBarEvent,
    q0: Seq<MultiWindowCommand>,
    q1: Seq<MultiWindowCommand>,
    r: TabBarOutcome,
) -> bool {
    let n = coll@.len() as int;
    &&& q1 == q0 + before.commands_for(n, geo, window_id, event)
    &&& r.skip_processor_run == (is_mouse_event(event) && match after.current_mouse_position {
        Some(p) => in_strip(p, n, geo),
        None => false,
    })
    &&& event matches TabBarEvent::CursorMoved(p) ==> {
        &&& after.current_mouse_position == Some(p)
        &&& after.current_window == Some(window_id)
        &&& after.is_mouse_down == before.is_mouse_down
        &&& after.mouse_down_window == before.mouse_down_window
        &&& after.mouse_down_position == (if before.is_mouse_down
            && before.mouse_down_position.is_none() {
            Some(p)
        } else {
            before.mouse_down_position
        })
        &&& if before.drags_to(p, n, geo) {
            let down = after.mouse_down_position.unwrap();
            &&& r.need_redraw
            &&& r.cursor_icon.is_none()
            &&& after.tab_bar_state.hovered_tab == before.tab_bar_state.hovered_tab
            &&& after.tab_bar_state.dragging_info matches Some(d) && Some(d.tab_id as int)
                == hit_spec(down.x as int, down.y as int, n, geo) && d.is_detached
                == detached_spec(p.y - down.y, geo.bar_height as int) && (!d.is_detached
                && d.initial_tab_state.width > 0 ==> d.ghost_tab_index == Some(
                ghost_spec(d.tab_id as int, p.x - down.x, d.initial_tab_state.width as int, n)
                    as usize,
            ))
        } else {
            &&& r.cursor_icon == Some(cursor_spec(Some(p), n, geo))
            &&& r.need_redraw == (before.tab_bar_state.hovered_tab
                != after.tab_bar_state.hovered_tab)
            &&& after.tab_bar_state.hovered_tab == hover_spec(Some(p), n, geo)
        }
    }
    &&& event matches TabBarEvent::MouseInput { pressed, left } ==> {
        let press = pressed && left && !before.is_mouse_down;
        let release = before.is_mouse_down && !pressed;
        &&& after.is_mouse_down == (pressed && left)
        &&& after.current_mouse_position == before.current_mouse_position
        &&& after.current_window == before.current_window
        &&& after.tab_bar_state.hovered_tab == hover_spec(before.current_mouse_position, n, geo)
        &&& r.cursor_icon == Some(cursor_spec(before.current_mouse_position, n, geo))
        &&& press ==> {
            &&& after.mouse_down_position == before.current_mouse_position
            &&& after.mouse_down_window == Some(window_id)
        }
        &&& !press ==> {
            &&& after.mouse_down_position == before.mouse_down_position
            &&& after.mouse_down_window == before.mouse_down_window
        }
        &&& release ==> {
            &&& after.tab_bar_state.dragging_info.is_none()
            &&& after.tab_bar_state.dragged_tab.is_none()
            &&& r.need_redraw
        }
        &&& !release ==> after.tab_bar_state.dragging_info == before.tab_bar_state.dragging_info
    }
    &&& event is RedrawRequested ==> {
        &&& r.cursor_icon.is_none()
        &&& after.is_mouse_down == before.is_mouse_down
        &&& after.mouse_down_position == before.mouse_down_position
        &&& after.current_mouse_position == before.current_mouse_position
        &&& after.tab_bar_state.dragging_info == before.tab_bar_state.dragging_info
        &&& after.tab_bar_state.hovered_tab == before.tab_bar_state.hovered_tab
        &&& after.tab_bar_state.tabs@.len() == (if before.tab_bar_state.spec_detached() && n > 0
            && before.tab_bar_state.dragging_info.unwrap().tab_id < n {
            n - 1
        } else {
            n
        })
        &&& forall|k: int|
            0 <= k < after.tab_bar_state.tabs@.len() ==> #[trigger] after.tab_bar_state.shows(
                k,
                coll,
                geo,
            )
    }
}

} // verus!
