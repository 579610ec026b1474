use vstd::prelude::*;
use crate::commands::{MultiWindowCommand, MultiWindowCommandQueue, commands_done};
use crate::registry::{Effect, WindowContextTracker};
use crate::tabs::TabHandle;

verus! {

/// An event a terminal emits from its PTY I/O thread.
#[derive(Debug)]
pub enum TerminalEvent {
    Title(String),
    Wakeup,
    Urgent,
    Exit,
    ConfigReload(String),
    Message(String),
    MouseCursorDirty,
}

/// A terminal event tagged with the tab that emitted it, as read from the
/// tab's handle when it was sent. The window is unknown until the tab's
/// window exists.
#[derive(Debug)]
pub struct MultiWindowEvent {
    pub wrapped_event: TerminalEvent,
    pub window_id: Option<u64>,
    pub tab_id: usize,
}

/// A window-system event, as far as the window lifecycle looks at it.
#[derive(Clone, Copy, Debug, PartialEq, Eq, Structural)]
pub enum WindowEvent {
    Focused(u64, bool),
    CloseRequested(u64),
    EventsCleared,
    Other,
}

/// The kind of an event the window system delivers, as far as the terminal
/// input buffering looks at it.
#[derive(Clone, Copy, Debug, PartialEq, Eq, Structural)]
pub enum EventKind {
    /// A terminal's exit, sent to wake the loop.
    UserExit,
    /// Any other terminal event.
    UserOther,
    TouchpadPressure,
    CursorEntered,
    AxisMotion,
    HoveredFileCancelled,
    Destroyed,
    HoveredFile,
    Touch,
    Moved,
    /// Any other event of a window (keys, mouse, resize, focus, ...).
    OtherWindowEvent,
    ModifiersChanged,
    /// Any other device event.
    OtherDeviceEvent,
    Suspended,
    NewEvents,
    EventsCleared,
    LoopDestroyed,
    Resumed,
}

/// Whether the terminal's input processing ignores events of this kind:
/// exits (handled by the window lifecycle), window events no terminal reacts
/// to, device events other than modifier changes, and the loop's own
/// bookkeeping events.
pub open spec fn skipped_spec(k: EventKind) -> bool {
    match k {
        EventKind::UserOther | EventKind::OtherWindowEvent | EventKind::ModifiersChanged
        | EventKind::Resumed => false,
        _ => true,
    }
}

/// How the event loop waits for the next event.
#[derive(Clone, Copy, Debug, PartialEq, Eq, Structural)]
pub enum ControlFlow {
    Wait,
    Poll,
    Exit,
}

/// What the rest of an iteration does once window commands have run.
#[derive(Clone, Copy, Debug, PartialEq, Eq, Structural)]
pub enum DisplayCommandResult {
    /// No window is left: the loop ends.
    Exit,
    /// A window has the focus: run its input processing.
    Continue,
    /// No window has the focus: draw the visible ones and wait.
    RestartLoop,
    Redraw,
}

/// One step of drawing on the single GPU context slot of the UI thread.
#[derive(Clone, Copy, Debug, PartialEq, Eq, Structural)]
pub enum GpuStep {
    MakeCurrent(u64),
    Draw(u64),
}

/// What the focused window's terminal processing does with a terminal
/// event of its active tab.
#[derive(Debug)]
pub enum TerminalAction {
    SetWindowTitle(String),
    MarkDirty,
    /// Raise (or clear) the window's urgency flag.
    SetUrgent(bool),
    /// Reload the configuration from this path and recompute the fonts.
    ReloadConfig(String),
    /// Show a message in the message bar.
    PushMessage(String),
    ResetMouseCursor,
    /// The tab's exit has been queued as a command.
    Nothing,
}

/// Whether `id` is listed in `v`.
fn contains_id(v: &Vec<u64>, id: u64) -> (r: bool)
    ensures
        r == v@.contains(id),
{
    let mut i: usize = 0;
    while i < v.len()
        invariant
            0 <= i <= v@.len(),
            forall|j: int| 0 <= j < i ==> v@[j] != id,
        decreases v@.len() - i,
    {
        if v[i] == id {
            assert(v@[i as int] == id);
            return true;
        }
        i = i + 1;
    }
    false
}

/// The UI thread's decisions between events; the event pump itself belongs
/// to the embedding program.
#[derive(Debug)]
pub struct MultiWindowProcessor {
    /// A focus change waiting for the next iteration, so that the click that
    /// focused a window does not also start a selection in it.
    pub scheduled_activation: Option<u64>,
}

/// The commands a forwarded PTY event turns into: an exit closes the tab, a
/// title renames it; events from a tab with no window yet are dropped.
pub open spec fn pty_command(e: MultiWindowEvent) -> Seq<MultiWindowCommand> {
    match e.window_id {
        Some(w) => match e.wrapped_event {
            TerminalEvent::Exit => seq![MultiWindowCommand::CloseTab(w, e.tab_id)],
            TerminalEvent::Title(s) => seq![MultiWindowCommand::SetTabTitle(w, e.tab_id, s)],
            _ => Seq::empty(),
        },
        None => Seq::empty(),
    }
}

/// The commands a run of forwarded events turns into, in arrival order.
pub open spec fn pty_commands(es: Seq<MultiWindowEvent>) -> Seq<MultiWindowCommand>
    decreases es.len(),
{
    if es.len() == 0 {
        Seq::empty()
    } else {
        pty_commands(es.drop_last()) + pty_command(es.last())
    }
}

/// The tab whose terminal a forwarded event only marks dirty.
pub open spec fn dirty_tab(e: MultiWindowEvent) -> Option<TabHandle> {
    match e.window_id {
        Some(w) => match e.wrapped_event {
            TerminalEvent::Exit => None,
            TerminalEvent::Title(_) => None,
            _ => Some(TabHandle { window_id: w, tab_id: e.tab_id }),
        },
        None => None,
    }
}

/// The tabs a run of forwarded events marks dirty, in arrival order.
pub open spec fn dirty_tabs(es: Seq<MultiWindowEvent>) -> Seq<TabHandle>
    decreases es.len(),
{
    if es.len() == 0 {
        Seq::empty()
    } else {
        dirty_tabs(es.drop_last()) + match dirty_tab(es.last()) {
            Some(h) => seq![h],
            None => Seq::empty(),
        }
    }
}

/// The steps that redraw the dirty windows other than the active one, in
/// registry order: each is made current, then drawn.
pub open spec fn redraw_steps(ids: Seq<u64>, active: Option<u64>, dirty: Seq<u64>) -> Seq<GpuStep>
    decreases ids.len(),
{
    if ids.len() == 0 {
        Seq::empty()
    } else {
        let k = ids.len() - 1;
        let rest = redraw_steps(ids.drop_last(), active, dirty);
        if active != Some(ids[k]) && dirty.contains(ids[k]) {
            rest + seq![GpuStep::MakeCurrent(ids[k]), GpuStep::Draw(ids[k])]
        } else {
            rest
        }
    }
}

/// All the steps of the inactive-window pass: the redraws, then the active
/// window's context made current again if anything else was drawn.
pub open spec fn inactive_pass(ids: Seq<u64>, active: Option<u64>, dirty: Seq<u64>) -> Seq<GpuStep> {
    let steps = redraw_steps(ids, active, dirty);
    match active {
        Some(a) => if steps.len() > 0 {
            steps.push(GpuStep::MakeCurrent(a))
        } else {
            steps
        },
        None => steps,
    }
}

/// The ordered drawing steps never draw a window whose context is not
/// current: every draw comes right after its window's context is made
/// current.
pub open spec fn draws_on_own_context(steps: Seq<GpuStep>) -> bool {
    forall|j: int|
        0 <= j < steps.len() ==> (#[trigger] steps[j] matches GpuStep::Draw(w) ==> j > 0 && steps[j
            - 1] == GpuStep::MakeCurrent(w))
}

/// Every redraw step list draws each window on its own context, and the
/// pass never draws the active window.
pub proof fn lemma_redraw_steps_shape(ids: Seq<u64>, active: Option<u64>, dirty: Seq<u64>)
    ensures
        draws_on_own_context(redraw_steps(ids, active, dirty)),
        redraw_steps(ids, active, dirty).len() % 2 == 0,
        forall|j: int|
            0 <= j < redraw_steps(ids, active, dirty).len() && j % 2 == 0 ==> #[trigger] redraw_steps(
                ids,
                active,
                dirty,
            )[j] is MakeCurrent,
        active matches Some(a) ==> forall|j: int|
            0 <= j < redraw_steps(ids, active, dirty).len() ==> #[trigger] redraw_steps(
                ids,
                active,
                dirty,
            )[j] != GpuStep::Draw(a),
    decreases ids.len(),
{
    if ids.len() > 0 {
        lemma_redraw_steps_shape(ids.drop_last(), active, dirty);
    }
}

/// When a window has the focus, its context is the one left current after
/// the inactive pass (or nothing was switched at all); drawing always happens
/// on the drawn window's own context.
pub proof fn lemma_active_context_restored(ids: Seq<u64>, active: Option<u64>, dirty: Seq<u64>)
    ensures
        draws_on_own_context(inactive_pass(ids, active, dirty)),
        active matches Some(a) ==> (inactive_pass(ids, active, dirty).len() > 0 ==> inactive_pass(
            ids,
            active,
            dirty,
        ).last() == GpuStep::MakeCurrent(a)),
{
    lemma_redraw_steps_shape(ids, active, dirty);
    let steps = redraw_steps(ids, active, dirty);
    if let Some(a) = active {
        if steps.len() > 0 {
            let p = steps.push(GpuStep::MakeCurrent(a));
            assert forall|j: int|
                0 <= j < p.len() implies (#[trigger] p[j] matches GpuStep::Draw(w) ==> j > 0 && p[j
                - 1] == GpuStep::MakeCurrent(w)) by {
                if j < steps.len() {
                    assert(p[j] == steps[j]);
                    if j > 0 {
                        assert(p[j - 1] == steps[j - 1]);
                    }
                }
            }
        }
    }
}

/// A tab that emits a wakeup, a title and then its exit is seen renamed
/// before it is closed, and closed once.
pub proof fn lemma_title_then_exit(window_id: u64, tab_id: usize, title: String)
    ensures
        pty_commands(
            seq![
                MultiWindowEvent { wrapped_event: TerminalEvent::Wakeup, window_id: Some(window_id), tab_id },
                MultiWindowEvent { wrapped_event: TerminalEvent::Title(title), window_id: Some(window_id), tab_id },
                MultiWindowEvent { wrapped_event: TerminalEvent::Exit, window_id: Some(window_id), tab_id },
            ],
        ) == seq![
            MultiWindowCommand::SetTabTitle(window_id, tab_id, title),
            MultiWindowCommand::CloseTab(window_id, tab_id),
        ],
{
    let e0 = MultiWindowEvent { wrapped_event: TerminalEvent::Wakeup, window_id: Some(window_id), tab_id };
    let e1 = MultiWindowEvent { wrapped_event: TerminalEvent::Title(title), window_id: Some(window_id), tab_id };
    let e2 = MultiWindowEvent { wrapped_event: TerminalEvent::Exit, window_id: Some(window_id), tab_id };
    let es = seq![e0, e1, e2];
    assert(es.drop_last() =~= seq![e0, e1]);
    assert(seq![e0, e1].drop_last() =~= seq![e0]);
    assert(seq![e0].drop_last() =~= Seq::<MultiWindowEvent>::empty());
    assert(pty_commands(Seq::<MultiWindowEvent>::empty()) =~= Seq::<MultiWindowCommand>::empty());
    assert(seq![e0].last() == e0);
    assert(pty_command(e0) =~= Seq::<MultiWindowCommand>::empty());
    assert(pty_commands(seq![e0]) =~= Seq::<MultiWindowCommand>::empty());
    assert(seq![e0, e1].last() == e1);
    assert(es.last() == e2);
    assert(pty_commands(seq![e0, e1]) =~= seq![MultiWindowCommand::SetTabTitle(window_id, tab_id, title)]);
    assert(pty_commands(es) =~= seq![
        MultiWindowCommand::SetTabTitle(window_id, tab_id, title),
        MultiWindowCommand::CloseTab(window_id, tab_id),
    ]);
}

/// The commands a window-system event issues: losing the focus deactivates
/// the window, a close request closes it. Gaining the focus issues nothing
/// now: it is scheduled for the next iteration.
pub open spec fn lifecycle_commands(e: WindowEvent) -> Seq<MultiWindowCommand> {
    match e {
        WindowEvent::Focused(w, false) => seq![MultiWindowCommand::DeactivateWindow(w)],
        WindowEvent::CloseRequested(w) => seq![MultiWindowCommand::CloseWindow(w)],
        _ => Seq::empty(),
    }
}

impl MultiWindowProcessor {
    pub fn new() -> (r: Self)
        ensures
            r.scheduled_activation.is_none(),
    {
        MultiWindowProcessor { scheduled_activation: None }
    }

    /// Classifies a window-system event at the top of an iteration. A focus
    /// change scheduled by the previous iteration is issued first; a window
    /// gaining the focus is scheduled for the next one, and the loop then
    /// polls so that the next iteration comes promptly.
    pub fn handle_multi_window_events(
        &mut self,
        queue: &mut MultiWindowCommandQueue,
        event: WindowEvent,
    ) -> (r: ControlFlow)
        requires
            old(queue).wf(),
        ensures
            final(queue).wf(),
            final(queue)@ == old(queue)@ + match old(self).scheduled_activation {
                Some(w) => seq![MultiWindowCommand::ActivateWindow(w)],
                None => Seq::empty(),
            } + lifecycle_commands(event),
            final(self).scheduled_activation == match event {
                WindowEvent::Focused(w, true) => Some(w),
                _ => None,
            },
            r == if final(self).scheduled_activation.is_some() {
                ControlFlow::Poll
            } else {
                ControlFlow::Wait
            },
    {
        let ghost q0 = queue@;
        match self.scheduled_activation {
            Some(w) => {
                queue.push(MultiWindowCommand::ActivateWindow(w));
            },
            None => {},
        }
        let ghost q1 = queue@;
        self.scheduled_activation = None;
        match event {
            WindowEvent::Focused(w, focused) => {
                if focused {
                    self.scheduled_activation = Some(w);
                } else {
                    queue.push(MultiWindowCommand::DeactivateWindow(w));
                }
            },
            WindowEvent::CloseRequested(w) => {
                queue.push(MultiWindowCommand::CloseWindow(w));
            },
            _ => {},
        }
        assert(queue@ =~= q1 + lifecycle_commands(event));
        assert(q1 =~= q0 + match old(self).scheduled_activation {
            Some(w) => seq![MultiWindowCommand::ActivateWindow(w)],
            None => Seq::empty(),
        });
        if self.scheduled_activation.is_some() {
            ControlFlow::Poll
        } else {
            ControlFlow::Wait
        }
    }

    /// Handles one forwarded PTY event: an exit or a title becomes a command;
    /// any other event from a known window comes back as the tab whose
    /// terminal is now dirty.
    pub fn handle_pty_event(&self, queue: &mut MultiWindowCommandQueue, event: MultiWindowEvent) -> (r:
        Option<TabHandle>)
        requires
            old(queue).wf(),
        ensures
            final(queue).wf(),
            final(queue)@ == old(queue)@ + pty_command(event),
            r == dirty_tab(event),
    {
        match event.window_id {
            Some(window_id) => {
                let tab_id = event.tab_id;
                match event.wrapped_event {
                    TerminalEvent::Exit => {
                        queue.push(MultiWindowCommand::CloseTab(window_id, tab_id));
                        assert(queue@ =~= old(queue)@ + pty_command(event));
                        None
                    },
                    TerminalEvent::Title(title) => {
                        queue.push(MultiWindowCommand::SetTabTitle(window_id, tab_id, title));
                        assert(queue@ =~= old(queue)@ + pty_command(event));
                        None
                    },
                    _ => {
                        assert(queue@ =~= old(queue)@ + pty_command(event));
                        Some(TabHandle { window_id, tab_id })
                    },
                }
            },
            None => {
                assert(queue@ =~= old(queue)@ + pty_command(event));
                None
            },
        }
    }

    /// Handles forwarded PTY events in the order they arrived; returns the
    /// tabs they mark dirty, in that order.
    pub fn handle_pty_events(&self, queue: &mut MultiWindowCommandQueue, events: Vec<MultiWindowEvent>) -> (r:
        Vec<TabHandle>)
        requires
            old(queue).wf(),
        ensures
            final(queue).wf(),
            final(queue)@ == old(queue)@ + pty_commands(events@),
            r@ == dirty_tabs(events@),
    {
        let ghost all = events@;
        let total = events.len();
        let mut rest = events;
        let mut dirty: Vec<TabHandle> = Vec::new();
        let mut k: usize = 0;
        while rest.len() > 0
            invariant
                queue.wf(),
                all.len() == total,
                0 <= k <= all.len(),
                rest@ == all.subrange(k as int, all.len() as int),
                queue@ == old(queue)@ + pty_commands(all.subrange(0, k as int)),
                dirty@ == dirty_tabs(all.subrange(0, k as int)),
            decreases rest@.len(),
        {
            let event = rest.remove(0);
            let ghost q1 = queue@;
            proof {
                assert(event == all[k as int]);
                assert(all.subrange(0, k + 1).drop_last() =~= all.subrange(0, k as int));
                assert(all.subrange(0, k + 1).last() == all[k as int]);
            }
            match self.handle_pty_event(queue, event) {
                Some(h) => dirty.push(h),
                None => {},
            }
            proof {
                let d1 = match dirty_tab(all[k as int]) {
                    Some(h) => seq![h],
                    None => Seq::<TabHandle>::empty(),
                };
                assert(dirty@ =~= dirty_tabs(all.subrange(0, k as int)) + d1);
            }
            k = k + 1;
            assert(rest@ =~= all.subrange(k as int, all.len() as int));
        }
        assert(all.subrange(0, k as int) =~= all);
        dirty
    }

    /// What the iteration does after the first command run: end when no
    /// window is left, only redraw when none has the focus.
    pub fn after_window_commands(&self, tracker: &WindowContextTracker) -> (r: DisplayCommandResult)
        ensures
            r == if tracker.spec_windows().len() == 0 {
                DisplayCommandResult::Exit
            } else if tracker.spec_active().is_none() {
                DisplayCommandResult::RestartLoop
            } else {
                DisplayCommandResult::Continue
            },
    {
        if tracker.is_empty() {
            DisplayCommandResult::Exit
        } else if !tracker.has_active_window() {
            DisplayCommandResult::RestartLoop
        } else {
            DisplayCommandResult::Continue
        }
    }

    /// The drawing steps for the windows other than the focused one whose
    /// active terminal is dirty (those listed in `dirty`), in registry
    /// order; the focused window's context is made current again at the end
    /// if another one was drawn.
    pub fn draw_inactive_visible_windows(&self, tracker: &WindowContextTracker, dirty: &Vec<u64>) -> (r:
        Vec<GpuStep>)
        ensures
            r@ == inactive_pass(crate::registry::ids(tracker.spec_windows()), tracker.spec_active(), dirty@),
    {
        let active = tracker.active_window_id();
        let n = tracker.window_count();
        let ghost ids = crate::registry::ids(tracker.spec_windows());
        let mut steps: Vec<GpuStep> = Vec::new();
        let mut i: usize = 0;
        while i < n
            invariant
                n == tracker.spec_windows().len(),
                ids == crate::registry::ids(tracker.spec_windows()),
                active == tracker.spec_active(),
                0 <= i <= n,
                steps@ == redraw_steps(ids.subrange(0, i as int), active, dirty@),
            decreases n - i,
        {
            let id = tracker.window_at(i).window_id;
            proof {
                assert(ids.subrange(0, i + 1).drop_last() =~= ids.subrange(0, i as int));
                assert(ids.subrange(0, i + 1)[i as int] == id);
            }
            let is_active = match active {
                Some(a) => a == id,
                None => false,
            };
            if !is_active && contains_id(dirty, id) {
                steps.push(GpuStep::MakeCurrent(id));
                steps.push(GpuStep::Draw(id));
            }
            i = i + 1;
        }
        assert(ids.subrange(0, n as int) =~= ids);
        match active {
            Some(a) => {
                if steps.len() > 0 {
                    steps.push(GpuStep::MakeCurrent(a));
                }
            },
            None => {},
        }
        steps
    }

    /// How the loop waits: it polls while a drag, the visual bell or a
    /// scheduled focus change needs another iteration soon, and waits for an
    /// event otherwise.
    pub fn wait_mode(&self, dragging: bool, bell_animating: bool) -> (r: ControlFlow)
        ensures
            r == if dragging || bell_animating || self.scheduled_activation.is_some() {
                ControlFlow::Poll
            } else {
                ControlFlow::Wait
            },
    {
        if dragging || bell_animating || self.scheduled_activation.is_some() {
            ControlFlow::Poll
        } else {
            ControlFlow::Wait
        }
    }
}

impl MultiWindowProcessor {
    /// Handles a terminal event of the focused window `window_id`'s active
    /// tab: a title renames the window, a wakeup dirties the terminal, an
    /// urgent bell flags the window when it is not focused, a message goes to
    /// the message bar, and an exit queues the closing of the current tab.
    pub fn handle_user_event(
        &self,
        queue: &mut MultiWindowCommandQueue,
        window_id: u64,
        event: TerminalEvent,
        focused: bool,
    ) -> (r: TerminalAction)
        requires
            old(queue).wf(),
        ensures
            final(queue).wf(),
            event is Exit ==> final(queue)@ == old(queue)@.push(
                MultiWindowCommand::CloseCurrentTab(window_id),
            ) && r is Nothing,
            !(event is Exit) ==> final(queue)@ == old(queue)@,
            match event {
                TerminalEvent::Title(t) => r == TerminalAction::SetWindowTitle(t),
                TerminalEvent::Wakeup => r is MarkDirty,
                TerminalEvent::Urgent => r == TerminalAction::SetUrgent(!focused),
                TerminalEvent::ConfigReload(p) => r == TerminalAction::ReloadConfig(p),
                TerminalEvent::Message(m) => r == TerminalAction::PushMessage(m),
                TerminalEvent::MouseCursorDirty => r is ResetMouseCursor,
                TerminalEvent::Exit => true,
            },
    {
        match event {
            TerminalEvent::Title(t) => TerminalAction::SetWindowTitle(t),
            TerminalEvent::Wakeup => TerminalAction::MarkDirty,
            TerminalEvent::Urgent => TerminalAction::SetUrgent(!focused),
            TerminalEvent::ConfigReload(p) => TerminalAction::ReloadConfig(p),
            TerminalEvent::Message(m) => TerminalAction::PushMessage(m),
            TerminalEvent::MouseCursorDirty => TerminalAction::ResetMouseCursor,
            TerminalEvent::Exit => {
                queue.push(MultiWindowCommand::CloseCurrentTab(window_id));
                TerminalAction::Nothing
            },
        }
    }
}

impl MultiWindowEvent {
    /// Tags a terminal event with the tab that emitted it, as its handle
    /// reads at the moment of sending.
    pub fn from_tab(handle: TabHandle, event: TerminalEvent) -> (r: MultiWindowEvent)
        ensures
            r.window_id == Some(handle.window_id),
            r.tab_id == handle.tab_id,
            r.wrapped_event == event,
    {
        MultiWindowEvent { wrapped_event: event, window_id: Some(handle.window_id), tab_id: handle.tab_id }
    }
}

impl MultiWindowProcessor {
    /// The first phases of an iteration, in order: the window-system event
    /// is classified (issuing a focus change scheduled before), at most one
    /// forwarded PTY event is taken in, and the commands so gathered run
    /// against the registry. Returns what the rest of the iteration does and
    /// the tab a PTY event marked dirty, if any.
    pub fn begin_iteration(
        &mut self,
        tracker: &mut WindowContextTracker,
        event: WindowEvent,
        pty_event: Option<MultiWindowEvent>,
        effects: &mut Vec<Effect>,
    ) -> (r: (DisplayCommandResult, Option<TabHandle>))
        requires
            old(tracker).wf(),
        ensures
            final(tracker).wf(),
            final(self).scheduled_activation == match event {
                WindowEvent::Focused(w, true) => Some(w),
                _ => None,
            },
            commands_done(
                *old(tracker),
                *final(tracker),
                match old(self).scheduled_activation {
                    Some(w) => seq![MultiWindowCommand::ActivateWindow(w)],
                    None => Seq::empty(),
                } + lifecycle_commands(event) + match pty_event {
                    Some(e) => pty_command(e),
                    None => Seq::empty(),
                },
                old(effects)@,
                final(effects)@,
            ),
            r.1 == match pty_event {
                Some(e) => dirty_tab(e),
                None => None,
            },
            r.0 == if final(tracker).spec_windows().len() == 0 {
                DisplayCommandResult::Exit
            } else if final(tracker).spec_active().is_none() {
                DisplayCommandResult::RestartLoop
            } else {
                DisplayCommandResult::Continue
            },
    {
        let mut queue = MultiWindowCommandQueue::new();
        self.handle_multi_window_events(&mut queue, event);
        let dirty = match pty_event {
            Some(e) => self.handle_pty_event(&mut queue, e),
            None => None,
        };
        let ghost cmds = queue@;
        assert(cmds =~= match old(self).scheduled_activation {
            Some(w) => seq![MultiWindowCommand::ActivateWindow(w)],
            None => Seq::empty(),
        } + lifecycle_commands(event) + match pty_event {
            Some(e) => pty_command(e),
            None => Seq::empty(),
        });
        queue.run(tracker, effects);
        (self.after_window_commands(tracker), dirty)
    }

    /// The last phases of an iteration, once the focused window's tab bar
    /// and terminal have run (or without a focused window): the commands
    /// they issued run against the registry; the loop ends when no window is
    /// left; otherwise the dirty windows other than the focused one
    /// (`dirty`, by identifier) are drawn, the focused window's context is
    /// made current again, and the loop polls while a drag, the visual bell
    /// or a scheduled focus change needs it and waits otherwise.
    pub fn end_iteration(
        &self,
        tracker: &mut WindowContextTracker,
        queue: &mut MultiWindowCommandQueue,
        dirty: &Vec<u64>,
        dragging: bool,
        bell_animating: bool,
        effects: &mut Vec<Effect>,
    ) -> (r: (Vec<GpuStep>, ControlFlow))
        requires
            old(tracker).wf(),
        ensures
            final(tracker).wf(),
            final(queue).wf(),
            final(queue)@.len() == 0,
            commands_done(*old(tracker), *final(tracker), old(queue)@, old(effects)@, final(effects)@),
            final(tracker).spec_windows().len() == 0 ==> r.0@.len() == 0 && r.1 == ControlFlow::Exit,
            final(tracker).spec_windows().len() > 0 ==> {
                &&& r.0@ == inactive_pass(
                    crate::registry::ids(final(tracker).spec_windows()),
                    final(tracker).spec_active(),
                    dirty@,
                )
                &&& r.1 == if dragging || bell_animating || self.scheduled_activation.is_some() {
                    ControlFlow::Poll
                } else {
                    ControlFlow::Wait
                }
            },
    {
        queue.run(tracker, effects);
        if tracker.is_empty() {
            return (Vec::new(), ControlFlow::Exit);
        }
        let steps = self.draw_inactive_visible_windows(tracker, dirty);
        (steps, self.wait_mode(dragging, bell_animating))
    }

    /// Whether the focused window is drawn after its input ran: its terminal
    /// is dirty, or a window or tab was created in this iteration.
    pub fn should_draw_active(&self, terminal_dirty: bool, created: bool) -> (r: bool)
        ensures
            r == (terminal_dirty || created),
    {
        terminal_dirty || created
    }
}

impl MultiWindowProcessor {
    /// Whether an event is irrelevant to the terminal and is not buffered
    /// for it.
    pub fn skip_event(kind: EventKind) -> (r: bool)
        ensures
            r == skipped_spec(kind),
    {
        match kind {
            EventKind::UserOther | EventKind::OtherWindowEvent | EventKind::ModifiersChanged
            | EventKind::Resumed => false,
            _ => true,
        }
    }
}

} // verus!
