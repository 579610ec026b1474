use vstd::prelude::*;
use crate::registry::{
    Effect, WindowContextTracker, has_window, create_window_context_done, activate_window_done,
    deactivate_window_done, close_window_done, create_tab_done, move_tab_done, set_tab_title_done,
    activate_tab_done, close_current_tab_done, close_tab_done,
};

verus! {

/// A deferred change to the set of windows or to the tabs of one window.
/// Window identifiers are those of the registry; tab identifiers are indices
/// into the window's tab collection at the time the command runs.
#[derive(Debug)]
pub enum MultiWindowCommand {
    CreateWindow,
    ActivateWindow(u64),
    DeactivateWindow(u64),
    CloseWindow(u64),
    CreateTab(u64),
    MoveTab(u64, usize, usize),
    SetTabTitle(u64, usize, String),
    ActivateTab(u64, usize),
    CloseCurrentTab(u64),
    CloseTab(u64, usize),
}

/// The commands collected during one phase of an iteration, in the order
/// they were issued.
pub struct MultiWindowCommandQueue {
    queue: Vec<MultiWindowCommand>,
    has_create: bool,
}

impl View for MultiWindowCommandQueue {
    type V = Seq<MultiWindowCommand>;

    closed spec fn view(&self) -> Seq<MultiWindowCommand> {
        self.queue@
    }
}

/// Whether a command creates a window.
pub open spec fn is_create(c: MultiWindowCommand) -> bool {
    c is CreateWindow
}

impl MultiWindowCommandQueue {
    /// Whether any queued command creates a window.
    pub closed spec fn spec_has_create(&self) -> bool {
        self.has_create
    }

    /// The flag agrees with the queued commands.
    pub open spec fn wf(&self) -> bool {
        self.spec_has_create() == exists|i: int| 0 <= i < self@.len() && is_create(#[trigger] self@[i])
    }

    pub fn new() -> (r: Self)
        ensures
            r.wf(),
            r@.len() == 0,
    {
        MultiWindowCommandQueue { queue: Vec::new(), has_create: false }
    }

    /// Appends a command.
    pub fn push(&mut self, command: MultiWindowCommand)
        requires
            old(self).wf(),
        ensures
            final(self).wf(),
            final(self)@ == old(self)@.push(command),
    {
        if matches!(command, MultiWindowCommand::CreateWindow) {
            self.has_create = true;
        }
        self.queue.push(command);
        proof {
            if is_create(command) {
                assert(is_create(self@[self@.len() - 1]));
            }
            if !self.has_create {
                assert forall|i: int| 0 <= i < self@.len() implies !is_create(#[trigger] self@[i]) by {
                    if i < old(self)@.len() {
                        assert(old(self)@[i] == self@[i]);
                    }
                }
            }
            if old(self).has_create {
                let i = choose|i: int| 0 <= i < old(self)@.len() && is_create(#[trigger] old(self)@[i]);
                assert(is_create(self@[i]));
            }
        }
    }

    /// The queued commands, in order.
    pub fn commands(&self) -> (r: &Vec<MultiWindowCommand>)
        ensures
            r@ == self@,
    {
        &self.queue
    }

    /// Whether a window creation is queued.
    pub fn has_create_window_command(&self) -> (r: bool)
        requires
            self.wf(),
        ensures
            r == exists|i: int| 0 <= i < self@.len() && is_create(#[trigger] self@[i]),
    {
        self.has_create
    }

    pub fn len(&self) -> (r: usize)
        ensures
            r == self@.len(),
    {
        self.queue.len()
    }

    /// Takes every queued command out, in order, leaving the queue empty.
    pub fn take_all(&mut self) -> (r: Vec<MultiWindowCommand>)
        ensures
            final(self).wf(),
            final(self)@.len() == 0,
            r@ == old(self)@,
    {
        let mut r: Vec<MultiWindowCommand> = Vec::new();
        r.append(&mut self.queue);
        self.has_create = false;
        r
    }
}

/// What applying `c` to the registry `before`, with the effects `e0`
/// queued, leaves behind: the registry `after` and the effects `e1`.
pub open spec fn command_done(
    before: WindowContextTracker,
    after: WindowContextTracker,
    c: MultiWindowCommand,
    e0: Seq<Effect>,
    e1: Seq<Effect>,
) -> bool {
    match c {
        MultiWindowCommand::CreateWindow => create_window_context_done(before, after, e0, e1),
        MultiWindowCommand::ActivateWindow(id) => activate_window_done(before, after, id) && e1 == e0,
        MultiWindowCommand::DeactivateWindow(id) => deactivate_window_done(before, after, id) && e1
            == e0,
        MultiWindowCommand::CloseWindow(id) => close_window_done(before, after, id, e0, e1),
        MultiWindowCommand::CreateTab(id) => create_tab_done(before, after, id, e0, e1),
        MultiWindowCommand::MoveTab(id, from, to) => move_tab_done(before, after, id, from, to, e0, e1),
        MultiWindowCommand::SetTabTitle(id, tab_id, title) => set_tab_title_done(
            before,
            after,
            id,
            tab_id,
            title,
            e0,
            e1,
        ),
        MultiWindowCommand::ActivateTab(id, tab_id) => activate_tab_done(before, after, id, tab_id, e0, e1),
        MultiWindowCommand::CloseCurrentTab(id) => close_current_tab_done(before, after, id, e0, e1),
        MultiWindowCommand::CloseTab(id, tab_id) => close_tab_done(before, after, id, tab_id, e0, e1),
    }
}

/// Running `cmds` in order takes the registry from `before` to `after` and
/// the effects from `e0` to `e1`: some chain of registries and effects links
/// them, one command at a time.
pub open spec fn commands_done(
    before: WindowContextTracker,
    after: WindowContextTracker,
    cmds: Seq<MultiWindowCommand>,
    e0: Seq<Effect>,
    e1: Seq<Effect>,
) -> bool {
    exists|states: Seq<WindowContextTracker>, effs: Seq<Seq<Effect>>|
        {
            &&& states.len() == cmds.len() + 1
            &&& effs.len() == cmds.len() + 1
            &&& states[0] == before
            &&& effs[0] == e0
            &&& states.last() == after
            &&& effs.last() == e1
            &&& forall|k: int|
                0 <= k < cmds.len() ==> #[trigger] command_done(
                    states[k],
                    states[k + 1],
                    cmds[k],
                    effs[k],
                    effs[k + 1],
                )
        }
}

/// Applies one command to the registry, appending the work it leaves to
/// `effects`. Commands naming an unknown window or tab change nothing.
pub fn apply_command(
    tracker: &mut WindowContextTracker,
    command: MultiWindowCommand,
    effects: &mut Vec<Effect>,
)
    requires
        old(tracker).wf(),
    ensures
        final(tracker).wf(),
        command_done(*old(tracker), *final(tracker), command, old(effects)@, final(effects)@),
        final(tracker).spec_next_window() >= old(tracker).spec_next_window(),
        final(tracker).spec_next_pty() >= old(tracker).spec_next_pty(),
        old(tracker).spec_closed().subset_of(final(tracker).spec_closed()),
        old(effects)@.is_prefix_of(final(effects)@),
{
    let ghost e0 = effects@;
    match command {
        MultiWindowCommand::CreateWindow => {
            tracker.create_window_context(effects);
        },
        MultiWindowCommand::ActivateWindow(id) => {
            tracker.activate_window(id);
        },
        MultiWindowCommand::DeactivateWindow(id) => {
            tracker.deactivate_window(id);
        },
        MultiWindowCommand::CloseWindow(id) => {
            tracker.close_window(id, effects);
        },
        MultiWindowCommand::CreateTab(id) => {
            tracker.create_tab(id, effects);
        },
        MultiWindowCommand::MoveTab(id, from, to) => {
            tracker.move_tab(id, from, to, effects);
        },
        MultiWindowCommand::SetTabTitle(id, tab_id, title) => {
            tracker.set_tab_title(id, tab_id, title, effects);
        },
        MultiWindowCommand::ActivateTab(id, tab_id) => {
            tracker.activate_tab(id, tab_id, effects);
        },
        MultiWindowCommand::CloseCurrentTab(id) => {
            tracker.close_current_tab(id, effects);
            proof {
                if has_window(old(tracker).spec_windows(), id) {
                    let i = choose|i: int|
                        0 <= i < old(tracker).spec_windows().len() && (#[trigger] old(
                            tracker,
                        ).spec_windows()[i]).window_id == id;
                    assert(old(tracker).spec_windows()[i].window_id == id);
                }
            }
        },
        MultiWindowCommand::CloseTab(id, tab_id) => {
            tracker.close_tab(id, tab_id, effects);
            proof {
                if has_window(old(tracker).spec_windows(), id) {
                    let i = choose|i: int|
                        0 <= i < old(tracker).spec_windows().len() && (#[trigger] old(
                            tracker,
                        ).spec_windows()[i]).window_id == id;
                    assert(old(tracker).spec_windows()[i].window_id == id);
                }
            }
        },
    }
    assert(e0 =~= effects@.subrange(0, e0.len() as int));
}

impl MultiWindowCommandQueue {
    /// Drains the queue, applying its commands to the registry in the order
    /// they were issued; the work they leave is appended to `effects`.
    pub fn run(&mut self, tracker: &mut WindowContextTracker, effects: &mut Vec<Effect>)
        requires
            old(tracker).wf(),
        ensures
            final(self).wf(),
            final(self)@.len() == 0,
            final(tracker).wf(),
            final(tracker).spec_next_window() >= old(tracker).spec_next_window(),
            old(tracker).spec_closed().subset_of(final(tracker).spec_closed()),
            old(effects)@.is_prefix_of(final(effects)@),
            commands_done(*old(tracker), *final(tracker), old(self)@, old(effects)@, final(effects)@),
    {
        let mut rest = self.take_all();
        let ghost cmds = rest@;
        let ghost mut states: Seq<WindowContextTracker> = seq![*tracker];
        let ghost mut effs: Seq<Seq<Effect>> = seq![effects@];
        let ghost mut k: int = 0;
        let ghost e0 = effects@;
        let ghost t0 = *tracker;
        while rest.len() > 0
            invariant
                tracker.wf(),
                0 <= k <= cmds.len(),
                rest@ == cmds.subrange(k, cmds.len() as int),
                states.len() == k + 1,
                effs.len() == k + 1,
                states[0] == t0,
                effs[0] == e0,
                states.last() == *tracker,
                effs.last() == effects@,
                forall|j: int|
                    0 <= j < k ==> #[trigger] command_done(
                        states[j],
                        states[j + 1],
                        cmds[j],
                        effs[j],
                        effs[j + 1],
                    ),
                tracker.spec_next_window() >= t0.spec_next_window(),
                t0.spec_closed().subset_of(tracker.spec_closed()),
                e0.is_prefix_of(effects@),
            decreases rest@.len(),
        {
            let command = rest.remove(0);
            let ghost e1 = effects@;
            let ghost before = *tracker;
            assert(command == cmds[k]);
            apply_command(tracker, command, effects);
            proof {
                let s0 = states;
                let f0 = effs;
                states = states.push(*tracker);
                effs = effs.push(effects@);
                assert forall|j: int|
                    0 <= j < k + 1 implies #[trigger] command_done(
                        states[j],
                        states[j + 1],
                        cmds[j],
                        effs[j],
                        effs[j + 1],
                    ) by {
                    if j < k {
                        assert(states[j] == s0[j] && states[j + 1] == s0[j + 1]);
                        assert(effs[j] == f0[j] && effs[j + 1] == f0[j + 1]);
                    } else {
                        assert(states[j] == before);
                        assert(effs[j] == e1);
                    }
                }
                k = k + 1;
                assert(rest@ =~= cmds.subrange(k, cmds.len() as int));
            }
            assert(e0 =~= effects@.subrange(0, e0.len() as int)) by {
                assert(e0 =~= e1.subrange(0, e0.len() as int));
                assert(e1 =~= effects@.subrange(0, e1.len() as int));
            }
        }
        assert(k == cmds.len());
        assert(commands_done(t0, *tracker, cmds, e0, effects@));
    }
}

} // verus!
