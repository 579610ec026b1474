use alacritty::{
    BarGeometry, ControlFlow, CursorIcon, DisplayCommandResult, Effect, GpuStep,
    MultiWindowCommand, MultiWindowCommandQueue, MultiWindowEvent, MultiWindowProcessor, Position,
    TabHandle, TerminalAction, EventKind,
    TabBarEvent, TabBarProcessor, TermTabCollection, TerminalEvent, WindowContextTracker,
    WindowEvent, apply_command,
};

fn start() -> (WindowContextTracker, Vec<Effect>) {
    let mut t = WindowContextTracker::new();
    let mut effects = Vec::new();
    assert_eq!(t.create_window_context(&mut effects), Some(0));
    (t, effects)
}

fn tabs_of(t: &WindowContextTracker, id: u64) -> &TermTabCollection {
    &t.get_context(id).unwrap().term_tab_collection
}

fn titles(c: &TermTabCollection) -> Vec<String> {
    (0..c.tab_count()).map(|i| c.tab(i).title.clone()).collect()
}

fn assert_handles(t: &WindowContextTracker) {
    for w in 0..t.window_count() {
        let ctx = t.window_at(w);
        let c = &ctx.term_tab_collection;
        for i in 0..c.tab_count() {
            assert_eq!(c.tab(i).handle.tab_id, i);
            assert_eq!(c.tab(i).handle.window_id, ctx.window_id);
        }
    }
}

#[test]
fn startup_has_one_window_with_one_tab() {
    let (t, effects) = start();
    assert_eq!(t.window_count(), 1);
    assert_eq!(t.active_window_id(), Some(0));
    let c = tabs_of(&t, 0);
    assert_eq!(c.tab_count(), 1);
    assert_eq!(c.tab(0).handle.tab_id, 0);
    assert_eq!(
        effects,
        vec![
            Effect::OpenWindow { window_id: 0, previous_active: None },
            Effect::SpawnPty { window_id: 0, pty: 0, tab_id: 0, previous_active: 0 }
        ]
    );
}

#[test]
fn create_activate_close_tabs_through_the_queue() {
    let (mut t, mut effects) = start();
    let mut q = MultiWindowCommandQueue::new();
    q.push(MultiWindowCommand::CreateTab(0));
    q.push(MultiWindowCommand::CreateTab(0));
    q.push(MultiWindowCommand::SetTabTitle(0, 0, String::from("zero")));
    q.push(MultiWindowCommand::SetTabTitle(0, 1, String::from("one")));
    q.push(MultiWindowCommand::SetTabTitle(0, 2, String::from("two")));
    q.run(&mut t, &mut effects);
    assert_eq!(q.len(), 0);
    q.push(MultiWindowCommand::ActivateTab(0, 1));
    q.push(MultiWindowCommand::CloseTab(0, 0));
    q.run(&mut t, &mut effects);
    let c = tabs_of(&t, 0);
    assert_eq!(c.tab_count(), 2);
    assert_eq!(titles(c), vec!["one", "two"]);
    assert_eq!(c.tab(0).pty, 1);
    assert_eq!(c.tab(1).pty, 2);
    assert_eq!(c.active_index(), 0);
    assert_handles(&t);
    assert!(effects.contains(&Effect::ShutdownAndJoin(0)));
}

#[test]
fn exit_of_last_tab_closes_window_and_ends_loop() {
    let (mut t, mut effects) = start();
    let p = MultiWindowProcessor::new();
    let mut q = MultiWindowCommandQueue::new();
    let dirty = p.handle_pty_event(
        &mut q,
        MultiWindowEvent { wrapped_event: TerminalEvent::Exit, window_id: Some(0), tab_id: 0 },
    );
    assert!(dirty.is_none());
    assert!(matches!(q.commands()[0], MultiWindowCommand::CloseTab(0, 0)));
    effects.clear();
    q.run(&mut t, &mut effects);
    assert!(t.is_empty());
    assert!(!t.has_active_window());
    assert_eq!(effects, vec![Effect::ShutdownAndJoin(0), Effect::DestroyWindow(0)]);
    assert_eq!(p.after_window_commands(&t), DisplayCommandResult::Exit);
}

#[test]
fn closing_a_tab_joins_its_pty_first() {
    let (mut t, mut effects) = start();
    t.create_tab(0, &mut effects);
    effects.clear();
    assert_eq!(t.close_tab(0, 1, &mut effects), Some(1));
    assert_eq!(
        effects,
        vec![Effect::ShutdownAndJoin(1), Effect::UpdateSize(0), Effect::RequestRedraw(0)]
    );
}

#[test]
fn close_window_joins_every_tab() {
    let (mut t, mut effects) = start();
    t.create_tab(0, &mut effects);
    t.create_tab(0, &mut effects);
    effects.clear();
    t.close_window(0, &mut effects);
    assert_eq!(
        effects,
        vec![
            Effect::ShutdownAndJoin(0),
            Effect::ShutdownAndJoin(1),
            Effect::ShutdownAndJoin(2),
            Effect::DestroyWindow(0)
        ]
    );
    assert!(t.is_empty());
    assert_eq!(t.active_window_id(), None);
}

#[test]
fn registry_empty_only_when_all_created_windows_closed() {
    let (mut t, mut effects) = start();
    let mut q = MultiWindowCommandQueue::new();
    q.push(MultiWindowCommand::CreateWindow);
    assert!(q.has_create_window_command());
    q.push(MultiWindowCommand::CloseWindow(0));
    q.run(&mut t, &mut effects);
    assert!(!t.is_empty());
    assert_eq!(t.active_window_id(), Some(1));
    q.push(MultiWindowCommand::CloseCurrentTab(1));
    q.run(&mut t, &mut effects);
    assert!(t.is_empty());
}

#[test]
fn unknown_window_commands_change_nothing() {
    let (mut t, mut effects) = start();
    effects.clear();
    let mut q = MultiWindowCommandQueue::new();
    q.push(MultiWindowCommand::ActivateTab(9, 0));
    q.push(MultiWindowCommand::CloseTab(9, 0));
    q.push(MultiWindowCommand::CloseWindow(9));
    q.push(MultiWindowCommand::ActivateWindow(9));
    q.run(&mut t, &mut effects);
    assert!(effects.is_empty());
    assert_eq!(t.active_window_id(), Some(0));
    assert_eq!(t.window_count(), 1);
}

#[test]
fn deactivate_only_clears_matching_window() {
    let (mut t, mut effects) = start();
    t.create_window_context(&mut effects);
    let mut q = MultiWindowCommandQueue::new();
    q.push(MultiWindowCommand::DeactivateWindow(0));
    q.run(&mut t, &mut effects);
    assert_eq!(t.active_window_id(), Some(1));
    apply_command(&mut t, MultiWindowCommand::DeactivateWindow(1), &mut effects);
    assert_eq!(t.active_window_id(), None);
    let p = MultiWindowProcessor::new();
    assert_eq!(p.after_window_commands(&t), DisplayCommandResult::RestartLoop);
    apply_command(&mut t, MultiWindowCommand::ActivateWindow(0), &mut effects);
    assert_eq!(p.after_window_commands(&t), DisplayCommandResult::Continue);
}

#[test]
fn pty_events_keep_their_order() {
    let p = MultiWindowProcessor::new();
    let mut q = MultiWindowCommandQueue::new();
    let events = vec![
        MultiWindowEvent { wrapped_event: TerminalEvent::Wakeup, window_id: Some(3), tab_id: 1 },
        MultiWindowEvent {
            wrapped_event: TerminalEvent::Title(String::from("x")),
            window_id: Some(3),
            tab_id: 1,
        },
        MultiWindowEvent { wrapped_event: TerminalEvent::Exit, window_id: Some(3), tab_id: 1 },
    ];
    let dirty = p.handle_pty_events(&mut q, events);
    assert_eq!(dirty.len(), 1);
    assert_eq!(dirty[0].window_id, 3);
    let cmds = q.commands();
    assert_eq!(cmds.len(), 2);
    match &cmds[0] {
        MultiWindowCommand::SetTabTitle(3, 1, s) => assert_eq!(s, "x"),
        other => panic!("unexpected {:?}", other),
    }
    assert!(matches!(cmds[1], MultiWindowCommand::CloseTab(3, 1)));
}

#[test]
fn pty_event_without_window_is_dropped() {
    let p = MultiWindowProcessor::new();
    let mut q = MultiWindowCommandQueue::new();
    let r = p.handle_pty_event(
        &mut q,
        MultiWindowEvent { wrapped_event: TerminalEvent::Exit, window_id: None, tab_id: 0 },
    );
    assert!(r.is_none());
    assert_eq!(q.len(), 0);
}

#[test]
fn focus_is_applied_one_iteration_later() {
    let mut p = MultiWindowProcessor::new();
    let mut q = MultiWindowCommandQueue::new();
    assert_eq!(p.handle_multi_window_events(&mut q, WindowEvent::Focused(2, true)), ControlFlow::Poll);
    assert_eq!(q.len(), 0);
    assert_eq!(p.handle_multi_window_events(&mut q, WindowEvent::CloseRequested(5)), ControlFlow::Wait);
    assert_eq!(q.len(), 2);
    assert!(matches!(q.commands()[0], MultiWindowCommand::ActivateWindow(2)));
    assert!(matches!(q.commands()[1], MultiWindowCommand::CloseWindow(5)));
    p.handle_multi_window_events(&mut q, WindowEvent::Focused(5, false));
    assert!(matches!(q.commands()[2], MultiWindowCommand::DeactivateWindow(5)));
    assert_eq!(p.wait_mode(false, false), ControlFlow::Wait);
    assert_eq!(p.wait_mode(true, false), ControlFlow::Poll);
}

#[test]
fn inactive_dirty_window_is_drawn_and_active_context_restored() {
    let (mut t, mut effects) = start();
    t.create_window_context(&mut effects);
    t.activate_window(0);
    let p = MultiWindowProcessor::new();
    let steps = p.draw_inactive_visible_windows(&t, &vec![1]);
    assert_eq!(
        steps,
        vec![GpuStep::MakeCurrent(1), GpuStep::Draw(1), GpuStep::MakeCurrent(0)]
    );
    let steps = p.draw_inactive_visible_windows(&t, &vec![0]);
    assert!(steps.is_empty());
}

#[test]
fn inactive_windows_drawn_without_active() {
    let (mut t, mut effects) = start();
    t.create_window_context(&mut effects);
    t.deactivate_window(1);
    let p = MultiWindowProcessor::new();
    let steps = p.draw_inactive_visible_windows(&t, &vec![1, 0]);
    assert_eq!(
        steps,
        vec![
            GpuStep::MakeCurrent(0),
            GpuStep::Draw(0),
            GpuStep::MakeCurrent(1),
            GpuStep::Draw(1)
        ]
    );
}

fn moved(p: &mut TabBarProcessor, c: &TermTabCollection, geo: BarGeometry, x: i32, y: i32, q: &mut MultiWindowCommandQueue) {
    p.handle_event(c, geo, 0, TabBarEvent::CursorMoved(Position { x, y }), q);
}

#[test]
fn drag_tab_past_one_and_a_half_widths_moves_it() {
    let (mut t, mut effects) = start();
    t.create_tab(0, &mut effects);
    t.create_tab(0, &mut effects);
    t.activate_tab(0, 0, &mut effects);
    let geo = BarGeometry { window_width: 300, bar_height: 24 };
    let mut bar = TabBarProcessor::new();
    let mut q = MultiWindowCommandQueue::new();
    let c = tabs_of(&t, 0);
    moved(&mut bar, c, geo, 50, 10, &mut q);
    let out = bar.handle_event(c, geo, 0, TabBarEvent::MouseInput { pressed: true, left: true }, &mut q);
    assert!(out.skip_processor_run);
    moved(&mut bar, c, geo, 200, 10, &mut q);
    let out = bar.handle_event(c, geo, 0, TabBarEvent::MouseInput { pressed: false, left: true }, &mut q);
    assert!(out.need_redraw);
    assert_eq!(q.len(), 2);
    assert!(matches!(q.commands()[0], MultiWindowCommand::ActivateTab(0, 0)));
    assert!(matches!(q.commands()[1], MultiWindowCommand::MoveTab(0, 0, 2)));
    t.set_tab_title(0, 0, String::from("a"), &mut effects);
    t.set_tab_title(0, 1, String::from("b"), &mut effects);
    t.set_tab_title(0, 2, String::from("c"), &mut effects);
    q.run(&mut t, &mut effects);
    let c = tabs_of(&t, 0);
    assert_eq!(titles(c), vec!["b", "c", "a"]);
    assert_eq!(c.active_index(), 2);
    assert_handles(&t);
}

#[test]
fn detached_drag_drops_back() {
    let (mut t, mut effects) = start();
    t.create_tab(0, &mut effects);
    let geo = BarGeometry { window_width: 200, bar_height: 24 };
    let mut bar = TabBarProcessor::new();
    let mut q = MultiWindowCommandQueue::new();
    let c = tabs_of(&t, 0);
    moved(&mut bar, c, geo, 50, 10, &mut q);
    bar.handle_event(c, geo, 0, TabBarEvent::MouseInput { pressed: true, left: true }, &mut q);
    moved(&mut bar, c, geo, 150, 10 + 37, &mut q);
    {
        let d = bar.tab_bar_state.dragging_info.as_ref().unwrap();
        assert!(d.is_detached);
        assert_eq!(d.ghost_tab_index, None);
    }
    bar.handle_event(c, geo, 0, TabBarEvent::RedrawRequested, &mut q);
    assert_eq!(bar.tab_bar_state.tab_count(), 1);
    assert_eq!(bar.tab_bar_state.tab_state(0).width, 200);
    bar.handle_event(c, geo, 0, TabBarEvent::MouseInput { pressed: false, left: true }, &mut q);
    assert_eq!(q.len(), 1);
    assert!(bar.tab_bar_state.dragging_info.is_none());
}

#[test]
fn press_on_close_hotspot_closes_tab() {
    let (mut t, mut effects) = start();
    t.create_tab(0, &mut effects);
    let geo = BarGeometry { window_width: 200, bar_height: 24 };
    let mut bar = TabBarProcessor::new();
    let mut q = MultiWindowCommandQueue::new();
    let c = tabs_of(&t, 0);
    let out = bar.handle_event(c, geo, 0, TabBarEvent::CursorMoved(Position { x: 115, y: 5 }), &mut q);
    assert_eq!(out.cursor_icon, Some(CursorIcon::Hand));
    assert_eq!(bar.tab_bar_state.hovered_tab, Some(1));
    bar.handle_event(c, geo, 0, TabBarEvent::MouseInput { pressed: true, left: true }, &mut q);
    assert!(matches!(q.commands()[0], MultiWindowCommand::CloseTab(0, 1)));
}

#[test]
fn events_below_strip_reach_the_terminal() {
    let (mut t, mut effects) = start();
    t.create_tab(0, &mut effects);
    let geo = BarGeometry { window_width: 200, bar_height: 24 };
    let mut bar = TabBarProcessor::new();
    let mut q = MultiWindowCommandQueue::new();
    let c = tabs_of(&t, 0);
    let out = bar.handle_event(c, geo, 0, TabBarEvent::CursorMoved(Position { x: 50, y: 100 }), &mut q);
    assert!(!out.skip_processor_run);
    assert_eq!(out.cursor_icon, Some(CursorIcon::Default));
    let out = bar.handle_event(c, geo, 0, TabBarEvent::MouseInput { pressed: true, left: true }, &mut q);
    assert!(!out.skip_processor_run);
    assert_eq!(q.len(), 0);
}

#[test]
fn strip_layout_on_redraw() {
    let (mut t, mut effects) = start();
    t.create_tab(0, &mut effects);
    t.create_tab(0, &mut effects);
    t.set_tab_title(0, 1, String::from("mid"), &mut effects);
    let geo = BarGeometry { window_width: 300, bar_height: 24 };
    let mut bar = TabBarProcessor::new();
    let mut q = MultiWindowCommandQueue::new();
    let c = tabs_of(&t, 0);
    let out = bar.handle_event(c, geo, 0, TabBarEvent::RedrawRequested, &mut q);
    assert!(!out.skip_processor_run);
    let s = &bar.tab_bar_state;
    assert_eq!(s.tab_count(), 3);
    assert_eq!(s.tab_state(1).x, 100);
    assert_eq!(s.tab_state(2).x, 200);
    assert_eq!(s.tab_state(1).title, "mid");
    assert!(s.tab_state(2).active);
    assert!(!s.tab_state(0).active);
    assert_eq!(s.active_tab_index, Some(2));
}

#[test]
fn user_events_of_the_focused_terminal() {
    let p = MultiWindowProcessor::new();
    let mut q = MultiWindowCommandQueue::new();
    match p.handle_user_event(&mut q, 4, TerminalEvent::Title(String::from("vim")), true) {
        TerminalAction::SetWindowTitle(t) => assert_eq!(t, "vim"),
        other => panic!("unexpected {:?}", other),
    }
    assert!(matches!(p.handle_user_event(&mut q, 4, TerminalEvent::Urgent, false), TerminalAction::SetUrgent(true)));
    assert!(matches!(p.handle_user_event(&mut q, 4, TerminalEvent::Urgent, true), TerminalAction::SetUrgent(false)));
    assert!(matches!(p.handle_user_event(&mut q, 4, TerminalEvent::Wakeup, true), TerminalAction::MarkDirty));
    assert!(matches!(
        p.handle_user_event(&mut q, 4, TerminalEvent::MouseCursorDirty, true),
        TerminalAction::ResetMouseCursor
    ));
    assert_eq!(q.len(), 0);
    assert!(matches!(p.handle_user_event(&mut q, 4, TerminalEvent::Exit, true), TerminalAction::Nothing));
    assert_eq!(q.len(), 1);
    assert!(matches!(q.commands()[0], MultiWindowCommand::CloseCurrentTab(4)));
}

#[test]
fn forwarded_event_carries_its_handle() {
    let e = MultiWindowEvent::from_tab(TabHandle { window_id: 2, tab_id: 5 }, TerminalEvent::Wakeup);
    assert_eq!(e.window_id, Some(2));
    assert_eq!(e.tab_id, 5);
    assert!(matches!(e.wrapped_event, TerminalEvent::Wakeup));
}

#[test]
fn tab_bar_hidden_with_one_tab() {
    let (t, _) = start();
    let geo = BarGeometry { window_width: 200, bar_height: 24 };
    let mut bar = TabBarProcessor::new();
    let mut q = MultiWindowCommandQueue::new();
    let c = tabs_of(&t, 0);
    bar.handle_event(c, geo, 0, TabBarEvent::RedrawRequested, &mut q);
    assert!(!bar.tab_bar_state.tab_bar_visible());
    let out = bar.handle_event(c, geo, 0, TabBarEvent::CursorMoved(Position { x: 10, y: 5 }), &mut q);
    assert!(!out.skip_processor_run);
}

#[test]
fn iteration_with_last_exit_ends_the_loop() {
    let (mut t, mut effects) = start();
    let mut p = MultiWindowProcessor::new();
    let (next, dirty) = p.begin_iteration(
        &mut t,
        WindowEvent::Other,
        Some(MultiWindowEvent { wrapped_event: TerminalEvent::Exit, window_id: Some(0), tab_id: 0 }),
        &mut effects,
    );
    assert_eq!(next, DisplayCommandResult::Exit);
    assert!(dirty.is_none());
    assert!(t.is_empty());
}

#[test]
fn iteration_defers_focus_by_one_tick() {
    let (mut t, mut effects) = start();
    t.create_window_context(&mut effects);
    t.deactivate_window(1);
    let mut p = MultiWindowProcessor::new();
    let (next, _) = p.begin_iteration(&mut t, WindowEvent::Focused(0, true), None, &mut effects);
    assert_eq!(next, DisplayCommandResult::RestartLoop);
    assert_eq!(t.active_window_id(), None);
    let (next, dirty) = p.begin_iteration(
        &mut t,
        WindowEvent::Other,
        Some(MultiWindowEvent { wrapped_event: TerminalEvent::Wakeup, window_id: Some(1), tab_id: 0 }),
        &mut effects,
    );
    assert_eq!(next, DisplayCommandResult::Continue);
    assert_eq!(t.active_window_id(), Some(0));
    assert_eq!(dirty, Some(TabHandle { window_id: 1, tab_id: 0 }));
    assert!(p.should_draw_active(false, true));
    assert!(!p.should_draw_active(false, false));
}

#[test]
fn focused_window_tab_bar_through_registry() {
    let (mut t, mut effects) = start();
    t.create_tab(0, &mut effects);
    let geo = BarGeometry { window_width: 200, bar_height: 24 };
    let mut q = MultiWindowCommandQueue::new();
    t.handle_tab_bar_event(geo, TabBarEvent::CursorMoved(Position { x: 150, y: 5 }), &mut q);
    let out = t
        .handle_tab_bar_event(geo, TabBarEvent::MouseInput { pressed: true, left: true }, &mut q)
        .unwrap();
    assert!(out.skip_processor_run);
    assert!(matches!(q.commands()[0], MultiWindowCommand::ActivateTab(0, 1)));
    t.deactivate_window(0);
    assert!(t.handle_tab_bar_event(geo, TabBarEvent::Other, &mut q).is_none());
}

#[test]
fn initialize_and_getters() {
    let mut t = WindowContextTracker::new();
    let mut effects = Vec::new();
    assert!(t.get_active_window_context().is_none());
    assert_eq!(t.initialize(&mut effects), Some(0));
    t.create_tab(0, &mut effects);
    let ctx = t.get_active_window_context().unwrap();
    assert_eq!(ctx.window_id, 0);
    assert_eq!(ctx.get_active_tab().unwrap().handle.tab_id, 1);
    assert_eq!(ctx.term_tab_collection.get_active_tab().pty, 1);
    assert_eq!(t.get_all_window_contexts().len(), 1);
    assert!(t.get_context(3).is_none());
    assert_eq!(t.find(0), Some(0));
}

#[test]
fn cursor_above_window_stays_in_strip() {
    let (mut t, mut effects) = start();
    t.create_tab(0, &mut effects);
    let geo = BarGeometry { window_width: 200, bar_height: 24 };
    let mut bar = TabBarProcessor::new();
    let mut q = MultiWindowCommandQueue::new();
    let c = tabs_of(&t, 0);
    let out = bar.handle_event(c, geo, 0, TabBarEvent::CursorMoved(Position { x: 150, y: -1 }), &mut q);
    assert!(out.skip_processor_run);
    assert_eq!(bar.tab_bar_state.hovered_tab, Some(1));
}

#[test]
fn dragged_ghost_follows_the_cursor() {
    let (mut t, mut effects) = start();
    t.create_tab(0, &mut effects);
    t.create_tab(0, &mut effects);
    t.set_tab_title(0, 0, String::from("first"), &mut effects);
    let geo = BarGeometry { window_width: 300, bar_height: 24 };
    let mut bar = TabBarProcessor::new();
    let mut q = MultiWindowCommandQueue::new();
    let c = tabs_of(&t, 0);
    moved(&mut bar, c, geo, 50, 10, &mut q);
    bar.handle_event(c, geo, 0, TabBarEvent::MouseInput { pressed: true, left: true }, &mut q);
    moved(&mut bar, c, geo, 90, 12, &mut q);
    assert!(bar.is_mouse_down);
    assert_eq!(bar.mouse_down_position, Some(Position { x: 50, y: 10 }));
    let g = bar.tab_bar_state.dragged_tab.as_ref().unwrap();
    assert_eq!(g.x, 40);
    assert_eq!(g.y, 0);
    assert_eq!(g.width, 100);
    assert_eq!(g.title, "first");
    let d = bar.tab_bar_state.dragging_info.as_ref().unwrap();
    assert_eq!(d.tab_id, 0);
    assert_eq!(d.ghost_tab_index, Some(0));
    // Far down, the ghost detaches and follows the cursor vertically.
    moved(&mut bar, c, geo, 90, 10 + 40, &mut q);
    let g = bar.tab_bar_state.dragged_tab.as_ref().unwrap();
    assert_eq!(g.y, 40);
    assert!(bar.tab_bar_state.dragging_info.as_ref().unwrap().is_detached);
}

#[test]
fn failed_window_open_restores_focus() {
    let (mut t, mut effects) = start();
    effects.clear();
    assert_eq!(t.create_window_context(&mut effects), Some(1));
    assert_eq!(effects[0], Effect::OpenWindow { window_id: 1, previous_active: Some(0) });
    t.abandon_window(1, Some(0));
    assert_eq!(t.window_count(), 1);
    assert_eq!(t.active_window_id(), Some(0));
    assert!(t.get_context(1).is_none());
}

#[test]
fn failed_pty_spawn_restores_tabs() {
    let (mut t, mut effects) = start();
    t.create_tab(0, &mut effects);
    t.activate_tab(0, 0, &mut effects);
    effects.clear();
    assert_eq!(t.create_tab(0, &mut effects), Some(2));
    assert_eq!(effects[0], Effect::SpawnPty { window_id: 0, pty: 2, tab_id: 2, previous_active: 0 });
    effects.clear();
    t.abandon_tab(0, 2, 0, &mut effects);
    let c = tabs_of(&t, 0);
    assert_eq!(c.tab_count(), 2);
    assert_eq!(c.active_index(), 0);
    assert_eq!(effects, vec![Effect::ReportSpawnFailure(0), Effect::RequestRedraw(0)]);
    // A window's only tab is left to abandon_window.
    let (mut t, mut effects) = start();
    t.abandon_tab(0, 0, 0, &mut effects);
    assert_eq!(tabs_of(&t, 0).tab_count(), 1);
}

#[test]
fn end_iteration_runs_commands_then_draws() {
    let (mut t, mut effects) = start();
    t.create_window_context(&mut effects);
    let p = MultiWindowProcessor::new();
    let mut q = MultiWindowCommandQueue::new();
    q.push(MultiWindowCommand::ActivateWindow(0));
    let (steps, flow) = p.end_iteration(&mut t, &mut q, &vec![1], false, false, &mut effects);
    assert_eq!(q.len(), 0);
    assert_eq!(t.active_window_id(), Some(0));
    assert_eq!(steps, vec![GpuStep::MakeCurrent(1), GpuStep::Draw(1), GpuStep::MakeCurrent(0)]);
    assert_eq!(flow, ControlFlow::Wait);
    let (_, flow) = p.end_iteration(&mut t, &mut q, &vec![], true, false, &mut effects);
    assert_eq!(flow, ControlFlow::Poll);
    q.push(MultiWindowCommand::CloseWindow(0));
    q.push(MultiWindowCommand::CloseWindow(1));
    let (steps, flow) = p.end_iteration(&mut t, &mut q, &vec![1], false, false, &mut effects);
    assert!(steps.is_empty());
    assert_eq!(flow, ControlFlow::Exit);
}

#[test]
fn skipped_event_kinds() {
    assert!(MultiWindowProcessor::skip_event(EventKind::UserExit));
    assert!(MultiWindowProcessor::skip_event(EventKind::Moved));
    assert!(MultiWindowProcessor::skip_event(EventKind::OtherDeviceEvent));
    assert!(MultiWindowProcessor::skip_event(EventKind::EventsCleared));
    assert!(!MultiWindowProcessor::skip_event(EventKind::ModifiersChanged));
    assert!(!MultiWindowProcessor::skip_event(EventKind::OtherWindowEvent));
    assert!(!MultiWindowProcessor::skip_event(EventKind::UserOther));
}
