use doggy::action::Action;
use doggy::app::{App, InputMode, LoopStep, Popup};
use doggy::components::containers::{self, Containers};
use doggy::components::container_logs::ContainerLogs;
use doggy::components::{Component, Reply};
use doggy::runtime::docker;
use doggy::runtime::model::{ContainerHealth, ContainerStatus, ContainerSummary, Filter};
use doggy::runtime::ConnectionConfig;
use doggy::tui::{Event, Key, KeyCode};
use doggy::worker::{CancellableTask, Effect, Job};

fn summary(id: &str, name: &str, age: i64) -> ContainerSummary {
    ContainerSummary {
        id: id.to_string(),
        name: name.to_string(),
        image: "alpine".to_string(),
        image_id: "sha".to_string(),
        labels: Vec::new(),
        status: ContainerStatus::Running(ContainerHealth::Unknown),
        age,
    }
}

fn docker_app() -> App {
    let mut app = App::new("v1".to_string(), &ConnectionConfig::Docker(docker::ConnectionConfig::default_socket()));
    app.start();
    app
}

fn key(code: KeyCode) -> Key {
    Key { code, ctrl: false, press: true }
}

fn listed(names: &[(&str, &str)]) -> Containers {
    let mut c = Containers::new(Filter::new());
    let list = names.iter().enumerate().map(|(i, (id, n))| summary(id, n, i as i64)).collect();
    let out = c.update(Action::Tick, Some(Reply::Containers(Ok(list))));
    assert!(out.actions.is_empty());
    c
}

#[test]
fn tick_sorts_by_name_and_selects_first_row() {
    let c = listed(&[("c2", "zeta"), ("c1", "alpha"), ("c3", "mid")]);
    let names: Vec<&str> = c.containers.iter().map(|c| c.name.as_str()).collect();
    assert_eq!(names, vec!["alpha", "mid", "zeta"]);
    assert_eq!(c.selected, Some(0));
}

#[test]
fn sort_key_toggles_direction() {
    let mut c = listed(&[("b", "x"), ("a", "y")]);
    c.update(Action::SortColumn(1), None);
    assert_eq!(c.sort_by, containers::SortColumn::Id(containers::SortOrder::Asc));
    c.update(Action::SortColumn(1), None);
    assert_eq!(c.sort_by, containers::SortColumn::Id(containers::SortOrder::Desc));
    let list = vec![summary("a", "y", 0), summary("b", "x", 1)];
    c.update(Action::Tick, Some(Reply::Containers(Ok(list))));
    assert_eq!(c.containers[0].id, "b");
}

#[test]
fn navigation_wraps_around() {
    let mut c = listed(&[("a", "a"), ("b", "b")]);
    c.update(Action::Up, None);
    assert_eq!(c.selected, Some(1));
    c.update(Action::Down, None);
    assert_eq!(c.selected, Some(0));
}

#[test]
fn delete_confirmed_closes_prompt_and_refreshes() {
    let mut c = listed(&[("abc", "web")]);
    let out = c.update(Action::Delete, None);
    assert!(out.actions.is_empty());
    assert!(matches!(&c.show_popup, containers::Popup::Delete(id, name) if id == "abc" && name == "web"));
    let req = c.request(&Action::Confirm);
    assert!(matches!(req, Some(doggy::components::Request::DeleteContainer(ref id)) if id == "abc"));
    let out = c.update(Action::Confirm, Some(Reply::Done(Ok(()))));
    assert!(matches!(c.show_popup, containers::Popup::Closed));
    assert_eq!(out.actions.len(), 1);
    assert!(matches!(out.actions[0], Action::Tick));
}

#[test]
fn delete_failure_keeps_prompt_and_reports() {
    let mut c = listed(&[("abc", "web")]);
    c.update(Action::Delete, None);
    let out = c.update(Action::Confirm, Some(Reply::Done(Err("denied".to_string()))));
    assert!(matches!(c.show_popup, containers::Popup::Delete(..)));
    assert_eq!(out.actions.len(), 1);
    assert!(matches!(&out.actions[0], Action::Error(m) if m == "Unable to delete container \"abc\" denied"));
    c.update(Action::PreviousScreen, None);
    assert!(matches!(c.show_popup, containers::Popup::Closed));
}

#[test]
fn shell_suspends_then_opens_session_which_returns_to_list() {
    let mut c = listed(&[("abc", "web")]);
    let out = c.update(Action::Shell, None);
    assert_eq!(out.actions.len(), 2);
    assert!(matches!(out.actions[0], Action::Suspend));
    let mut out = out;
    let exec = match out.actions.pop() {
        Some(Action::Screen(Component::ContainerExec(x))) => x,
        _ => panic!("expected a session"),
    };
    assert_eq!(exec.cid, "abc");
    assert_eq!(exec.command, "/bin/bash");
    let mut screen = Component::ContainerExec(exec);
    assert!(matches!(screen.setup().as_slice(), [Effect::StopTerminal]));
    assert!(screen.request(&Action::Tick).is_some());
    let out = screen.update(Action::Tick, Some(Reply::Done(Ok(()))));
    assert_eq!(out.actions.len(), 2);
    assert!(matches!(out.actions[0], Action::Resume));
    assert!(matches!(out.actions[1], Action::Screen(Component::Containers(_))));
    assert!(screen.request(&Action::Tick).is_none());
}

#[test]
fn failed_session_reports_after_returning() {
    let mut screen = Component::ContainerExec(doggy::components::container_exec::ContainerExec::new(
        "abc".to_string(),
        "web".to_string(),
        Some("sh".to_string()),
    ));
    let out = screen.update(Action::Render, Some(Reply::Done(Err("boom".to_string()))));
    assert_eq!(out.actions.len(), 3);
    assert!(matches!(&out.actions[2], Action::Error(m) if m == "Unable to execute command \"sh\" in container \"web\"\nboom"));
}

#[test]
fn custom_command_prompt_edits_and_launches() {
    let mut c = listed(&[("abc", "web")]);
    c.update(Action::CustomShell, None);
    for ch in ['l', 's'] {
        assert!(c.handle_input(key(KeyCode::Char(ch))).is_none());
    }
    let out = c.update(Action::Confirm, None);
    match &out.actions[1] {
        Action::Screen(Component::ContainerExec(x)) => assert_eq!(x.command, "ls"),
        _ => panic!("expected a session"),
    }
    assert!(c.handle_input(key(KeyCode::Esc)).is_none());
    assert!(matches!(c.show_popup, containers::Popup::Closed));
}

#[test]
fn screen_replacement_cancels_old_worker_and_starts_new() {
    let mut app = docker_app();
    assert!(matches!(&app.main, Component::Containers(c)
        if matches!(c.task, Some(CancellableTask { job: Job::PollMetrics, cancelled: false }))));
    let d = app.dispatch(Action::Screen(Component::ContainerLogs(ContainerLogs::new("abc".to_string(), "web".to_string()))));
    assert_eq!(d.effects.len(), 2);
    assert!(matches!(d.effects[0], Effect::Cancel(Job::PollMetrics)));
    assert!(matches!(&d.effects[1], Effect::Start(Job::FollowLogs { cid, since: 15, follow: true }) if cid == "abc"));
    assert!(matches!(&app.main, Component::Containers(c) if matches!(c.task, Some(CancellableTask { cancelled: true, .. }))));
    let forward = d.forward.expect("the new screen receives its action");
    assert!(matches!(forward, Action::Screen(Component::ContainerLogs(_))));
    assert!(app.request(&forward).is_none());
    let effects = app.update_screen(forward, None);
    assert!(effects.is_empty());
    assert!(matches!(&app.main, Component::ContainerLogs(l) if l.id == "abc" && matches!(l.task, Some(CancellableTask { cancelled: false, .. }))));
}

#[test]
fn since_change_replaces_follower() {
    let mut logs = ContainerLogs::new("abc".to_string(), "web".to_string());
    logs.setup();
    let out = logs.update(Action::Since(5));
    assert_eq!(out.effects.len(), 3);
    assert!(matches!(&out.effects[0], Effect::Cancel(Job::FollowLogs { since: 15, .. })));
    assert!(matches!(out.effects[1], Effect::ClearLogs));
    assert!(matches!(&out.effects[2], Effect::Start(Job::FollowLogs { since: 5, .. })));
    assert_eq!(logs.since, 5);
    let out = logs.teardown();
    assert!(matches!(&out[0], Effect::Cancel(Job::FollowLogs { since: 5, .. })));
}

#[test]
fn cancelling_twice_signals_once() {
    let (mut t, e) = CancellableTask::start(Job::PollMetrics);
    assert!(matches!(e, Effect::Start(Job::PollMetrics)));
    assert!(matches!(t.cancel(), Some(Effect::Cancel(Job::PollMetrics))));
    assert!(t.cancel().is_none());
    assert!(t.cancelled);
}

#[test]
fn suspend_then_resume_loses_nothing() {
    let mut app = docker_app();
    app.send(Action::Suspend);
    app.send(Action::Tick);
    let a = app.next_action().unwrap();
    app.dispatch(a);
    assert!(app.should_suspend);
    assert_eq!(app.after_drain(), LoopStep::Suspend);
    assert_eq!(app.queue.len(), 2);
    assert!(matches!(app.queue[0], Action::Tick));
    assert!(matches!(app.queue[1], Action::Resume));
    app.next_action();
    let r = app.next_action().unwrap();
    let d = app.dispatch(r);
    assert!(!app.should_suspend);
    assert!(matches!(d.effects.as_slice(), [Effect::ResumeTerminal]));
    assert_eq!(app.after_drain(), LoopStep::Continue);
}

#[test]
fn previous_screen_with_overlay_only_closes_it() {
    let mut app = docker_app();
    let d = app.dispatch(Action::Screen(Component::ContainerLogs(ContainerLogs::new("abc".to_string(), "web".to_string()))));
    app.update_screen(d.forward.unwrap(), None);
    app.dispatch(Action::Help);
    assert!(matches!(app.show_popup, Popup::Help));
    let d = app.dispatch(Action::PreviousScreen);
    assert!(d.forward.is_none());
    assert!(matches!(app.show_popup, Popup::Closed));
    assert!(matches!(app.main, Component::ContainerLogs(_)));
    let d = app.dispatch(Action::PreviousScreen);
    assert!(matches!(d.forward, Some(Action::PreviousScreen)));
}

#[test]
fn error_notice_counts_down_and_closes() {
    let mut app = docker_app();
    app.dispatch(Action::Error("bad".to_string()));
    assert!(matches!(&app.show_popup, Popup::Error { msg, timeout: 8, ttl: 8 } if msg == "bad"));
    for _ in 0..8 {
        app.dispatch(Action::Tick);
    }
    assert!(matches!(app.show_popup, Popup::Error { ttl: 0, .. }));
    app.dispatch(Action::Tick);
    assert!(matches!(app.show_popup, Popup::Closed));
}

#[test]
fn prompt_line_completes_resource_and_switches_screen() {
    let mut app = docker_app();
    app.handle_event(Event::Key(key(KeyCode::Char(':'))));
    let a = app.next_action().unwrap();
    app.dispatch(a);
    assert_eq!(app.input_mode, InputMode::Change);
    app.handle_event(Event::Key(key(KeyCode::Char('i'))));
    app.handle_event(Event::Key(key(KeyCode::Char('m'))));
    assert_eq!(app.suggestion, Some(doggy::runtime::Resource::Images));
    app.handle_event(Event::Key(key(KeyCode::Enter)));
    assert_eq!(app.input_mode, InputMode::Normal);
    assert!(matches!(app.next_action(), Some(Action::Screen(Component::Images(_)))));
}

#[test]
fn prompt_line_without_match_reports() {
    let mut app = docker_app();
    app.dispatch(Action::Change);
    app.handle_event(Event::Key(key(KeyCode::Char('x'))));
    app.handle_event(Event::Key(key(KeyCode::Enter)));
    assert!(matches!(app.next_action(), Some(Action::Error(m)) if m == "No resource found"));
    assert_eq!(app.input_mode, InputMode::Change);
}

#[test]
fn filter_line_submits_text_and_escape_resets() {
    let mut app = docker_app();
    app.dispatch(Action::Filter);
    for ch in "name=web".chars() {
        app.handle_event(Event::Key(key(KeyCode::Char(ch))));
    }
    app.handle_event(Event::Key(key(KeyCode::Backspace)));
    app.handle_event(Event::Key(key(KeyCode::Left)));
    app.handle_event(Event::Key(key(KeyCode::Right)));
    assert_eq!(app.input.cursor(), 7);
    app.handle_event(Event::Key(key(KeyCode::Enter)));
    assert!(matches!(app.next_action(), Some(Action::SetFilter(Some(t))) if t == "name=we"));
    app.dispatch(Action::Filter);
    app.handle_event(Event::Key(key(KeyCode::Char('z'))));
    app.handle_event(Event::Key(key(KeyCode::Esc)));
    assert_eq!(app.input_mode, InputMode::Normal);
    assert!(app.input.is_empty());
    assert_eq!(app.input.cursor(), 0);
}

#[test]
fn global_keys_map_to_actions() {
    let app = docker_app();
    assert!(matches!(app.handle_key(&key(KeyCode::Char('q'))), Some(Action::Quit)));
    assert!(matches!(app.handle_key(&key(KeyCode::Char('/'))), Some(Action::Filter)));
    assert!(matches!(app.handle_key(&key(KeyCode::F(3))), Some(Action::SortColumn(3))));
    assert!(matches!(app.handle_key(&key(KeyCode::Char('d'))), None));
    let ctrl_d = Key { code: KeyCode::Char('d'), ctrl: true, press: true };
    assert!(matches!(app.handle_key(&ctrl_d), Some(Action::Delete)));
    assert!(matches!(app.handle_key(&key(KeyCode::Char('l'))), Some(Action::Logs)));
}

#[test]
fn screen_output_is_queued_in_order() {
    let mut app = docker_app();
    let list = vec![summary("abc", "web", 0)];
    app.update_screen(Action::Tick, Some(Reply::Containers(Ok(list))));
    app.update_screen(Action::Shell, None);
    assert_eq!(app.queue.len(), 2);
    assert!(matches!(app.queue[0], Action::Suspend));
    assert!(matches!(app.queue[1], Action::Screen(Component::ContainerExec(_))));
}

#[test]
fn quit_ends_loop() {
    let mut app = docker_app();
    app.dispatch(Action::Quit);
    assert_eq!(app.after_drain(), LoopStep::Quit);
}

#[test]
fn session_starts_while_terminal_is_released() {
    let mut app = docker_app();
    let list = vec![summary("abc", "web", 0)];
    app.update_screen(Action::Tick, Some(Reply::Containers(Ok(list))));
    app.update_screen(Action::Shell, None);
    let a = app.next_action().unwrap();
    app.dispatch(a);
    let screen = app.next_action().unwrap();
    let d = app.dispatch(screen);
    assert!(matches!(d.effects.as_slice(), [Effect::Cancel(Job::PollMetrics), Effect::StopTerminal]));
    let forward = d.forward.unwrap();
    let req = app.request(&forward);
    assert!(matches!(req, Some(doggy::components::Request::Exec { ref cid, ref command }) if cid == "abc" && command == "/bin/bash"));
    app.update_screen(forward, Some(Reply::Done(Ok(()))));
    assert!(matches!(app.main, Component::ContainerExec(_)));
    assert!(matches!(app.queue[0], Action::Resume));
    assert!(matches!(app.queue[1], Action::Screen(Component::Containers(_))));
}

#[test]
fn screen_action_is_not_forwarded_while_prompt_is_open() {
    let mut app = docker_app();
    app.dispatch(Action::Change);
    let d = app.dispatch(Action::Screen(Component::Images(doggy::components::images::Images::new())));
    assert!(d.forward.is_none());
    assert!(matches!(app.main, Component::Images(_)));
}

#[test]
fn list_requests_follow_the_action() {
    let mut c = listed(&[("abc", "web")]);
    assert!(matches!(c.request(&Action::Tick), Some(doggy::components::Request::ListContainers { all: false, .. })));
    assert!(matches!(c.request(&Action::Inspect), Some(doggy::components::Request::GetContainer(ref id)) if id == "abc"));
    assert!(matches!(c.request(&Action::SetFilter(Some("x".to_string()))), Some(doggy::components::Request::ValidateFilter(ref t)) if t == "x"));
    assert!(c.request(&Action::Down).is_none());
    c.update(Action::Delete, None);
    assert!(c.request(&Action::Tick).is_none());
}

#[test]
fn rows_with_equal_keys_keep_their_order() {
    let c = listed(&[("c3", "same"), ("c1", "alpha"), ("c2", "same")]);
    let ids: Vec<&str> = c.containers.iter().map(|c| c.id.as_str()).collect();
    assert_eq!(ids, vec!["c1", "c3", "c2"]);
}
