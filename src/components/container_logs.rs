use vstd::prelude::*;

use crate::action::Action;
use crate::components::containers::Containers;
use crate::components::{scroll, scrolled, Component, Outcome};
use crate::runtime::model::Filter;
use crate::tui::{Key, KeyCode};
use crate::worker::{CancellableTask, Effect, Job};

verus! {

/// Minutes of log history shown when the screen opens.
pub const DEFAULT_SINCE: u16 = 15;

/// The log lines of one container, streamed by a log worker.
#[derive(Debug)]
pub struct ContainerLogs {
    pub id: String,
    pub name: String,
    pub task: Option<CancellableTask>,
    pub vertical_scroll: usize,
    pub follow: bool,
    pub auto_scroll: bool,
    pub since: u16,
}

/// The signal that stopping an optional task sends.
pub open spec fn stop_effects(t: Option<CancellableTask>) -> Seq<Effect> {
    match t {
        Some(t) => match t.cancel_signal() {
            Some(j) => seq![Effect::Cancel(j)],
            None => Seq::empty(),
        },
        None => Seq::empty(),
    }
}

/// An optional task after being stopped.
pub open spec fn stopped(t: Option<CancellableTask>) -> Option<CancellableTask> {
    match t {
        Some(t) => Some(t.spec_cancelled()),
        None => None,
    }
}

fn stop(task: &mut Option<CancellableTask>) -> (effects: Vec<Effect>)
    ensures
        *final(task) == stopped(*old(task)),
        effects@ == stop_effects(*old(task)),
{
    let mut effects = Vec::new();
    match task {
        Some(t) => {
            if let Some(e) = t.cancel() {
                effects.push(e);
            }
        },
        None => {},
    }
    proof {
        assert(effects@ =~= stop_effects(*old(task)));
    }
    effects
}

/// Changing the window of a running log screen stops the old follower, empties the
/// buffer, and only then starts exactly one new follower, for the new window.
pub proof fn lemma_since_replaces_follower(old: ContainerLogs, n: u16, new: ContainerLogs, out: Outcome)
    requires
        ContainerLogs::update_post(old, Action::Since(n), new, out),
        old.task == Some(CancellableTask { job: old.job(old.since), cancelled: false }),
    ensures
        out.effects@ == seq![Effect::Cancel(old.job(old.since)), Effect::ClearLogs, Effect::Start(old.job(n))],
        new.task == Some(CancellableTask { job: new.job(n), cancelled: false }),
        new.since == n,
        out.actions@.len() == 0,
{
    assert(out.effects@ =~= seq![Effect::Cancel(old.job(old.since)), Effect::ClearLogs, Effect::Start(old.job(n))]);
}

impl ContainerLogs {
    /// The log job of this screen for a window of `since` minutes.
    pub open spec fn job(self, since: u16) -> Job {
        Job::FollowLogs { cid: self.id, since, follow: self.follow }
    }

    /// A log screen just built for container (id, name): following the last
    /// fifteen minutes with automatic scrolling, no worker yet.
    pub open spec fn is_fresh(self, id: Seq<char>, name: Seq<char>) -> bool {
        &&& self.id@ == id
        &&& self.name@ == name
        &&& self.task is None
        &&& self.vertical_scroll == 0
        &&& self.follow
        &&& self.auto_scroll
        &&& self.since == DEFAULT_SINCE
    }

    pub fn new(id: String, name: String) -> (r: ContainerLogs)
        ensures
            r.is_fresh(id@, name@),
    {
        ContainerLogs {
            id,
            name,
            task: None,
            vertical_scroll: 0,
            follow: true,
            auto_scroll: true,
            since: DEFAULT_SINCE,
        }
    }

    pub fn get_name(&self) -> (r: &'static str)
        ensures
            r@ == "ContainerLogs"@,
    {
        "ContainerLogs"
    }

    fn job_for(&self, since: u16) -> (r: Job)
        ensures
            r == self.job(since),
    {
        Job::FollowLogs { cid: self.id.clone(), since, follow: self.follow }
    }

    /// Starts the log worker for the current window.
    pub fn setup(&mut self) -> (effects: Vec<Effect>)
        ensures
            *final(self) == (ContainerLogs {
                task: Some(CancellableTask { job: old(self).job(old(self).since), cancelled: false }),
                ..*old(self)
            }),
            effects@ == seq![Effect::Start(old(self).job(old(self).since))],
    {
        let (t, e) = CancellableTask::start(self.job_for(self.since));
        self.task = Some(t);
        let mut effects = Vec::new();
        effects.push(e);
        assert(effects@ =~= seq![Effect::Start(old(self).job(old(self).since))]);
        effects
    }

    /// Signals the log worker to stop.
    pub fn teardown(&mut self) -> (effects: Vec<Effect>)
        ensures
            *final(self) == (ContainerLogs { task: stopped(old(self).task), ..*old(self) }),
            effects@ == stop_effects(old(self).task),
    {
        stop(&mut self.task)
    }

    /// `PreviousScreen` stops the worker and goes back to the container list;
    /// `Since(n)` replaces the worker by one for an `n`-minute window: the old one
    /// is stopped, the buffer emptied, then exactly one new worker started;
    /// scrolling by hand turns automatic scrolling off; `AutoScroll` toggles it.
    pub open spec fn update_post(old: ContainerLogs, action: Action, new: ContainerLogs, out: Outcome) -> bool {
        match action {
            Action::PreviousScreen => {
                &&& new == (ContainerLogs { task: stopped(old.task), ..old })
                &&& out.effects@ == stop_effects(old.task)
                &&& out.actions@.len() == 1
                &&& out.actions@[0] matches Action::Screen(Component::Containers(c)) && c.is_fresh(Seq::empty())
            },
            Action::Up | Action::Down | Action::PageUp | Action::PageDown => {
                &&& new == (ContainerLogs {
                    auto_scroll: false,
                    vertical_scroll: scrolled(old.vertical_scroll, action),
                    ..old
                })
                &&& out.is_empty()
            },
            Action::Since(n) => {
                &&& new == (ContainerLogs {
                    task: Some(CancellableTask { job: old.job(n), cancelled: false }),
                    since: n,
                    ..old
                })
                &&& out.actions@.len() == 0
                &&& out.effects@ == stop_effects(old.task) + seq![Effect::ClearLogs, Effect::Start(old.job(n))]
            },
            Action::AutoScroll => new == (ContainerLogs { auto_scroll: !old.auto_scroll, ..old }) && out.is_empty(),
            _ => new == old && out.is_empty(),
        }
    }

    pub fn update(&mut self, action: Action) -> (out: Outcome)
        ensures
            Self::update_post(*old(self), action, *final(self), out),
    {
        match action {
            Action::PreviousScreen => {
                let effects = stop(&mut self.task);
                let mut out = Outcome::one(Action::Screen(Component::Containers(Containers::new(Filter::new()))));
                out.effects = effects;
                out
            },
            Action::Up | Action::Down | Action::PageUp | Action::PageDown => {
                self.auto_scroll = false;
                self.vertical_scroll = scroll(self.vertical_scroll, &action);
                Outcome::none()
            },
            Action::Since(n) => {
                let mut effects = stop(&mut self.task);
                effects.push(Effect::ClearLogs);
                let (t, e) = CancellableTask::start(self.job_for(n));
                effects.push(e);
                self.task = Some(t);
                self.since = n;
                let out = Outcome { actions: Vec::new(), effects };
                assert(out.effects@ =~= stop_effects(old(self).task) + seq![Effect::ClearLogs, Effect::Start(old(self).job(n))]);
                out
            },
            Action::AutoScroll => {
                self.auto_scroll = !self.auto_scroll;
                Outcome::none()
            },
            _ => Outcome::none(),
        }
    }

    /// Keys of this screen: `s` toggles automatic scrolling, `1` to `5` choose a
    /// window of 1, 3, 5, 10 or 15 minutes.
    /// The screen's own key bindings.
    pub open spec fn key_action(key: Key) -> Option<Action> {
        match key.code {
            KeyCode::Char('s') => Some(Action::AutoScroll),
            KeyCode::Char('1') => Some(Action::Since(1)),
            KeyCode::Char('2') => Some(Action::Since(3)),
            KeyCode::Char('3') => Some(Action::Since(5)),
            KeyCode::Char('4') => Some(Action::Since(10)),
            KeyCode::Char('5') => Some(Action::Since(15)),
            _ => None,
        }
    }

    pub fn get_action(&self, key: &Key) -> (r: Option<Action>)
        ensures
            r == Self::key_action(*key),
    {
        match key.code {
            KeyCode::Char('s') => Some(Action::AutoScroll),
            KeyCode::Char('1') => Some(Action::Since(1)),
            KeyCode::Char('2') => Some(Action::Since(3)),
            KeyCode::Char('3') => Some(Action::Since(5)),
            KeyCode::Char('4') => Some(Action::Since(10)),
            KeyCode::Char('5') => Some(Action::Since(15)),
            _ => None,
        }
    }
}

} // verus!
