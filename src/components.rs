use vstd::prelude::*;

use crate::action::Action;
use crate::runtime::model::{
    ContainerDetails, ContainerSummary, Compose, Filter, ImageSummary, NetworkSummary, VolumeSummary,
};
use crate::tui::Key;
use crate::worker::{CancellableTask, Effect, Job};

pub mod compose_view;
pub mod composes;
pub mod container_exec;
pub mod container_inspect;
pub mod container_logs;
pub mod container_view;
pub mod containers;
pub mod image_inspect;
pub mod images;
pub mod network_inspect;
pub mod networks;
pub mod volume_inspect;
pub mod volumes;

use compose_view::ComposeView;
use composes::Composes;
use container_exec::ContainerExec;
use container_inspect::ContainerDetails as ContainerInspect;
use container_logs::{stop_effects, stopped, ContainerLogs};
use container_view::ContainerView;
use containers::Containers;
use image_inspect::ImageInspect;
use images::Images;
use network_inspect::NetworkInspect;
use networks::Networks;
use volume_inspect::VolumeInspect;
use volumes::Volumes;

verus! {

/// The screens of the dashboard; exactly one is active at a time.
#[derive(Debug)]
pub enum Component {
    Containers(Containers),
    ContainerExec(ContainerExec),
    ContainerInspect(ContainerInspect),
    ContainerLogs(ContainerLogs),
    ContainerView(ContainerView),
    Composes(Composes),
    ComposeView(ComposeView),
    Images(Images),
    ImageInspect(ImageInspect),
    Networks(Networks),
    NetworkInspect(NetworkInspect),
    Volumes(Volumes),
    VolumeInspect(VolumeInspect),
}

/// A call into the runtime client that a screen needs answered before it can
/// finish handling an action.
#[derive(Debug)]
pub enum Request {
    ListContainers { all: bool, filter: Filter },
    ValidateFilter(String),
    GetContainer(String),
    GetContainerDetails(String),
    DeleteContainer(String),
    ListImages(Option<String>),
    GetImage(String),
    DeleteImage(String),
    ListNetworks(Filter),
    GetNetwork(String),
    DeleteNetwork(String),
    ListVolumes(Filter),
    GetVolume(String),
    DeleteVolume(String),
    ListComposeProjects,
    Exec { cid: String, command: String },
}

/// The runtime client's answer to a request; errors are carried as their message.
#[derive(Debug)]
pub enum Reply {
    Containers(Result<Vec<ContainerSummary>, String>),
    Images(Result<Vec<ImageSummary>, String>),
    Networks(Result<Vec<NetworkSummary>, String>),
    Volumes(Result<Vec<VolumeSummary>, String>),
    Composes(Result<Vec<Compose>, String>),
    Details(Result<ContainerDetails, String>),
    Text(Result<String, String>),
    Done(Result<(), String>),
    Valid(bool),
}

/// What handling one action produced: actions to enqueue, in order, and effects
/// for the loop to perform, in order.
#[derive(Debug)]
pub struct Outcome {
    pub actions: Vec<Action>,
    pub effects: Vec<Effect>,
}

impl Outcome {
    pub open spec fn is_empty(self) -> bool {
        self.actions@.len() == 0 && self.effects@.len() == 0
    }

    pub fn none() -> (r: Outcome)
        ensures
            r.is_empty(),
    {
        Outcome { actions: Vec::new(), effects: Vec::new() }
    }

    pub fn one(a: Action) -> (r: Outcome)
        ensures
            r.actions@ == seq![a],
            r.effects@.len() == 0,
    {
        let mut actions = Vec::new();
        actions.push(a);
        assert(actions@ =~= seq![a]);
        Outcome { actions, effects: Vec::new() }
    }

    pub fn two(a: Action, b: Action) -> (r: Outcome)
        ensures
            r.actions@ == seq![a, b],
            r.effects@.len() == 0,
    {
        let mut actions = Vec::new();
        actions.push(a);
        actions.push(b);
        assert(actions@ =~= seq![a, b]);
        Outcome { actions, effects: Vec::new() }
    }
}

/// `a` is an error notice with message `msg`.
pub open spec fn is_error(a: Action, msg: Seq<char>) -> bool {
    a matches Action::Error(m) && m@ == msg
}

/// Selection after moving down a list of `len` rows: wraps to the top.
pub open spec fn next_sel(sel: Option<usize>, len: nat) -> Option<usize> {
    if len == 0 {
        sel
    } else {
        match sel {
            Some(i) => if i >= len - 1 { Some(0usize) } else { Some((i + 1) as usize) },
            None => Some(0usize),
        }
    }
}

/// Selection after moving up a list of `len` rows: wraps to the bottom.
pub open spec fn prev_sel(sel: Option<usize>, len: nat) -> Option<usize> {
    if len == 0 {
        sel
    } else {
        match sel {
            Some(i) => if i == 0 { Some((len - 1) as usize) } else { Some((i - 1) as usize) },
            None => Some(0usize),
        }
    }
}

pub fn next_index(sel: Option<usize>, len: usize) -> (r: Option<usize>)
    ensures
        r == next_sel(sel, len as nat),
{
    if len == 0 {
        sel
    } else {
        match sel {
            Some(i) => if i >= len - 1 { Some(0) } else { Some(i + 1) },
            None => Some(0),
        }
    }
}

pub fn previous_index(sel: Option<usize>, len: usize) -> (r: Option<usize>)
    ensures
        r == prev_sel(sel, len as nat),
{
    if len == 0 {
        sel
    } else {
        match sel {
            Some(i) => if i == 0 { Some(len - 1) } else { Some(i - 1) },
            None => Some(0),
        }
    }
}

/// The selection once a list has been refreshed: the first row when nothing was selected.
pub open spec fn refreshed_sel(sel: Option<usize>) -> Option<usize> {
    if sel is None { Some(0usize) } else { sel }
}

/// Scroll offset after a navigation action: one line for Up/Down, fifteen for
/// PageUp/PageDown, saturating at both ends.
pub open spec fn scrolled(pos: usize, action: Action) -> usize {
    match action {
        Action::Up => if pos < 1 { 0 } else { (pos - 1) as usize },
        Action::Down => if pos + 1 > usize::MAX { usize::MAX } else { (pos + 1) as usize },
        Action::PageUp => if pos < 15 { 0 } else { (pos - 15) as usize },
        Action::PageDown => if pos + 15 > usize::MAX { usize::MAX } else { (pos + 15) as usize },
        _ => pos,
    }
}

pub fn scroll(pos: usize, action: &Action) -> (r: usize)
    ensures
        r == scrolled(pos, *action),
{
    match action {
        Action::Up => pos.saturating_sub(1),
        Action::Down => pos.saturating_add(1),
        Action::PageUp => pos.saturating_sub(15),
        Action::PageDown => pos.saturating_add(15),
        _ => pos,
    }
}

impl Component {
    pub open spec fn wf(self) -> bool {
        match self {
            Component::Containers(c) => c.wf(),
            Component::Networks(c) => c.wf(),
            Component::Volumes(c) => c.wf(),
            _ => true,
        }
    }

    /// Tests `wf`, for callers that cannot know it.
    pub fn is_wf(&self) -> (r: bool)
        ensures
            r == self.wf(),
    {
        match self {
            Component::Containers(c) => c.filter.is_wf() && match &c.show_popup {
                containers::Popup::Shell(p) => p.input.is_wf(),
                _ => true,
            },
            Component::Networks(c) => c.filter.is_wf(),
            Component::Volumes(c) => c.filter.is_wf(),
            _ => true,
        }
    }

    /// The background worker the screen owns, if any.
    pub open spec fn task_of(self) -> Option<CancellableTask> {
        match self {
            Component::Containers(c) => c.task,
            Component::ContainerLogs(l) => l.task,
            _ => None,
        }
    }

    /// The screen once installed: its worker started.
    pub open spec fn installed(self) -> Component {
        match self {
            Component::Containers(c) => Component::Containers(Containers {
                task: Some(CancellableTask { job: Job::PollMetrics, cancelled: false }),
                ..c
            }),
            Component::ContainerLogs(l) => Component::ContainerLogs(ContainerLogs {
                task: Some(CancellableTask { job: l.job(l.since), cancelled: false }),
                ..l
            }),
            _ => self,
        }
    }

    /// The screen once torn down: its worker signalled to stop.
    pub open spec fn torn_down(self) -> Component {
        match self {
            Component::Containers(c) => Component::Containers(Containers { task: stopped(c.task), ..c }),
            Component::ContainerLogs(l) => Component::ContainerLogs(ContainerLogs { task: stopped(l.task), ..l }),
            _ => self,
        }
    }

    /// What installing the screen asks of the loop.
    pub open spec fn setup_effects(self) -> Seq<Effect> {
        match self {
            Component::Containers(_) => seq![Effect::Start(Job::PollMetrics)],
            Component::ContainerLogs(l) => seq![Effect::Start(l.job(l.since))],
            Component::ContainerExec(_) => seq![Effect::StopTerminal],
            _ => Seq::empty(),
        }
    }

    /// The worker of a screen once installed: live, for the screen's job.
    pub open spec fn installed_task(self) -> Option<CancellableTask> {
        match self {
            Component::Containers(_) => Some(CancellableTask { job: Job::PollMetrics, cancelled: false }),
            Component::ContainerLogs(l) => Some(CancellableTask { job: l.job(l.since), cancelled: false }),
            _ => self.task_of(),
        }
    }

    /// What removing the screen asks of the loop: stop its live worker, or clear the
    /// terminal after an interactive session.
    pub open spec fn teardown_effects(self) -> Seq<Effect> {
        match self {
            Component::ContainerExec(_) => seq![Effect::ClearTerminal],
            _ => stop_effects(self.task_of()),
        }
    }

    /// Both are the same screen (same variant).
    pub open spec fn same_kind(self, other: Component) -> bool {
        match (self, other) {
            (Component::Containers(_), Component::Containers(_)) => true,
            (Component::ContainerExec(_), Component::ContainerExec(_)) => true,
            (Component::ContainerInspect(_), Component::ContainerInspect(_)) => true,
            (Component::ContainerLogs(_), Component::ContainerLogs(_)) => true,
            (Component::ContainerView(_), Component::ContainerView(_)) => true,
            (Component::Composes(_), Component::Composes(_)) => true,
            (Component::ComposeView(_), Component::ComposeView(_)) => true,
            (Component::Images(_), Component::Images(_)) => true,
            (Component::ImageInspect(_), Component::ImageInspect(_)) => true,
            (Component::Networks(_), Component::Networks(_)) => true,
            (Component::NetworkInspect(_), Component::NetworkInspect(_)) => true,
            (Component::Volumes(_), Component::Volumes(_)) => true,
            (Component::VolumeInspect(_), Component::VolumeInspect(_)) => true,
            _ => false,
        }
    }

    pub fn get_name(&self) -> (r: &'static str) {
        match self {
            Component::Containers(c) => c.get_name(),
            Component::ContainerExec(c) => c.get_name(),
            Component::ContainerInspect(c) => c.get_name(),
            Component::ContainerLogs(c) => c.get_name(),
            Component::ContainerView(c) => c.get_name(),
            Component::Composes(c) => c.get_name(),
            Component::ComposeView(c) => c.get_name(),
            Component::Images(c) => c.get_name(),
            Component::ImageInspect(c) => c.get_name(),
            Component::Networks(c) => c.get_name(),
            Component::NetworkInspect(c) => c.get_name(),
            Component::Volumes(c) => c.get_name(),
            Component::VolumeInspect(c) => c.get_name(),
        }
    }

    /// Installs the screen: starts its worker, or hands the terminal over.
    pub fn setup(&mut self) -> (effects: Vec<Effect>)
        ensures
            *final(self) == old(self).installed(),
            final(self).wf() == old(self).wf(),
            final(self).task_of() == old(self).installed_task(),
            effects@ == old(self).setup_effects(),
    {
        match self {
            Component::Containers(c) => c.setup(),
            Component::ContainerLogs(l) => l.setup(),
            Component::ContainerExec(x) => x.setup(),
            _ => {
                let v = Vec::new();
                assert(v@ =~= Seq::<Effect>::empty());
                v
            },
        }
    }

    /// What installing the screen asks of the loop, computed without installing it.
    pub fn start_effects(&self) -> (effects: Vec<Effect>)
        ensures
            effects@ == self.setup_effects(),
    {
        let mut v = Vec::new();
        match self {
            Component::Containers(_) => v.push(Effect::Start(Job::PollMetrics)),
            Component::ContainerLogs(l) => v.push(Effect::Start(Job::FollowLogs {
                cid: l.id.clone(),
                since: l.since,
                follow: l.follow,
            })),
            Component::ContainerExec(_) => v.push(Effect::StopTerminal),
            _ => {},
        }
        assert(v@ =~= self.setup_effects());
        v
    }

    /// Tears the screen down: signals every worker it owns to stop.
    pub fn teardown(&mut self) -> (effects: Vec<Effect>)
        ensures
            *final(self) == old(self).torn_down(),
            final(self).wf() == old(self).wf(),
            final(self).task_of() == stopped(old(self).task_of()),
            effects@ == old(self).teardown_effects(),
    {
        match self {
            Component::Containers(c) => c.teardown(),
            Component::ContainerLogs(l) => l.teardown(),
            Component::ContainerExec(x) => x.teardown(),
            _ => {
                let v = Vec::new();
                assert(v@ =~= Seq::<Effect>::empty());
                v
            },
        }
    }

    /// Handling `action` needs an answer of the runtime client first.
    pub open spec fn needs(self, action: Action) -> bool {
        match self {
            Component::Containers(c) => c.needs(action),
            Component::Images(c) => c.needs(action),
            Component::Networks(c) => c.needs(action),
            Component::Volumes(c) => c.needs(action),
            Component::ContainerView(_) => action is Tick,
            Component::Composes(_) => action is Tick,
            Component::ContainerExec(x) => !x.should_stop,
            _ => false,
        }
    }

    /// The request the active screen makes for `action`.
    pub open spec fn request_post(self, action: Action, r: Option<Request>) -> bool {
        match self {
            Component::Containers(c) => c.request_post(action, r),
            Component::Images(c) => c.request_post(action, r),
            Component::Networks(c) => c.request_post(action, r),
            Component::Volumes(c) => c.request_post(action, r),
            Component::ContainerView(c) => c.request_post(action, r),
            Component::Composes(c) => c.request_post(action, r),
            Component::ContainerExec(x) => x.request_post(r),
            _ => r is None,
        }
    }

    pub fn request(&self, action: &Action) -> (r: Option<Request>)
        requires
            self.wf(),
        ensures
            r is Some == self.needs(*action),
            self.request_post(*action, r),
    {
        match self {
            Component::Containers(c) => c.request(action),
            Component::Images(c) => c.request(action),
            Component::Networks(c) => c.request(action),
            Component::Volumes(c) => c.request(action),
            Component::ContainerView(c) => c.request(action),
            Component::Composes(c) => c.request(action),
            Component::ContainerExec(x) => x.request(),
            _ => None,
        }
    }

    /// What the active screen does with an action, given the answer to its request.
    pub open spec fn update_post(old: Component, action: Action, reply: Option<Reply>, new: Component, out: Outcome) -> bool {
        match (old, new) {
            (Component::Containers(a), Component::Containers(b)) => Containers::update_post(a, action, reply, b, out),
            (Component::ContainerExec(a), Component::ContainerExec(b)) => ContainerExec::update_post(a, reply, b, out),
            (Component::ContainerInspect(a), Component::ContainerInspect(b)) => ContainerInspect::update_post(a, action, b, out),
            (Component::ContainerLogs(a), Component::ContainerLogs(b)) => ContainerLogs::update_post(a, action, b, out),
            (Component::ContainerView(a), Component::ContainerView(b)) => ContainerView::update_post(a, action, reply, b, out),
            (Component::Composes(a), Component::Composes(b)) => Composes::update_post(a, action, reply, b, out),
            (Component::ComposeView(a), Component::ComposeView(b)) => ComposeView::update_post(a, action, b, out),
            (Component::Images(a), Component::Images(b)) => Images::update_post(a, action, reply, b, out),
            (Component::ImageInspect(a), Component::ImageInspect(b)) => ImageInspect::update_post(a, action, b, out),
            (Component::Networks(a), Component::Networks(b)) => Networks::update_post(a, action, reply, b, out),
            (Component::NetworkInspect(a), Component::NetworkInspect(b)) => NetworkInspect::update_post(a, action, b, out),
            (Component::Volumes(a), Component::Volumes(b)) => Volumes::update_post(a, action, reply, b, out),
            (Component::VolumeInspect(a), Component::VolumeInspect(b)) => VolumeInspect::update_post(a, action, b, out),
            _ => false,
        }
    }

    pub fn update(&mut self, action: Action, reply: Option<Reply>) -> (out: Outcome)
        requires
            old(self).wf(),
        ensures
            final(self).wf(),
            Self::update_post(*old(self), action, reply, *final(self), out),
    {
        match self {
            Component::Containers(c) => c.update(action, reply),
            Component::ContainerExec(c) => c.update(reply),
            Component::ContainerInspect(c) => c.update(action),
            Component::ContainerLogs(c) => c.update(action),
            Component::ContainerView(c) => c.update(action, reply),
            Component::Composes(c) => c.update(action, reply),
            Component::ComposeView(c) => c.update(action),
            Component::Images(c) => c.update(action, reply),
            Component::ImageInspect(c) => c.update(action),
            Component::Networks(c) => c.update(action, reply),
            Component::NetworkInspect(c) => c.update(action),
            Component::Volumes(c) => c.update(action, reply),
            Component::VolumeInspect(c) => c.update(action),
        }
    }

    /// The screen has its own binding for the key.
    pub open spec fn binds(self, key: Key) -> bool {
        match self {
            Component::Containers(_) => Containers::key_action(key) is Some,
            Component::ContainerLogs(_) => ContainerLogs::key_action(key) is Some,
            Component::Images(s) => s.binds(key),
            Component::Composes(s) => s.binds(key),
            _ => false,
        }
    }

    /// What the screen's own binding for the key gives.
    pub open spec fn action_post(self, key: Key, r: Option<Action>) -> bool {
        match self {
            Component::Containers(_) => r == Containers::key_action(key),
            Component::ContainerLogs(_) => r == ContainerLogs::key_action(key),
            Component::Images(s) => s.action_post(key, r),
            Component::Composes(s) => s.action_post(key, r),
            _ => r is None,
        }
    }

    /// The screen's own binding for a key, if it has one.
    pub fn get_action(&self, key: &Key) -> (r: Option<Action>)
        requires
            self.wf(),
        ensures
            self.action_post(*key, r),
            r is Some == self.binds(*key),
    {
        match self {
            Component::Containers(c) => c.get_action(key),
            Component::Images(c) => c.get_action(key),
            Component::Composes(c) => c.get_action(key),
            Component::ContainerLogs(c) => c.get_action(key),
            _ => None,
        }
    }

    pub open spec fn has_filter_spec(self) -> bool {
        self is Containers || self is Images || self is Networks || self is Volumes
    }

    /// The list screens accept a filter.
    pub fn has_filter(&self) -> (r: bool)
        ensures
            r == self.has_filter_spec(),
    {
        match self {
            Component::Containers(_) | Component::Images(_) | Component::Networks(_) | Component::Volumes(_) => true,
            _ => false,
        }
    }

    /// Lets the screen consume a key first; returns the key when it does not.
    pub fn handle_input(&mut self, key: Key) -> (r: Option<Key>)
        requires
            old(self).wf(),
            *old(self) matches Component::Containers(c) ==> (c.show_popup matches containers::Popup::Shell(p) ==> p.input@.0.len() < usize::MAX),
        ensures
            final(self).wf(),
            final(self).same_kind(*old(self)),
            !(*old(self) is Containers) ==> r == Some(key) && *final(self) == *old(self),
    {
        match self {
            Component::Containers(c) => c.handle_input(key),
            _ => Some(key),
        }
    }
}

/// A screen handles a `Screen` action the same whatever screen the action carries.
pub proof fn lemma_screen_payload_ignored(
    c: Component,
    x: Component,
    y: Component,
    reply: Option<Reply>,
    n: Component,
    out: Outcome,
)
    ensures
        Component::update_post(c, Action::Screen(x), reply, n, out) == Component::update_post(c, Action::Screen(y), reply, n, out),
{
}

} // verus!
