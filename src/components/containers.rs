use vstd::prelude::*;

use crate::action::Action;
use crate::components::container_exec::ContainerExec;
use crate::components::container_inspect::ContainerDetails;
use crate::components::container_logs::ContainerLogs;
use crate::components::container_view::ContainerView;
use crate::components::{
    is_error, next_index, next_sel, prev_sel, previous_index, refreshed_sel, Component, Outcome, Reply,
    Request,
};
use crate::editor::LineEditor;
use crate::order::{lemma_text_cmp_antisymmetric, lemma_text_order, sort_ranked, sorted_from, Ranked};
use crate::runtime::model::{
    filter_of_text, status_rank, ContainerSummary, Entries, Filter,
};
use crate::text::{compare_i64, compare_text, int_cmp, join2, join3, reverse_ordering, reversed, string_from_chars, text_cmp};
use crate::tui::{Key, KeyCode};
use crate::worker::{CancellableTask, Effect, Job};

verus! {

#[derive(Clone, Copy, Debug, PartialEq, Eq, Structural)]
pub enum SortOrder {
    Asc,
    Desc,
}

#[derive(Clone, Copy, Debug, PartialEq, Eq, Structural)]
pub enum SortColumn {
    Id(SortOrder),
    Name(SortOrder),
    Image(SortOrder),
    Status(SortOrder),
    Age(SortOrder),
}

/// The order after pressing sort key `n`: the column of key `n` ascending, or
/// descending when it was already ascending; other keys keep the order.
pub open spec fn toggled(n: u8, cur: SortColumn) -> SortColumn {
    if n == 1 {
        if cur == SortColumn::Id(SortOrder::Asc) { SortColumn::Id(SortOrder::Desc) } else { SortColumn::Id(SortOrder::Asc) }
    } else if n == 2 {
        if cur == SortColumn::Name(SortOrder::Asc) { SortColumn::Name(SortOrder::Desc) } else { SortColumn::Name(SortOrder::Asc) }
    } else if n == 3 {
        if cur == SortColumn::Image(SortOrder::Asc) { SortColumn::Image(SortOrder::Desc) } else { SortColumn::Image(SortOrder::Asc) }
    } else if n == 4 {
        if cur == SortColumn::Status(SortOrder::Asc) { SortColumn::Status(SortOrder::Desc) } else { SortColumn::Status(SortOrder::Asc) }
    } else if n == 5 {
        if cur == SortColumn::Age(SortOrder::Asc) { SortColumn::Age(SortOrder::Desc) } else { SortColumn::Age(SortOrder::Asc) }
    } else {
        cur
    }
}

impl SortColumn {
    pub fn toggle(self, n: u8) -> (r: SortColumn)
        ensures
            r == toggled(n, self),
    {
        if n == 1 {
            if self == SortColumn::Id(SortOrder::Asc) { SortColumn::Id(SortOrder::Desc) } else { SortColumn::Id(SortOrder::Asc) }
        } else if n == 2 {
            if self == SortColumn::Name(SortOrder::Asc) { SortColumn::Name(SortOrder::Desc) } else { SortColumn::Name(SortOrder::Asc) }
        } else if n == 3 {
            if self == SortColumn::Image(SortOrder::Asc) { SortColumn::Image(SortOrder::Desc) } else { SortColumn::Image(SortOrder::Asc) }
        } else if n == 4 {
            if self == SortColumn::Status(SortOrder::Asc) { SortColumn::Status(SortOrder::Desc) } else { SortColumn::Status(SortOrder::Asc) }
        } else if n == 5 {
            if self == SortColumn::Age(SortOrder::Asc) { SortColumn::Age(SortOrder::Desc) } else { SortColumn::Age(SortOrder::Asc) }
        } else {
            self
        }
    }
}

/// Order of two containers under a column: by the column's value, reversed when descending.
pub open spec fn container_cmp(a: ContainerSummary, b: ContainerSummary, col: SortColumn) -> core::cmp::Ordering {
    let (o, dir) = match col {
        SortColumn::Id(d) => (text_cmp(a.id@, b.id@), d),
        SortColumn::Name(d) => (text_cmp(a.name@, b.name@), d),
        SortColumn::Image(d) => (text_cmp(a.image@, b.image@), d),
        SortColumn::Status(d) => (int_cmp(status_rank(a.status), status_rank(b.status)), d),
        SortColumn::Age(d) => (int_cmp(a.age as int, b.age as int), d),
    };
    if dir == SortOrder::Asc { o } else { reversed(o) }
}

impl Ranked<SortColumn> for ContainerSummary {
    open spec fn spec_cmp(&self, other: &Self, col: SortColumn) -> core::cmp::Ordering {
        container_cmp(*self, *other, col)
    }

    fn compare(&self, other: &Self, col: &SortColumn) -> (r: core::cmp::Ordering) {
        let (o, dir) = match col {
            SortColumn::Id(d) => (compare_text(self.id.as_str(), other.id.as_str()), d),
            SortColumn::Name(d) => (compare_text(self.name.as_str(), other.name.as_str()), d),
            SortColumn::Image(d) => (compare_text(self.image.as_str(), other.image.as_str()), d),
            SortColumn::Status(d) => (compare_i64(self.status.rank() as i64, other.status.rank() as i64), d),
            SortColumn::Age(d) => (compare_i64(self.age, other.age), d),
        };
        if *dir == SortOrder::Asc { o } else { reverse_ordering(o) }
    }

    proof fn lemma_cmp_antisymmetric(a: &Self, b: &Self, col: SortColumn) {
        lemma_text_cmp_antisymmetric(a.id@, b.id@);
        lemma_text_cmp_antisymmetric(a.name@, b.name@);
        lemma_text_cmp_antisymmetric(a.image@, b.image@);
    }

    proof fn lemma_cmp_transitive(a: &Self, b: &Self, c: &Self, col: SortColumn) {
        lemma_text_order(a.id@, b.id@, c.id@);
        lemma_text_order(a.name@, b.name@, c.name@);
        lemma_text_order(a.image@, b.image@, c.image@);
    }
}

/// Prompt for a command to run in a container.
#[derive(Debug)]
pub struct ShellPopup {
    pub cid: String,
    pub cname: String,
    pub input: LineEditor,
}

impl ShellPopup {
    pub fn new(cid: String, cname: String) -> (r: ShellPopup)
        ensures
            r.cid == cid,
            r.cname == cname,
            r.input.wf(),
            r.input@ == (Seq::<char>::empty(), 0nat),
    {
        ShellPopup { cid, cname, input: LineEditor::new() }
    }
}

#[derive(Debug)]
pub enum Popup {
    Closed,
    /// Confirmation of the deletion of container (id, name).
    Delete(String, String),
    Shell(ShellPopup),
}

/// The container list, with its metrics poller.
#[derive(Debug)]
pub struct Containers {
    pub all: bool,
    pub selected: Option<usize>,
    pub containers: Vec<ContainerSummary>,
    pub show_popup: Popup,
    pub sort_by: SortColumn,
    pub filter: Filter,
    pub task: Option<CancellableTask>,
}

pub const DEFAULT_CMD: &'static str = "/bin/bash";

impl Containers {
    pub open spec fn wf(self) -> bool {
        &&& self.filter.wf()
        &&& (self.show_popup matches Popup::Shell(p) ==> p.input.wf())
    }

    /// A list screen just built with filter `f`: nothing listed or selected yet,
    /// sorted by name, no worker.
    pub open spec fn is_fresh(self, f: Entries) -> bool {
        &&& !self.all
        &&& self.selected is None
        &&& self.containers@.len() == 0
        &&& self.show_popup is Closed
        &&& self.sort_by == SortColumn::Name(SortOrder::Asc)
        &&& self.filter.wf()
        &&& self.filter@ == f
        &&& self.task is None
    }

    pub fn new(filter: Filter) -> (r: Containers)
        requires
            filter.wf(),
        ensures
            r.is_fresh(filter@),
    {
        Containers {
            all: false,
            selected: None,
            containers: Vec::new(),
            show_popup: Popup::Closed,
            sort_by: SortColumn::Name(SortOrder::Asc),
            filter,
            task: None,
        }
    }

    pub fn get_name(&self) -> (r: &'static str)
        ensures
            r@ == "Containers"@,
    {
        "Containers"
    }

    /// (id, name) of the selected container, if a row is selected.
    pub open spec fn selected_info(self) -> Option<(Seq<char>, Seq<char>)> {
        match self.selected {
            Some(i) => if i < self.containers@.len() {
                Some((self.containers@[i as int].id@, self.containers@[i as int].name@))
            } else {
                None
            },
            None => None,
        }
    }

    pub fn get_selected_container_info(&self) -> (r: Option<(String, String)>)
        ensures
            match r {
                Some(p) => self.selected_info() == Some((p.0@, p.1@)),
                None => self.selected_info() is None,
            },
    {
        match self.selected {
            Some(i) => if i < self.containers.len() {
                Some((self.containers[i].id.clone(), self.containers[i].name.clone()))
            } else {
                None
            },
            None => None,
        }
    }

    /// Starts the metrics poller.
    pub fn setup(&mut self) -> (effects: Vec<Effect>)
        ensures
            *final(self) == (Containers { task: Some(CancellableTask { job: Job::PollMetrics, cancelled: false }), ..*old(self) }),
            effects@ == seq![Effect::Start(Job::PollMetrics)],
    {
        let (t, e) = CancellableTask::start(Job::PollMetrics);
        self.task = Some(t);
        let mut effects = Vec::new();
        effects.push(e);
        assert(effects@ =~= seq![Effect::Start(Job::PollMetrics)]);
        effects
    }

    /// Signals the metrics poller to stop.
    pub fn teardown(&mut self) -> (effects: Vec<Effect>)
        ensures
            final(self).task == (match old(self).task {
                Some(t) => Some(t.spec_cancelled()),
                None => None,
            }),
            *final(self) == (Containers { task: final(self).task, ..*old(self) }),
            effects@ == (match old(self).task {
                Some(t) => match t.cancel_signal() {
                    Some(j) => seq![Effect::Cancel(j)],
                    None => Seq::empty(),
                },
                None => Seq::empty(),
            }),
    {
        let mut effects = Vec::new();
        match &mut self.task {
            Some(t) => {
                if let Some(e) = t.cancel() {
                    effects.push(e);
                }
            }
            None => {}
        }
        proof {
            assert(effects@ =~= (match old(self).task {
                Some(t) => match t.cancel_signal() {
                    Some(j) => seq![Effect::Cancel(j)],
                    None => Seq::empty(),
                },
                None => Seq::empty(),
            }));
        }
        effects
    }

    /// The call into the runtime client that handling `action` needs, if any.
    pub open spec fn needs(self, action: Action) -> bool {
        match action {
            Action::Tick => self.show_popup is Closed,
            Action::SetFilter(f) => self.show_popup is Closed && f is Some,
            Action::Inspect => self.show_popup is Closed && self.selected_info() is Some,
            Action::Confirm => self.show_popup is Delete,
            _ => false,
        }
    }

    /// The request that handling `action` makes.
    pub open spec fn request_post(self, action: Action, r: Option<Request>) -> bool {
        let closed = self.show_popup is Closed;
        &&& (r is Some <==> self.needs(action))
        &&& match action {
            Action::Tick => closed ==> (r matches Some(Request::ListContainers { all, filter })
                && all == self.all && filter@ == self.filter@ && filter.wf()),
            Action::SetFilter(f) => (closed && f is Some) ==> r == Some(Request::ValidateFilter(f->0)),
            Action::Inspect => (closed && self.selected_info() is Some) ==> (r matches Some(Request::GetContainer(id))
                && id@ == (self.selected_info()->0).0),
            Action::Confirm => self.show_popup matches Popup::Delete(id, _) ==> r == Some(Request::DeleteContainer(id)),
            _ => true,
        }
    }

    pub fn request(&self, action: &Action) -> (r: Option<Request>)
        requires
            self.wf(),
        ensures
            self.request_post(*action, r),
    {
        match (action, &self.show_popup) {
            (Action::Tick, Popup::Closed) => Some(Request::ListContainers { all: self.all, filter: self.filter.duplicate() }),
            (Action::SetFilter(Some(t)), Popup::Closed) => Some(Request::ValidateFilter(t.clone())),
            (Action::Inspect, Popup::Closed) => match self.get_selected_container_info() {
                Some((cid, _)) => Some(Request::GetContainer(cid)),
                None => None,
            },
            (Action::Confirm, Popup::Delete(cid, _)) => Some(Request::DeleteContainer(cid.clone())),
            _ => None,
        }
    }

    /// What handling `action` does, given the runtime client's `reply` to the
    /// request of `needs`.
    pub open spec fn update_post(old: Containers, action: Action, reply: Option<Reply>, new: Containers, out: Outcome) -> bool {
        let none = old.show_popup is Closed;
        let sel = old.selected_info();
        let unchanged = new == old && out.is_empty();
        match action {
            Action::Tick => if !none { unchanged } else {
                match reply {
                    Some(Reply::Containers(Ok(list))) => {
                        &&& sorted_from(new.containers@, list@, old.sort_by)
                        &&& new == (Containers { containers: new.containers, selected: refreshed_sel(old.selected), ..old })
                        &&& out.is_empty()
                    },
                    Some(Reply::Containers(Err(e))) => {
                        &&& new == old
                        &&& out.effects@.len() == 0
                        &&& out.actions@.len() == 1
                        &&& is_error(out.actions@[0], "Error getting container list: "@ + e@)
                    },
                    _ => unchanged,
                }
            },
            Action::Down => if !none { unchanged } else {
                new == (Containers { selected: next_sel(old.selected, old.containers@.len()), ..old }) && out.is_empty()
            },
            Action::Up => if !none { unchanged } else {
                new == (Containers { selected: prev_sel(old.selected, old.containers@.len()), ..old }) && out.is_empty()
            },
            Action::All => if !none { unchanged } else {
                new == (Containers { all: !old.all, ..old }) && out.is_empty()
            },
            Action::SetFilter(f) => if !none { unchanged } else {
                match f {
                    None => new.filter@ == Seq::<(Seq<char>, Seq<char>)>::empty() && new.filter.wf()
                        && new == (Containers { filter: new.filter, ..old }) && out.is_empty(),
                    Some(t) => if reply == Some(Reply::Valid(true)) {
                        new.filter@ == filter_of_text(t@) && new.filter.wf()
                            && new == (Containers { filter: new.filter, ..old }) && out.is_empty()
                    } else {
                        &&& new == old
                        &&& out.effects@.len() == 0
                        &&& out.actions@.len() == 1
                        &&& is_error(out.actions@[0], "Invalid filter: "@ + t@)
                    },
                }
            },
            Action::Inspect => if !none || sel is None { unchanged } else {
                &&& new == old
                &&& out.effects@.len() == 0
                &&& match reply {
                    Some(Reply::Text(Ok(d))) => out.actions@[0] matches Action::Screen(Component::ContainerInspect(s))
                        && out.actions@.len() == 1
                        && s.cid@ == (sel->0).0 && s.name@ == (sel->0).1 && s.details == d && s.vertical_scroll == 0,
                    Some(Reply::Text(Err(e))) => out.actions@.len() == 1
                        && is_error(out.actions@[0], "Unable to get container \""@ + (sel->0).1 + "\" details:\n"@ + e@),
                    _ => out.actions@.len() == 0,
                }
            },
            Action::Logs => if !none || sel is None { unchanged } else {
                &&& new == old
                &&& out.effects@.len() == 0
                &&& out.actions@.len() == 1
                &&& out.actions@[0] matches Action::Screen(Component::ContainerLogs(l)) && l.is_fresh((sel->0).0, (sel->0).1)
            },
            Action::Shell => if !none || sel is None { unchanged } else {
                &&& new == old
                &&& out.effects@.len() == 0
                &&& out.actions@.len() == 2
                &&& out.actions@[0] == Action::Suspend
                &&& out.actions@[1] matches Action::Screen(Component::ContainerExec(x)) && x.is_fresh((sel->0).0, (sel->0).1, DEFAULT_CMD@)
            },
            Action::CustomShell => if !none || sel is None { unchanged } else {
                &&& new.show_popup matches Popup::Shell(p) && p.cid@ == (sel->0).0 && p.cname@ == (sel->0).1
                    && p.input.wf() && p.input@ == (Seq::<char>::empty(), 0nat)
                &&& new == (Containers { show_popup: new.show_popup, ..old })
                &&& out.is_empty()
            },
            Action::Delete => if !none || sel is None { unchanged } else {
                &&& new.show_popup matches Popup::Delete(id, name) && id@ == (sel->0).0 && name@ == (sel->0).1
                &&& new == (Containers { show_popup: new.show_popup, ..old })
                &&& out.is_empty()
            },
            Action::Confirm => match old.show_popup {
                Popup::Closed => if sel is None { unchanged } else {
                    &&& new == old
                    &&& out.effects@.len() == 0
                    &&& out.actions@.len() == 1
                    &&& out.actions@[0] matches Action::Screen(Component::ContainerView(v)) && v.is_fresh((sel->0).0)
                },
                Popup::Delete(cid, _) => match reply {
                    Some(Reply::Done(Ok(()))) => new == (Containers { show_popup: Popup::Closed, ..old })
                        && out.effects@.len() == 0 && out.actions@ == seq![Action::Tick],
                    Some(Reply::Done(Err(e))) => {
                        &&& new == old
                        &&& out.effects@.len() == 0
                        &&& out.actions@.len() == 1
                        &&& is_error(out.actions@[0], "Unable to delete container \""@ + cid@ + "\" "@ + e@)
                    },
                    _ => unchanged,
                },
                Popup::Shell(p) => {
                    &&& new == old
                    &&& out.effects@.len() == 0
                    &&& out.actions@.len() == 2
                    &&& out.actions@[0] == Action::Suspend
                    &&& out.actions@[1] matches Action::Screen(Component::ContainerExec(x))
                        && x.is_fresh(p.cid@, p.cname@, p.input@.0)
                },
            },
            Action::PreviousScreen => if none { unchanged } else {
                new == (Containers { show_popup: Popup::Closed, ..old }) && out.is_empty()
            },
            Action::SortColumn(n) => if !none { unchanged } else {
                new == (Containers { sort_by: toggled(n, old.sort_by), ..old }) && out.is_empty()
            },
            _ => unchanged,
        }
    }

    pub fn update(&mut self, action: Action, reply: Option<Reply>) -> (out: Outcome)
        requires
            old(self).wf(),
        ensures
            final(self).wf(),
            Self::update_post(*old(self), action, reply, *final(self), out),
    {
        match self.show_popup {
            Popup::Closed => self.update_list(action, reply),
            _ => self.update_popup(action, reply),
        }
    }

    /// Handling of an action while a prompt is open.
    fn update_popup(&mut self, action: Action, reply: Option<Reply>) -> (out: Outcome)
        requires
            old(self).wf(),
            !(old(self).show_popup is Closed),
        ensures
            final(self).wf(),
            Self::update_post(*old(self), action, reply, *final(self), out),
    {
        match action {
            Action::Confirm => match &self.show_popup {
                Popup::Delete(cid, _) => match reply {
                    Some(Reply::Done(Ok(()))) => {
                        self.show_popup = Popup::Closed;
                        Outcome::one(Action::Tick)
                    },
                    Some(Reply::Done(Err(e))) => {
                        let head = join3("Unable to delete container \"", cid.as_str(), "\" ");
                        Outcome::one(Action::Error(join2(head.as_str(), e.as_str())))
                    },
                    _ => Outcome::none(),
                },
                Popup::Shell(shell) => {
                    let command = string_from_chars(shell.input.text());
                    let exec = ContainerExec::new(shell.cid.clone(), shell.cname.clone(), Some(command));
                    Outcome::two(Action::Suspend, Action::Screen(Component::ContainerExec(exec)))
                },
                Popup::Closed => Outcome::none(),
            },
            Action::PreviousScreen => {
                self.show_popup = Popup::Closed;
                Outcome::none()
            },
            _ => Outcome::none(),
        }
    }

    /// Handling of an action while no prompt is open.
    fn update_list(&mut self, action: Action, reply: Option<Reply>) -> (out: Outcome)
        requires
            old(self).wf(),
            old(self).show_popup is Closed,
        ensures
            final(self).wf(),
            Self::update_post(*old(self), action, reply, *final(self), out),
    {
        match action {
            Action::Tick => match reply {
                Some(Reply::Containers(Ok(list))) => {
                    let mut list = list;
                    sort_ranked(&mut list, &self.sort_by);
                    self.containers = list;
                    if self.selected.is_none() {
                        self.selected = Some(0);
                    }
                    Outcome::none()
                },
                Some(Reply::Containers(Err(e))) => {
                    Outcome::one(Action::Error(join2("Error getting container list: ", e.as_str())))
                },
                _ => Outcome::none(),
            },
            Action::Down => {
                self.selected = next_index(self.selected, self.containers.len());
                Outcome::none()
            },
            Action::Up => {
                self.selected = previous_index(self.selected, self.containers.len());
                Outcome::none()
            },
            Action::All => {
                self.all = !self.all;
                Outcome::none()
            },
            Action::SetFilter(f) => match f {
                None => {
                    self.filter = Filter::new();
                    Outcome::none()
                },
                Some(t) => match reply {
                    Some(Reply::Valid(true)) => {
                        self.filter = Filter::from_text(t.as_str());
                        Outcome::none()
                    },
                    _ => Outcome::one(Action::Error(join2("Invalid filter: ", t.as_str()))),
                },
            },
            Action::Inspect => match self.get_selected_container_info() {
                Some((cid, cname)) => match reply {
                    Some(Reply::Text(Ok(details))) => {
                        Outcome::one(Action::Screen(Component::ContainerInspect(ContainerDetails::new(cid, cname, details))))
                    },
                    Some(Reply::Text(Err(e))) => {
                        let head = join3("Unable to get container \"", cname.as_str(), "\" details:\n");
                        Outcome::one(Action::Error(join2(head.as_str(), e.as_str())))
                    },
                    _ => Outcome::none(),
                },
                None => Outcome::none(),
            },
            Action::Logs => match self.get_selected_container_info() {
                Some((cid, cname)) => Outcome::one(Action::Screen(Component::ContainerLogs(ContainerLogs::new(cid, cname)))),
                None => Outcome::none(),
            },
            Action::Confirm => match self.get_selected_container_info() {
                Some((cid, _)) => Outcome::one(Action::Screen(Component::ContainerView(ContainerView::new(cid)))),
                None => Outcome::none(),
            },
            Action::Shell => match self.get_selected_container_info() {
                Some((cid, cname)) => {
                    let exec = ContainerExec::new(cid, cname, None);
                    Outcome::two(Action::Suspend, Action::Screen(Component::ContainerExec(exec)))
                },
                None => Outcome::none(),
            },
            Action::CustomShell => match self.get_selected_container_info() {
                Some((cid, cname)) => {
                    self.show_popup = Popup::Shell(ShellPopup::new(cid, cname));
                    Outcome::none()
                },
                None => Outcome::none(),
            },
            Action::Delete => match self.get_selected_container_info() {
                Some((cid, cname)) => {
                    self.show_popup = Popup::Delete(cid, cname);
                    Outcome::none()
                },
                None => Outcome::none(),
            },
            Action::SortColumn(n) => {
                self.sort_by = self.sort_by.toggle(n);
                Outcome::none()
            },
            _ => Outcome::none(),
        }
    }

    /// Keys typed while the command prompt is open edit the command; Esc closes the
    /// prompt. Returns the key when the screen leaves it to the global key map.
    pub fn handle_input(&mut self, key: Key) -> (r: Option<Key>)
        requires
            old(self).wf(),
            old(self).show_popup matches Popup::Shell(p) ==> p.input@.0.len() < usize::MAX,
        ensures
            final(self).wf(),
            !(old(self).show_popup is Shell) ==> r == Some(key) && *final(self) == *old(self),
            old(self).show_popup is Shell && !key.press ==> r is None && *final(self) == *old(self),
            old(self).show_popup is Shell && key.press ==> match key.code {
                KeyCode::Esc => r is None && *final(self) == (Containers { show_popup: Popup::Closed, ..*old(self) }),
                KeyCode::Char(c) => final(self).show_popup matches Popup::Shell(p) && r is None
                    && p.input@ == crate::editor::inserted(old(self).show_popup->Shell_0.input@, c)
                    && p.cid == old(self).show_popup->Shell_0.cid && p.cname == old(self).show_popup->Shell_0.cname
                    && *final(self) == (Containers { show_popup: final(self).show_popup, ..*old(self) }),
                KeyCode::Backspace => final(self).show_popup matches Popup::Shell(p) && r is None
                    && p.input@ == crate::editor::backspaced(old(self).show_popup->Shell_0.input@)
                    && p.cid == old(self).show_popup->Shell_0.cid && p.cname == old(self).show_popup->Shell_0.cname
                    && *final(self) == (Containers { show_popup: final(self).show_popup, ..*old(self) }),
                KeyCode::Left => final(self).show_popup matches Popup::Shell(p) && r is None
                    && p.input@ == crate::editor::moved_left(old(self).show_popup->Shell_0.input@)
                    && p.cid == old(self).show_popup->Shell_0.cid && p.cname == old(self).show_popup->Shell_0.cname
                    && *final(self) == (Containers { show_popup: final(self).show_popup, ..*old(self) }),
                KeyCode::Right => final(self).show_popup matches Popup::Shell(p) && r is None
                    && p.input@ == crate::editor::moved_right(old(self).show_popup->Shell_0.input@)
                    && p.cid == old(self).show_popup->Shell_0.cid && p.cname == old(self).show_popup->Shell_0.cname
                    && *final(self) == (Containers { show_popup: final(self).show_popup, ..*old(self) }),
                _ => r == Some(key) && *final(self) == *old(self),
            },
    {
        let is_shell = match self.show_popup {
            Popup::Shell(_) => true,
            _ => false,
        };
        if !is_shell {
            return Some(key);
        }
        if !key.press {
            return None;
        }
        match key.code {
            KeyCode::Esc => {
                self.show_popup = Popup::Closed;
                None
            },
            KeyCode::Char(c) => {
                if let Popup::Shell(p) = &mut self.show_popup {
                    p.input.enter_char(c);
                }
                None
            },
            KeyCode::Backspace => {
                if let Popup::Shell(p) = &mut self.show_popup {
                    p.input.delete_char();
                }
                None
            },
            KeyCode::Left => {
                if let Popup::Shell(p) = &mut self.show_popup {
                    p.input.move_cursor_left();
                }
                None
            },
            KeyCode::Right => {
                if let Popup::Shell(p) = &mut self.show_popup {
                    p.input.move_cursor_right();
                }
                None
            },
            _ => Some(key),
        }
    }

    /// Keys of this screen: i inspect, l logs, s shell, S custom command, Enter view.
    /// The screen's own key bindings.
    pub open spec fn key_action(key: Key) -> Option<Action> {
        match key.code {
            KeyCode::Char('i') => Some(Action::Inspect),
            KeyCode::Char('l') => Some(Action::Logs),
            KeyCode::Char('s') => Some(Action::Shell),
            KeyCode::Char('S') => Some(Action::CustomShell),
            KeyCode::Enter => Some(Action::Confirm),
            _ => None,
        }
    }

    pub fn get_action(&self, key: &Key) -> (r: Option<Action>)
        ensures
            r == Self::key_action(*key),
    {
        match key.code {
            KeyCode::Char('i') => Some(Action::Inspect),
            KeyCode::Char('l') => Some(Action::Logs),
            KeyCode::Char('s') => Some(Action::Shell),
            KeyCode::Char('S') => Some(Action::CustomShell),
            KeyCode::Enter => Some(Action::Confirm),
            _ => None,
        }
    }
}

} // verus!
