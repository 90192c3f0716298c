use vstd::prelude::*;

use crate::action::Action;
use crate::components::compose_view::ComposeView;
use crate::components::containers::Containers;
use crate::components::networks::Networks;
use crate::components::volumes::Volumes;
use crate::components::{
    is_error, next_index, next_sel, prev_sel, previous_index, refreshed_sel, Component, Outcome, Reply,
    Request,
};
use crate::order::{lemma_text_cmp_antisymmetric, lemma_text_order, sort_ranked, sorted_from, Ranked};
use crate::runtime::model::{Compose, Filter, DOCKER_COMPOSE_PROJECT};
use crate::text::{compare_text, join2, text_cmp};
use crate::tui::{Key, KeyCode};

verus! {

/// Projects are listed by name.
#[derive(Clone, Copy, Debug, PartialEq, Eq, Structural)]
pub struct ByProject;

impl Ranked<ByProject> for Compose {
    open spec fn spec_cmp(&self, other: &Self, col: ByProject) -> core::cmp::Ordering {
        text_cmp(self.project@, other.project@)
    }

    fn compare(&self, other: &Self, col: &ByProject) -> (r: core::cmp::Ordering) {
        compare_text(self.project.as_str(), other.project.as_str())
    }

    proof fn lemma_cmp_antisymmetric(a: &Self, b: &Self, col: ByProject) {
        lemma_text_cmp_antisymmetric(a.project@, b.project@);
    }

    proof fn lemma_cmp_transitive(a: &Self, b: &Self, c: &Self, col: ByProject) {
        lemma_text_order(a.project@, b.project@, c.project@);
    }
}

/// The compose project list.
#[derive(Debug)]
pub struct Composes {
    pub composes: Vec<Compose>,
    pub selected: Option<usize>,
}

impl Composes {
    pub open spec fn is_fresh(self) -> bool {
        self.composes@.len() == 0 && self.selected is None
    }

    pub fn new() -> (r: Composes)
        ensures
            r.is_fresh(),
    {
        Composes { composes: Vec::new(), selected: None }
    }

    pub fn get_name(&self) -> (r: &'static str)
        ensures
            r@ == "Compose projects"@,
    {
        "Compose projects"
    }

    pub open spec fn selected_compose(self) -> Option<Compose> {
        match self.selected {
            Some(i) => if i < self.composes@.len() { Some(self.composes@[i as int]) } else { None },
            None => None,
        }
    }

    /// The request that handling `action` makes.
    pub open spec fn request_post(self, action: Action, r: Option<Request>) -> bool {
        &&& action is Tick ==> r == Some(Request::ListComposeProjects)
        &&& !(action is Tick) ==> r is None
    }

    pub fn request(&self, action: &Action) -> (r: Option<Request>)
        ensures
            self.request_post(*action, r),
    {
        match action {
            Action::Tick => Some(Request::ListComposeProjects),
            _ => None,
        }
    }

    /// A tick lists the projects again, ordered by name; Up and Down move the selection.
    pub open spec fn update_post(old: Composes, action: Action, reply: Option<Reply>, new: Composes, out: Outcome) -> bool {
        match action {
            Action::Tick => match reply {
                Some(Reply::Composes(Ok(list))) => {
                    &&& sorted_from(new.composes@, list@, ByProject)
                    &&& new.selected == refreshed_sel(old.selected)
                    &&& out.is_empty()
                },
                Some(Reply::Composes(Err(e))) => {
                    &&& new == old
                    &&& out.effects@.len() == 0
                    &&& out.actions@.len() == 1
                    &&& is_error(out.actions@[0], "Error getting compose projects: "@ + e@)
                },
                _ => new == old && out.is_empty(),
            },
            Action::Down => new == (Composes { selected: next_sel(old.selected, old.composes@.len()), ..old }) && out.is_empty(),
            Action::Up => new == (Composes { selected: prev_sel(old.selected, old.composes@.len()), ..old }) && out.is_empty(),
            _ => new == old && out.is_empty(),
        }
    }

    pub fn update(&mut self, action: Action, reply: Option<Reply>) -> (out: Outcome)
        ensures
            Self::update_post(*old(self), action, reply, *final(self), out),
    {
        match action {
            Action::Tick => match reply {
                Some(Reply::Composes(Ok(list))) => {
                    let mut list = list;
                    sort_ranked(&mut list, &ByProject);
                    self.composes = list;
                    if self.selected.is_none() {
                        self.selected = Some(0);
                    }
                    Outcome::none()
                },
                Some(Reply::Composes(Err(e))) => Outcome::one(Action::Error(join2("Error getting compose projects: ", e.as_str()))),
                _ => Outcome::none(),
            },
            Action::Down => {
                self.selected = next_index(self.selected, self.composes.len());
                Outcome::none()
            },
            Action::Up => {
                self.selected = previous_index(self.selected, self.composes.len());
                Outcome::none()
            },
            _ => Outcome::none(),
        }
    }

    /// With a project selected: Enter shows it, `c`, `v` and `n` list its
    /// containers, volumes and networks.
    pub open spec fn binds(self, key: Key) -> bool {
        self.selected_compose() is Some && (key.code == KeyCode::Enter || key.code == KeyCode::Char('c')
            || key.code == KeyCode::Char('v') || key.code == KeyCode::Char('n'))
    }

    pub open spec fn action_post(self, key: Key, r: Option<Action>) -> bool {
        &&& self.selected_compose() is None ==> r is None
        &&& self.selected_compose() matches Some(p) ==> match key.code {
                KeyCode::Enter => r matches Some(Action::Screen(Component::ComposeView(v))),
                KeyCode::Char('c') => r matches Some(Action::Screen(Component::Containers(c)))
                    && c.is_fresh(seq![("label"@, DOCKER_COMPOSE_PROJECT@ + "="@ + p.project@)]),
                KeyCode::Char('v') => r matches Some(Action::Screen(Component::Volumes(c)))
                    && c.is_fresh(seq![("label"@, DOCKER_COMPOSE_PROJECT@ + "="@ + p.project@)]),
                KeyCode::Char('n') => r matches Some(Action::Screen(Component::Networks(c)))
                    && c.is_fresh(seq![("label"@, DOCKER_COMPOSE_PROJECT@ + "="@ + p.project@)]),
                _ => r is None,
            }
    }

    pub fn get_action(&self, key: &Key) -> (r: Option<Action>)
        ensures
            self.action_post(*key, r),
    {
        let i = match self.selected {
            Some(i) => i,
            None => return None,
        };
        if i >= self.composes.len() {
            return None;
        }
        let project = self.composes[i].project.clone();
        let filter = Filter::new().compose_project(project);
        assert(filter@ =~= seq![("label"@, DOCKER_COMPOSE_PROJECT@ + "="@ + self.composes@[i as int].project@)]);
        match key.code {
            KeyCode::Enter => Some(Action::Screen(Component::ComposeView(ComposeView::new(self.composes[i].clone())))),
            KeyCode::Char('c') => Some(Action::Screen(Component::Containers(Containers::new(filter)))),
            KeyCode::Char('v') => Some(Action::Screen(Component::Volumes(Volumes::new(filter)))),
            KeyCode::Char('n') => Some(Action::Screen(Component::Networks(Networks::new(filter)))),
            _ => None,
        }
    }
}

} // verus!
