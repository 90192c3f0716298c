use vstd::prelude::*;

use crate::action::Action;
use crate::components::containers::Containers;
use crate::components::{is_error, Component, Outcome, Reply, Request};
use crate::runtime::model::{ContainerDetails, Filter};

verus! {

/// Live details of one container, refreshed on every tick.
#[derive(Debug)]
pub struct ContainerView {
    pub id: String,
    pub details: Option<ContainerDetails>,
}

impl ContainerView {
    pub open spec fn is_fresh(self, id: Seq<char>) -> bool {
        self.id@ == id && self.details is None
    }

    pub fn new(id: String) -> (r: ContainerView)
        ensures
            r.is_fresh(id@),
    {
        ContainerView { id, details: None }
    }

    pub fn get_name(&self) -> (r: &'static str)
        ensures
            r@ == "ContainerView"@,
    {
        "ContainerView"
    }

    /// The request that handling `action` makes.
    pub open spec fn request_post(self, action: Action, r: Option<Request>) -> bool {
        &&& action is Tick ==> (r matches Some(Request::GetContainerDetails(id)) && id == self.id)
        &&& !(action is Tick) ==> r is None
    }

    pub fn request(&self, action: &Action) -> (r: Option<Request>)
        ensures
            self.request_post(*action, r),
    {
        match action {
            Action::Tick => Some(Request::GetContainerDetails(self.id.clone())),
            _ => None,
        }
    }

    /// A tick refreshes the details (kept as they were when the call fails, which is
    /// reported); `PreviousScreen` goes back to the container list.
    pub open spec fn update_post(old: ContainerView, action: Action, reply: Option<Reply>, new: ContainerView, out: Outcome) -> bool {
        match action {
            Action::PreviousScreen => {
                &&& new == old
                &&& out.effects@.len() == 0
                &&& out.actions@.len() == 1
                &&& out.actions@[0] matches Action::Screen(Component::Containers(c)) && c.is_fresh(Seq::empty())
            },
            Action::Tick => match reply {
                Some(Reply::Details(Ok(d))) => new == (ContainerView { details: Some(d), ..old }) && out.is_empty(),
                Some(Reply::Details(Err(e))) => new == old && out.effects@.len() == 0 && out.actions@.len() == 1
                    && is_error(out.actions@[0], e@),
                _ => new == old && out.is_empty(),
            },
            _ => new == old && out.is_empty(),
        }
    }

    pub fn update(&mut self, action: Action, reply: Option<Reply>) -> (out: Outcome)
        ensures
            Self::update_post(*old(self), action, reply, *final(self), out),
    {
        match action {
            Action::PreviousScreen => Outcome::one(Action::Screen(Component::Containers(Containers::new(Filter::new())))),
            Action::Tick => match reply {
                Some(Reply::Details(Ok(d))) => {
                    self.details = Some(d);
                    Outcome::none()
                },
                Some(Reply::Details(Err(e))) => Outcome::one(Action::Error(e)),
                _ => Outcome::none(),
            },
            _ => Outcome::none(),
        }
    }
}

} // verus!
