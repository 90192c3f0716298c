use vstd::prelude::*;

use crate::action::Action;
use crate::components::{scroll, scrolled, Component, Outcome};


verus! {

/// The engine's description of one container, as text.
#[derive(Debug)]
pub struct ContainerDetails {
    pub cid: String,
    pub name: String,
    pub details: String,
    pub vertical_scroll: usize,
}

impl ContainerDetails {
    pub fn new(cid: String, name: String, details: String) -> (r: ContainerDetails)
        ensures
            r.cid == cid,
            r.name == name,
            r.details == details,
            r.vertical_scroll == 0,
    {
        ContainerDetails { cid, name, details, vertical_scroll: 0 }
    }

    pub fn get_name(&self) -> (r: &'static str)
        ensures
            r@ == "ContainerDetails"@,
    {
        "ContainerDetails"
    }

    /// `PreviousScreen` goes back to the container list; navigation actions scroll the text.
    pub open spec fn update_post(old: ContainerDetails, action: Action, new: ContainerDetails, out: Outcome) -> bool {
        if action is PreviousScreen {
            &&& new == old
            &&& out.effects@.len() == 0
            &&& out.actions@.len() == 1
            &&& out.actions@[0] matches Action::Screen(Component::Containers(s)) && s.is_fresh(Seq::empty())
        } else {
            &&& new.cid == old.cid
            &&& new.name == old.name
            &&& new.details == old.details
            &&& new.vertical_scroll == scrolled(old.vertical_scroll, action)
            &&& out.is_empty()
        }
    }

    pub fn update(&mut self, action: Action) -> (out: Outcome)
        ensures
            Self::update_post(*old(self), action, *final(self), out),
    {
        match action {
            Action::PreviousScreen => Outcome::one(Action::Screen(Component::Containers(crate::components::containers::Containers::new(crate::runtime::model::Filter::new())))),
            _ => {
                self.vertical_scroll = scroll(self.vertical_scroll, &action);
                Outcome::none()
            }
        }
    }
}

} // verus!
